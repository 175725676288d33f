//! The broker's pool of idle worker connections.
//!
//! Handles enter at the tail in the order their connections were
//! accepted and leave at the head, so the oldest idle worker is always
//! served first. The pool is the only state shared between the two
//! accept loops; callers guard it with a mutex and keep the critical
//! section to a single `offer` or `take`.

use vstd::prelude::*;
use vstd::seq_lib::lemma_multiset_commutative;
use std::collections::VecDeque;

verus! {

/// FIFO collection of not-yet-paired worker transport handles.
///
/// Its view is the sequence of pooled handles, oldest first.
pub struct IdlePool<T> {
    items: VecDeque<T>,
}

impl<T> View for IdlePool<T> {
    type V = Seq<T>;

    closed spec fn view(&self) -> Seq<T> {
        self.items@
    }
}

impl<T> IdlePool<T> {
    /// A fresh pool holds nothing.
    pub fn new() -> (r: Self)
        ensures
            r@ == Seq::<T>::empty(),
    {
        IdlePool { items: VecDeque::new() }
    }

    /// Appends a handle at the tail; always succeeds.
    pub fn offer(&mut self, handle: T)
        ensures
            final(self)@ == old(self)@.push(handle),
    {
        self.items.push_back(handle);
    }

    /// Removes and returns the head handle if any, else reports the
    /// pool empty; never blocks or waits for supply.
    pub fn take(&mut self) -> (r: Option<T>)
        ensures
            old(self)@.len() == 0 ==> r is None && final(self)@ == old(self)@,
            old(self)@.len() > 0 ==> r == Some(old(self)@[0]) && final(self)@
                == old(self)@.drop_first(),
    {
        let r = self.items.pop_front();
        proof {
            if old(self)@.len() > 0 {
                assert(self.items@ =~= old(self)@.drop_first());
            }
        }
        r
    }

    /// How many idle workers are pooled right now.
    pub fn len(&self) -> (n: usize)
        ensures
            n == self@.len(),
    {
        self.items.len()
    }
}

/// FIFO pairing: start from a pool that holds the handles `offers`,
/// offered in that order, and serve user connections one at a time.
/// Before the k-th user is served, the pool holds `offers.skip(k)`, so
/// that user is paired with `offers[k]` — the k-th offered worker —
/// and the pool moves on to `offers.skip(k + 1)`.
pub proof fn lemma_fifo_pairing<T>(offers: Seq<T>, k: int)
    requires
        0 <= k < offers.len(),
    ensures
        offers.skip(k).len() > 0,
        offers.skip(k)[0] == offers[k],
        offers.skip(k).drop_first() == offers.skip(k + 1),
{
    assert(offers.skip(k).drop_first() =~= offers.skip(k + 1));
}

/// Exactly-once consumption: after any number k of takes from a pool
/// that held `offers`, the handles handed out are exactly the first k
/// offered and the rest still sit in the pool; together they make up
/// the original offers with no handle duplicated or lost.
pub proof fn lemma_exactly_once_consumption<T>(offers: Seq<T>, k: int)
    requires
        0 <= k <= offers.len(),
    ensures
        offers.take(k) + offers.skip(k) == offers,
        offers.take(k).to_multiset().add(offers.skip(k).to_multiset())
            == offers.to_multiset(),
{
    assert(offers.take(k) + offers.skip(k) =~= offers);
    lemma_multiset_commutative(offers.take(k), offers.skip(k));
}

/// A handle that was offered only once is returned by at most one
/// take: two distinct takes return handles from distinct positions,
/// and those cannot both be that handle.
pub proof fn lemma_exactly_once<T>(offers: Seq<T>, i: int, j: int)
    requires
        0 <= i < j < offers.len(),
        offers.to_multiset().count(offers[i]) <= 1,
    ensures
        offers[i] != offers[j],
{
    if offers[i] == offers[j] {
        let h = offers[i];
        let front = offers.take(j);
        let back = offers.skip(j);
        front.to_multiset_ensures();
        back.to_multiset_ensures();
        assert(offers =~= front + back);
        lemma_multiset_commutative(front, back);
        assert(front[i] == h);
        assert(front.contains(h));
        assert(front.to_multiset().count(h) > 0);
        assert(back[0] == h);
        assert(back.contains(h));
        assert(back.to_multiset().count(h) > 0);
        assert(offers.to_multiset().count(h) == front.to_multiset().count(h)
            + back.to_multiset().count(h));
    }
}

} // verus!
