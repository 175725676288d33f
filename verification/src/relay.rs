//! The bidirectional relay between one user connection and one worker
//! connection.
//!
//! The session hands every chunk read on one side through to the other
//! side unchanged and in order, keeps a ghost record of the bytes
//! delivered in each direction, and turns the first end-of-stream or
//! error on either leg into a teardown of both handles — there is no
//! half-duplex keep-alive. A pairing is single-use: once closed, the
//! session is done and fresh pairings come from the accept loops.

use vstd::prelude::*;

verus! {

/// Why one leg of the relay stopped.
pub enum StreamEnd {
    /// The peer shut its stream down cleanly.
    Eof,
    /// Reading or writing this leg failed.
    IoError,
}

/// What the relay task must do next.
pub enum RelayAction {
    /// Close both the user-side and the worker-side handle now.
    CloseBoth,
}

/// Which way a chunk of bytes is travelling.
#[derive(Clone, Copy)]
pub enum Direction {
    /// Read on the user side, to be written on the worker side.
    UserToWorker,
    /// Read on the worker side, to be written on the user side.
    WorkerToUser,
}

/// Whether the session still moves bytes.
#[derive(PartialEq, Eq, Structural)]
pub enum RelayPhase {
    Active,
    Closed,
}

/// One paired (user handle, worker handle) relay, from dispatch until
/// either side closes. The exec state is the phase alone; the ghost
/// fields record every byte delivered to each side, in order.
pub struct RelaySession {
    phase: RelayPhase,
    delivered_to_worker: Ghost<Seq<u8>>,
    delivered_to_user: Ghost<Seq<u8>>,
}

impl RelaySession {
    pub closed spec fn phase(&self) -> RelayPhase {
        self.phase
    }

    /// All bytes delivered to the worker side so far, in order.
    pub closed spec fn to_worker(&self) -> Seq<u8> {
        self.delivered_to_worker@
    }

    /// All bytes delivered to the user side so far, in order.
    pub closed spec fn to_user(&self) -> Seq<u8> {
        self.delivered_to_user@
    }

    /// A session starts active with nothing delivered either way.
    pub fn new() -> (r: Self)
        ensures
            r.phase() is Active,
            r.to_worker() == Seq::<u8>::empty(),
            r.to_user() == Seq::<u8>::empty(),
    {
        RelaySession {
            phase: RelayPhase::Active,
            delivered_to_worker: Ghost(Seq::empty()),
            delivered_to_user: Ghost(Seq::empty()),
        }
    }

    /// Moves one chunk across the relay: the bytes to write on the far
    /// side are exactly the bytes read, and they extend that side's
    /// delivery record; the opposite direction is untouched.
    pub fn forward_chunk(&mut self, dir: Direction, data: Vec<u8>) -> (out: Vec<u8>)
        requires
            old(self).phase() is Active,
        ensures
            out@ == data@,
            final(self).phase() is Active,
            dir is UserToWorker ==> final(self).to_worker() == old(self).to_worker() + data@
                && final(self).to_user() == old(self).to_user(),
            dir is WorkerToUser ==> final(self).to_user() == old(self).to_user() + data@
                && final(self).to_worker() == old(self).to_worker(),
    {
        match dir {
            Direction::UserToWorker => {
                self.delivered_to_worker = Ghost(self.delivered_to_worker@ + data@);
            },
            Direction::WorkerToUser => {
                self.delivered_to_user = Ghost(self.delivered_to_user@ + data@);
            },
        }
        data
    }

    /// Moves a whole finite stream of chunks in one direction: every
    /// chunk comes out as it went in, and the far side receives their
    /// concatenation appended to what it already had — no byte
    /// duplicated, lost or reordered.
    pub fn forward_stream(&mut self, dir: Direction, chunks: Vec<Vec<u8>>) -> (out: Vec<
        Vec<u8>,
    >)
        requires
            old(self).phase() is Active,
        ensures
            out.deep_view() == chunks.deep_view(),
            final(self).phase() is Active,
            dir is UserToWorker ==> final(self).to_worker() == old(self).to_worker()
                + chunks.deep_view().flatten() && final(self).to_user() == old(self).to_user(),
            dir is WorkerToUser ==> final(self).to_user() == old(self).to_user()
                + chunks.deep_view().flatten() && final(self).to_worker() == old(
                self,
            ).to_worker(),
    {
        let ghost all = chunks.deep_view();
        let ghost w0 = self.to_worker();
        let ghost u0 = self.to_user();
        let mut out: Vec<Vec<u8>> = Vec::new();
        let mut rest = chunks;
        proof {
            assert(all.take(0) =~= Seq::<Seq<u8>>::empty());
            assert(out.deep_view() =~= all.take(0));
            assert(rest.deep_view() =~= all.skip(0));
        }
        let n = rest.len();
        for k in 0..n
            invariant
                n == all.len(),
                rest@.len() == n - k,
                rest.deep_view() =~= all.skip(k as int),
                out.deep_view() =~= all.take(k as int),
                self.phase() is Active,
                dir is UserToWorker ==> self.to_worker() == w0 + all.take(k as int).flatten()
                    && self.to_user() == u0,
                dir is WorkerToUser ==> self.to_user() == u0 + all.take(k as int).flatten()
                    && self.to_worker() == w0,
        {
            let ghost rest_pre = rest@;
            let ghost rest_pre_deep = rest.deep_view();
            let ghost out_pre_deep = out.deep_view();
            let ghost taken = all.take(k as int);
            let chunk = rest.remove(0);
            proof {
                assert(rest_pre_deep == all.skip(k as int));
                assert(chunk.deep_view() == rest_pre_deep[0]);
                assert(all.skip(k as int)[0] == all[k as int]);
                assert(chunk.deep_view() =~= chunk@);
                assert(chunk@ == all[k as int]);
                assert(rest@ =~= rest_pre.subrange(1, rest_pre.len() as int));
                assert forall|i: int| 0 <= i < rest@.len() implies #[trigger] rest.deep_view()[i]
                    == all[k + 1 + i] by {
                    assert(rest.deep_view()[i] == rest@[i].deep_view());
                    assert(rest@[i] == rest_pre[i + 1]);
                    assert(rest_pre[i + 1].deep_view() == rest_pre_deep[i + 1]);
                    assert(rest_pre_deep[i + 1] == all[k + 1 + i]);
                }
                assert(rest.deep_view() =~= all.skip(k + 1));
            }
            let delivered = self.forward_chunk(dir, chunk);
            proof {
                assert(delivered.deep_view() =~= delivered@);
            }
            out.push(delivered);
            proof {
                taken.lemma_flatten_push(all[k as int]);
                assert(all.take(k + 1) =~= taken.push(all[k as int]));
                assert forall|i: int| 0 <= i < out@.len() implies #[trigger] out.deep_view()[i]
                    == all.take(k + 1)[i] by {
                    assert(out.deep_view()[i] == out@[i].deep_view());
                    if i < k as int {
                        assert(out@[i].deep_view() == out_pre_deep[i]);
                        assert(out_pre_deep[i] == taken[i]);
                    } else {
                        assert(out@[i] == delivered);
                    }
                }
                assert(out.deep_view() =~= all.take(k + 1));
            }
        }
        proof {
            assert(all.take(n as int) =~= all);
        }
        out
    }

    /// Close-on-either-end: the moment either leg reaches end of
    /// stream or errors, the relay is over and both handles must be
    /// closed — within this same step, so no half-open socket leaks.
    /// The delivery records stay as they were; errors are absorbed
    /// here and never touch other sessions or the accept loops.
    pub fn on_stream_end(&mut self, dir: Direction, why: StreamEnd) -> (a: RelayAction)
        ensures
            a is CloseBoth,
            final(self).phase() is Closed,
            final(self).to_worker() == old(self).to_worker(),
            final(self).to_user() == old(self).to_user(),
    {
        self.phase = RelayPhase::Closed;
        RelayAction::CloseBoth
    }
}

} // verus!
