use mi7_reverse::broker::{dispatch_user, worker_accept_step, Dispatch, WorkerAccept};
use mi7_reverse::pool::IdlePool;

#[test]
fn new_pool_is_empty() {
    let mut pool: IdlePool<u32> = IdlePool::new();
    assert_eq!(pool.len(), 0);
    assert!(pool.take().is_none());
}

#[test]
fn fifo_order_of_takes() {
    // Three worker handles offered in order are taken in that order.
    let mut pool: IdlePool<u32> = IdlePool::new();
    pool.offer(11);
    pool.offer(22);
    pool.offer(33);
    assert_eq!(pool.len(), 3);
    assert_eq!(pool.take(), Some(11));
    assert_eq!(pool.take(), Some(22));
    assert_eq!(pool.take(), Some(33));
    assert_eq!(pool.take(), None);
}

#[test]
fn fifo_pairing_n_offers_n_arrivals() {
    // The k-th user is paired with the k-th offered worker, for all k.
    let n: u32 = 50;
    let mut pool: IdlePool<u32> = IdlePool::new();
    for w in 0..n {
        pool.offer(w);
    }
    for k in 0..n {
        assert_eq!(pool.take(), Some(k));
    }
    assert_eq!(pool.len(), 0);
}

#[test]
fn interleaved_offers_keep_order() {
    let mut pool: IdlePool<u32> = IdlePool::new();
    pool.offer(1);
    pool.offer(2);
    assert_eq!(pool.take(), Some(1));
    pool.offer(3);
    assert_eq!(pool.take(), Some(2));
    assert_eq!(pool.take(), Some(3));
    assert_eq!(pool.take(), None);
}

#[test]
fn each_handle_taken_at_most_once() {
    // Every offered handle comes back exactly once over any number of takes.
    let mut pool: IdlePool<u64> = IdlePool::new();
    for w in 0..100u64 {
        pool.offer(w);
    }
    let mut seen = [false; 100];
    while let Some(h) = pool.take() {
        assert!(!seen[h as usize], "handle {} returned twice", h);
        seen[h as usize] = true;
    }
    assert!(seen.iter().all(|&s| s));
}

#[test]
fn accepted_workers_are_pooled_and_failures_change_nothing() {
    let mut pool: IdlePool<u32> = IdlePool::new();
    worker_accept_step(&mut pool, WorkerAccept::Accepted(5));
    worker_accept_step(&mut pool, WorkerAccept::Failed);
    worker_accept_step(&mut pool, WorkerAccept::Accepted(6));
    assert_eq!(pool.len(), 2);
    assert_eq!(pool.take(), Some(5));
    assert_eq!(pool.take(), Some(6));
}

#[test]
fn dispatch_on_empty_pool_closes_user() {
    // A user arriving with zero idle workers is refused, and the pool
    // stays empty.
    let mut pool: IdlePool<u32> = IdlePool::new();
    assert!(matches!(dispatch_user(&mut pool), Dispatch::NoWorker));
    assert_eq!(pool.len(), 0);
}

#[test]
fn dispatch_hands_out_oldest_worker() {
    let mut pool: IdlePool<u32> = IdlePool::new();
    pool.offer(7);
    pool.offer(8);
    match dispatch_user(&mut pool) {
        Dispatch::Paired(h) => assert_eq!(h, 7),
        Dispatch::NoWorker => panic!("worker was available"),
    }
    assert_eq!(pool.len(), 1);
    match dispatch_user(&mut pool) {
        Dispatch::Paired(h) => assert_eq!(h, 8),
        Dispatch::NoWorker => panic!("worker was available"),
    }
    assert!(matches!(dispatch_user(&mut pool), Dispatch::NoWorker));
}
