use minigw::StagingPool;

#[test]
fn two_slots_cycle() {
    let mut pool = StagingPool::new(2);
    let mut written = Vec::new();
    let mut flushed = Vec::new();
    for _ in 0..6 {
        written.push(pool.acquire_writable());
        flushed.push(pool.flush());
    }
    assert_eq!(written, vec![0, 1, 0, 1, 0, 1]);
    assert_eq!(flushed, vec![None, Some(0), Some(1), Some(0), Some(1), Some(0)]);
    for k in 0..5 {
        assert_eq!(flushed[k + 1], Some(written[k]));
    }
}

#[test]
fn one_slot_flushes_at_once() {
    let mut pool = StagingPool::new(1);
    assert_eq!(pool.slot_count(), 1);
    for _ in 0..3 {
        assert_eq!(pool.acquire_writable(), 0);
        assert_eq!(pool.flush(), Some(0));
    }
}
