use sw3d::render::uniform::UniformPool;

#[test]
fn new_pool_has_no_slot() {
    let pool = UniformPool::new();
    assert_eq!(pool.owners.len(), 0);
}

#[test]
fn next_grows_an_empty_pool() {
    let mut pool = UniformPool::new();
    assert_eq!(pool.next(4), 0);
    assert_eq!(pool.next(4), 1);
    assert_eq!(pool.next(2), 2);
    assert_eq!(pool.owners, vec![Some(4), Some(4), Some(2)]);
}

#[test]
fn next_takes_the_first_free_slot() {
    let mut pool = UniformPool { owners: vec![Some(0), None, Some(1), None] };
    assert_eq!(pool.next(2), 1);
    assert_eq!(pool.owners, vec![Some(0), Some(2), Some(1), None]);
    assert_eq!(pool.next(2), 3);
    assert_eq!(pool.next(2), 4);
    assert_eq!(pool.owners, vec![Some(0), Some(2), Some(1), Some(2), Some(2)]);
}

#[test]
fn release_frees_the_slots_of_one_frame_only() {
    let mut pool = UniformPool { owners: vec![Some(0), Some(1), Some(0), None, Some(2)] };
    pool.release(0);
    assert_eq!(pool.owners, vec![None, Some(1), None, None, Some(2)]);
    pool.release(0);
    assert_eq!(pool.owners, vec![None, Some(1), None, None, Some(2)]);
    pool.release(7);
    assert_eq!(pool.owners, vec![None, Some(1), None, None, Some(2)]);
    pool.release(2);
    assert_eq!(pool.owners, vec![None, Some(1), None, None, None]);
}

#[test]
fn release_of_an_empty_pool_does_nothing() {
    let mut pool = UniformPool::new();
    pool.release(0);
    assert_eq!(pool.owners.len(), 0);
}
