use ws_session::pool::BufferPool;

#[test]
fn a_new_pool_holds_its_buffer() {
    let pool = BufferPool::new(vec![0u8; 4]);
    assert!(pool.is_available());
}

#[test]
fn the_buffer_is_taken_once() {
    let mut pool = BufferPool::new(vec![1u8, 2, 3]);
    assert_eq!(pool.take(), Some(vec![1u8, 2, 3]));
    assert!(!pool.is_available());
    assert_eq!(pool.take(), None);
}

#[test]
fn a_reclaimed_buffer_serves_the_next_serialization() {
    let mut pool = BufferPool::new(Vec::<u8>::new());
    let mut buffer = pool.take().unwrap();
    buffer.extend_from_slice(&[9, 9]);
    assert_eq!(pool.reclaim(buffer), None);
    assert!(pool.is_available());
    assert_eq!(pool.take(), Some(vec![9u8, 9]));
}

#[test]
fn a_full_pool_refuses_a_second_buffer() {
    let mut pool = BufferPool::new(vec![1u8]);
    assert_eq!(pool.reclaim(vec![2u8]), Some(vec![2u8]));
    assert_eq!(pool.take(), Some(vec![1u8]));
}
