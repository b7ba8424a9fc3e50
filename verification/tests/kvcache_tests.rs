use llama_engine::kvcache::KVCache;
use llama_engine::EngineError;

#[test]
fn cursor_counts_appends() {
    let mut c = KVCache::<u32>::new(1, 3, 2, 0).unwrap();
    assert_eq!(c.cursor(), 0);
    c.append(0, &vec![1, 2], &vec![9, 8]).unwrap();
    assert_eq!(c.cursor(), 1);
    c.append(0, &vec![3, 4], &vec![7, 6]).unwrap();
    assert_eq!(c.cursor(), 2);
}

#[test]
fn append_beyond_max_overflows() {
    let mut c = KVCache::<u32>::new(1, 2, 1, 0).unwrap();
    c.append(0, &vec![1], &vec![1]).unwrap();
    c.append(0, &vec![2], &vec![2]).unwrap();
    let r = c.append(0, &vec![3], &vec![3]);
    assert!(matches!(r, Err(EngineError::ContextOverflowError)));
    // the failed call left the cache unchanged
    assert_eq!(c.cursor(), 2);
    let (kw, _) = c.window(0).unwrap();
    assert_eq!(kw, vec![1, 2]);
}

#[test]
fn append_rejects_bad_rows() {
    let mut c = KVCache::<u32>::new(2, 4, 2, 0).unwrap();
    assert!(matches!(
        c.append(2, &vec![1, 2], &vec![1, 2]),
        Err(EngineError::ShapeError)
    ));
    assert!(matches!(
        c.append(0, &vec![1], &vec![1, 2]),
        Err(EngineError::ShapeError)
    ));
}

#[test]
fn window_returns_valid_prefix() {
    let mut c = KVCache::<u32>::new(2, 3, 2, 0).unwrap();
    c.write_position(0, &vec![1, 2], &vec![5, 6]).unwrap();
    c.write_position(1, &vec![11, 12], &vec![15, 16]).unwrap();
    c.advance().unwrap();
    let (k0, v0) = c.window(0).unwrap();
    assert_eq!(k0, vec![1, 2]);
    assert_eq!(v0, vec![5, 6]);
    let (k1, v1) = c.window(1).unwrap();
    assert_eq!(k1, vec![11, 12]);
    assert_eq!(v1, vec![15, 16]);
    assert!(matches!(c.window(2), Err(EngineError::ShapeError)));
}

#[test]
fn reset_starts_fresh_conversation() {
    let mut c = KVCache::<u32>::new(1, 2, 1, 0).unwrap();
    c.append(0, &vec![1], &vec![1]).unwrap();
    c.reset();
    assert_eq!(c.cursor(), 0);
    let (kw, vw) = c.window(0).unwrap();
    assert!(kw.is_empty());
    assert!(vw.is_empty());
}

#[test]
fn new_rejects_zero_width() {
    assert!(matches!(
        KVCache::<u32>::new(1, 2, 0, 0),
        Err(EngineError::ShapeError)
    ));
}

#[test]
fn second_turn_extends_first() {
    // one cache shared by two turns: the second turn's rows land after the
    // first turn's rows, which stay readable
    let mut c = KVCache::<u32>::new(1, 4, 1, 0).unwrap();
    c.append(0, &vec![10], &vec![20]).unwrap();
    let first_cursor = c.cursor();
    c.append(0, &vec![11], &vec![21]).unwrap();
    c.append(0, &vec![12], &vec![22]).unwrap();
    assert!(c.cursor() > first_cursor);
    let (kw, vw) = c.window(0).unwrap();
    assert_eq!(kw, vec![10, 11, 12]);
    assert_eq!(vw, vec![20, 21, 22]);
}

#[test]
fn new_rejects_oversized_storage() {
    let r = KVCache::<u32>::new(usize::MAX, 2, 2, 0);
    assert!(matches!(r, Err(EngineError::ShapeError)));
}
