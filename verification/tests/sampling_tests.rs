use llama_engine::sampling::{is_emitted, top_k_indices};
use llama_engine::EngineError;

#[test]
fn top_k_orders_by_key_desc() {
    let keys: Vec<u64> = vec![5, 9, 1, 7];
    let idx = top_k_indices(&keys, 3).unwrap();
    assert_eq!(idx, vec![1, 3, 0]);
}

#[test]
fn top_k_breaks_ties_by_lowest_index() {
    let keys: Vec<u64> = vec![4, 9, 9, 4];
    let idx = top_k_indices(&keys, 4).unwrap();
    assert_eq!(idx, vec![1, 2, 0, 3]);
}

#[test]
fn top_one_picks_highest_logit() {
    // with k = 1 the selection is deterministic: the highest key wins, and
    // among equal keys the lowest index wins
    let keys: Vec<u64> = vec![3, 8, 8, 2];
    let idx = top_k_indices(&keys, 1).unwrap();
    assert_eq!(idx, vec![1]);
}

#[test]
fn top_k_clamps_to_available() {
    let keys: Vec<u64> = vec![2, 1];
    let idx = top_k_indices(&keys, 10).unwrap();
    assert_eq!(idx, vec![0, 1]);
}

#[test]
fn top_k_rejects_degenerate_requests() {
    assert!(matches!(
        top_k_indices(&vec![], 3),
        Err(EngineError::SamplingError)
    ));
    assert!(matches!(
        top_k_indices(&vec![1, 2], 0),
        Err(EngineError::SamplingError)
    ));
}

#[test]
fn emitted_membership() {
    let emitted: Vec<u32> = vec![4, 7, 4];
    assert!(is_emitted(4, &emitted));
    assert!(is_emitted(7, &emitted));
    assert!(!is_emitted(5, &emitted));
    assert!(!is_emitted(5, &vec![]));
}
