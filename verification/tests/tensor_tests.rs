use llama_engine::tensor::Tensor;
use llama_engine::EngineError;

#[test]
fn new_accepts_matching_buffer() {
    let t = Tensor::<u32>::new(vec![1, 2, 3, 4, 5, 6], vec![2, 3]).unwrap();
    assert_eq!(t.len(), 6);
    assert_eq!(t.shape().clone(), vec![2, 3]);
    assert_eq!(t.data().clone(), vec![1, 2, 3, 4, 5, 6]);
}

#[test]
fn new_rejects_wrong_length() {
    let r = Tensor::<u32>::new(vec![1, 2, 3, 4, 5], vec![2, 3]);
    assert!(matches!(r, Err(EngineError::ShapeError)));
}

#[test]
fn new_accepts_zero_dimension() {
    let t = Tensor::<u32>::new(vec![], vec![0, 7]).unwrap();
    assert_eq!(t.len(), 0);
}

#[test]
fn new_scalar_shape() {
    // an empty shape has element product one
    let t = Tensor::<u32>::new(vec![42], vec![]).unwrap();
    assert_eq!(t.len(), 1);
}

#[test]
fn reshape_preserves_elements() {
    let mut t = Tensor::<u32>::new(vec![1, 2, 3, 4, 5, 6], vec![2, 3]).unwrap();
    t.reshape(vec![3, 2]).unwrap();
    assert_eq!(t.shape().clone(), vec![3, 2]);
    assert_eq!(t.data().clone(), vec![1, 2, 3, 4, 5, 6]);
    t.reshape(vec![6]).unwrap();
    assert_eq!(t.shape().clone(), vec![6]);
}

#[test]
fn reshape_rejects_changed_count() {
    let mut t = Tensor::<u32>::new(vec![1, 2, 3, 4, 5, 6], vec![2, 3]).unwrap();
    let r = t.reshape(vec![4, 2]);
    assert!(matches!(r, Err(EngineError::ShapeError)));
    // the tensor is unchanged after the failure
    assert_eq!(t.shape().clone(), vec![2, 3]);
}

#[test]
fn get_reads_row_major() {
    let t = Tensor::<u32>::new(vec![10, 11, 12, 20, 21, 22], vec![2, 3]).unwrap();
    assert_eq!(t.get(&vec![0, 0]).unwrap(), 10);
    assert_eq!(t.get(&vec![0, 2]).unwrap(), 12);
    assert_eq!(t.get(&vec![1, 0]).unwrap(), 20);
    assert_eq!(t.get(&vec![1, 2]).unwrap(), 22);
}

#[test]
fn get_rejects_bad_index() {
    let t = Tensor::<u32>::new(vec![10, 11, 12, 20, 21, 22], vec![2, 3]).unwrap();
    assert!(matches!(t.get(&vec![2, 0]), Err(EngineError::ShapeError)));
    assert!(matches!(t.get(&vec![0]), Err(EngineError::ShapeError)));
    assert!(matches!(t.get(&vec![0, 3]), Err(EngineError::ShapeError)));
}

#[test]
fn set_writes_one_slot() {
    let mut t = Tensor::<u32>::new(vec![0, 0, 0, 0], vec![2, 2]).unwrap();
    t.set(&vec![1, 0], 9).unwrap();
    assert_eq!(t.data().clone(), vec![0, 0, 9, 0]);
    assert!(matches!(t.set(&vec![2, 0], 1), Err(EngineError::ShapeError)));
}

#[test]
fn slice_rows_copies_leading_rows() {
    let t = Tensor::<u32>::new(vec![1, 2, 3, 4, 5, 6, 7, 8], vec![4, 2]).unwrap();
    let s = t.slice_rows(1, 2).unwrap();
    assert_eq!(s.shape().clone(), vec![2, 2]);
    assert_eq!(s.data().clone(), vec![3, 4, 5, 6]);
    assert!(matches!(t.slice_rows(3, 2), Err(EngineError::ShapeError)));
}

#[test]
fn new_rejects_overflowing_shape_product() {
    let r = Tensor::<u32>::new(vec![], vec![usize::MAX, 2]);
    assert!(matches!(r, Err(EngineError::ShapeError)));
}
