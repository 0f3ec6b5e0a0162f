use crossgpu::tensor::{checked_numel, DType, Tensor};
use crossgpu::CoreError;

#[test]
fn test_tensor_creation() {
    let tensor = Tensor::new(vec![2, 3], DType::F32);
    assert_eq!(tensor.shape, vec![2, 3]);
    assert_eq!(tensor.numel(), 6);
    assert_eq!(tensor.ndim(), 2);
}

#[test]
fn test_tensor_reshape() {
    let tensor = Tensor::new(vec![2, 3], DType::F32);
    let reshaped = tensor.reshape(vec![3, 2]).unwrap();
    assert_eq!(reshaped.shape, vec![3, 2]);
    assert_eq!(reshaped.numel(), 6);
}

#[test]
fn test_tensor_operations() {
    let tensor = Tensor::new(vec![2, 3, 4], DType::F32);
    assert_eq!(tensor.numel(), 24);
    assert_eq!(tensor.ndim(), 3);

    let reshaped = tensor.reshape(vec![4, 6]).unwrap();
    assert_eq!(reshaped.shape, vec![4, 6]);
}

#[test]
fn new_sizes_follow_byte_width() {
    assert_eq!(Tensor::new(vec![2, 2], DType::F32).data.len(), 16);
    assert_eq!(Tensor::new(vec![3, 5], DType::F16).data.len(), 30);
    assert_eq!(Tensor::new(vec![7], DType::I8).data.len(), 7);
    assert_eq!(Tensor::new(vec![7], DType::I4).data.len(), 4);
    assert_eq!(Tensor::new(vec![2, 4], DType::I4).data.len(), 4);
    assert_eq!(Tensor::new(vec![], DType::F32).data.len(), 4);
    assert_eq!(Tensor::new(vec![3, 0], DType::F32).data.len(), 0);
    assert!(Tensor::new(vec![2, 2], DType::F32).data.iter().all(|&b| b == 0));
}

#[test]
fn size_bytes_per_type() {
    assert_eq!(DType::F32.size_bytes(), 4);
    assert_eq!(DType::F16.size_bytes(), 2);
    assert_eq!(DType::I8.size_bytes(), 1);
    assert_eq!(DType::I4.size_bytes(), 1);
}

#[test]
fn from_data_checks_length() {
    let t = Tensor::from_data(vec![2, 2], DType::I8, vec![1, 2, 3, 4]).unwrap();
    assert_eq!(t.data, vec![1, 2, 3, 4]);
    assert_eq!(t.dtype, DType::I8);
    assert!(matches!(
        Tensor::from_data(vec![2, 2], DType::F32, vec![0; 15]),
        Err(CoreError::InvalidDimension(_))
    ));
    assert!(Tensor::from_data(vec![3], DType::I4, vec![0; 2]).is_ok());
    assert!(matches!(
        Tensor::from_data(vec![3], DType::I4, vec![0; 3]),
        Err(CoreError::InvalidDimension(_))
    ));
    assert!(matches!(
        Tensor::from_data(vec![usize::MAX, 2], DType::I8, vec![]),
        Err(CoreError::InvalidDimension(_))
    ));
}

#[test]
fn reshape_mismatch_reports_counts() {
    let t = Tensor::new(vec![2, 3], DType::I8);
    match t.reshape(vec![4, 2]) {
        Err(CoreError::ShapeMismatch { expected, actual }) => {
            assert_eq!(expected, vec![6]);
            assert_eq!(actual, vec![8]);
        }
        other => panic!("unexpected {:?}", other),
    }
    match t.reshape(vec![usize::MAX, 3]) {
        Err(CoreError::ShapeMismatch { expected, actual }) => {
            assert_eq!(expected, vec![6]);
            assert_eq!(actual, vec![usize::MAX]);
        }
        other => panic!("unexpected {:?}", other),
    }
}

#[test]
fn reshape_keeps_type_and_bytes() {
    let t = Tensor::from_data(vec![4], DType::I8, vec![9, 8, 7, 6]).unwrap();
    let r = t.reshape(vec![2, 1, 2]).unwrap();
    assert_eq!(r.dtype, DType::I8);
    assert_eq!(r.data, vec![9, 8, 7, 6]);
    assert_eq!(r.numel(), t.numel());
}

#[test]
fn element_count_with_zero_and_overflow() {
    assert_eq!(checked_numel(&vec![usize::MAX, usize::MAX, 0]), Some(0));
    assert_eq!(checked_numel(&vec![usize::MAX, 2]), None);
    assert_eq!(checked_numel(&vec![]), Some(1));
    assert_eq!(checked_numel(&vec![3, 4, 5]), Some(60));
}

#[test]
fn f32_bytes_only_for_f32() {
    let t = Tensor::new(vec![2], DType::F32);
    assert_eq!(t.as_f32_bytes().unwrap().len(), 8);
    let q = Tensor::new(vec![2], DType::I8);
    assert!(matches!(q.as_f32_bytes(), Err(CoreError::Other(_))));
}
