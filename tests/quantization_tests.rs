use crossgpu::quantization::{dequantize_codes, quantize_codes, sign_extend_nibble, QuantScheme};
use crossgpu::tensor::{DType, Tensor};
use crossgpu::CoreError;

fn f32_tensor(shape: Vec<usize>, values: &[f32]) -> Tensor {
    let bytes: Vec<u8> = values.iter().flat_map(|v| v.to_ne_bytes()).collect();
    Tensor::from_data(shape, DType::F32, bytes).unwrap()
}

fn codes_of(values: &[f32], scale: f32) -> Vec<i32> {
    values.iter().map(|&x| (x / scale).round() as i32).collect()
}

fn close(a: f32, b: f32, eps: f32) -> bool {
    (a - b).abs() <= eps
}

#[test]
fn test_int8_quantization() {
    let data = vec![1.0f32, 2.0, 3.0, 4.0];
    let tensor = f32_tensor(vec![2, 2], &data);
    let scale = 0.1f32;

    let quantized = quantize_codes(&tensor, &codes_of(&data, scale), 0, QuantScheme::Int8Symmetric).unwrap();
    assert_eq!(quantized.dtype, DType::I8);

    let deq: Vec<f32> = dequantize_codes(&quantized, 0).unwrap().iter().map(|&q| q as f32 * scale).collect();
    for (i, &expected) in data.iter().enumerate() {
        assert!(close(deq[i], expected, 0.15));
    }
}

#[test]
fn test_quantization_roundtrip() {
    let data = vec![1.0f32, 2.0, 3.0, 4.0, -1.0, -2.0];
    let tensor = f32_tensor(vec![2, 3], &data);
    let scale = 0.05f32;
    let quantized = quantize_codes(&tensor, &codes_of(&data, scale), 0, QuantScheme::Int8Symmetric).unwrap();
    let deq: Vec<f32> = dequantize_codes(&quantized, 0).unwrap().iter().map(|&q| q as f32 * scale).collect();
    for (i, &expected) in data.iter().enumerate() {
        assert!(close(deq[i], expected, 0.1));
    }
}

#[test]
fn int8_example_within_scale() {
    let data = [1.0f32, 2.0, 3.0, 4.0];
    let tensor = f32_tensor(vec![2, 2], &data);
    assert_eq!(Tensor::new(vec![2, 2], DType::F32).data.len(), 16);
    let q = quantize_codes(&tensor, &codes_of(&data, 0.1), 0, QuantScheme::Int8Symmetric).unwrap();
    assert_eq!(q.data, vec![10, 20, 30, 40]);
    let deq = dequantize_codes(&q, 0).unwrap();
    assert_eq!(deq, vec![10, 20, 30, 40]);
    for (i, &x) in data.iter().enumerate() {
        assert!(close(deq[i] as f32 * 0.1, x, 0.1));
    }
}

#[test]
fn int8_saturates_and_uses_twos_complement() {
    let tensor = Tensor::new(vec![5], DType::F32);
    let q = quantize_codes(&tensor, &vec![-1, 127, 128, -300, i32::MAX], 0, QuantScheme::Int8Symmetric).unwrap();
    assert_eq!(q.data, vec![0xFF, 127, 127, 0x80, 127]);
    assert_eq!(dequantize_codes(&q, 0).unwrap(), vec![-1, 127, 127, -128, 127]);
}

#[test]
fn int8_zero_point_shifts_and_cancels() {
    let tensor = Tensor::new(vec![3], DType::F32);
    let q = quantize_codes(&tensor, &vec![0, 5, -10], 10, QuantScheme::Int8Asymmetric).unwrap();
    assert_eq!(q.data, vec![10, 15, 0]);
    assert_eq!(dequantize_codes(&q, 10).unwrap(), vec![0, 5, -10]);
    let big = quantize_codes(&tensor, &vec![i32::MAX, 0, 0], i32::MAX, QuantScheme::Int8Asymmetric).unwrap();
    assert_eq!(big.data[0], 127);
    assert_eq!(dequantize_codes(&big, i32::MIN).unwrap()[0], 127 - i32::MIN as i64);
}

#[test]
fn int4_packs_high_nibble_first() {
    let tensor = Tensor::new(vec![3], DType::F32);
    let q = quantize_codes(&tensor, &vec![1, -1, 7], 0, QuantScheme::Int4).unwrap();
    assert_eq!(q.dtype, DType::I4);
    assert_eq!(q.data, vec![0x1F, 0x70]);
    assert_eq!(dequantize_codes(&q, 0).unwrap(), vec![1, -1, 7]);
}

#[test]
fn int4_odd_count_round_trip() {
    let data = [0.5f32, -0.75, 1.0, -1.0, 0.25];
    let scale = 0.25f32;
    let tensor = f32_tensor(vec![5], &data);
    let q = quantize_codes(&tensor, &codes_of(&data, scale), 0, QuantScheme::Int4).unwrap();
    assert_eq!(q.data.len(), 3);
    let deq = dequantize_codes(&q, 0).unwrap();
    assert_eq!(deq.len(), 5);
    for (i, &x) in data.iter().enumerate() {
        assert!(close(deq[i] as f32 * scale, x, scale));
    }
}

#[test]
fn int4_saturates() {
    let tensor = Tensor::new(vec![2], DType::F32);
    let q = quantize_codes(&tensor, &vec![100, -100], 0, QuantScheme::Int4).unwrap();
    assert_eq!(q.data, vec![0x78]);
    assert_eq!(dequantize_codes(&q, 0).unwrap(), vec![7, -8]);
}

#[test]
fn sign_extension_boundaries() {
    assert_eq!(sign_extend_nibble(0x8), -8);
    assert_eq!(sign_extend_nibble(0x7), 7);
    assert_eq!(sign_extend_nibble(0xF), -1);
    assert_eq!(sign_extend_nibble(0x0), 0);
    let t = Tensor::from_data(vec![2], DType::I4, vec![0x87]).unwrap();
    let deq: Vec<f32> = dequantize_codes(&t, 0).unwrap().iter().map(|&q| q as f32 * 1.0).collect();
    assert_eq!(deq, vec![-8.0, 7.0]);
}

#[test]
fn quantize_refuses_non_f32() {
    let t = Tensor::new(vec![2], DType::I8);
    assert!(matches!(
        quantize_codes(&t, &vec![0, 0], 0, QuantScheme::Int8Symmetric),
        Err(CoreError::QuantizationError(_))
    ));
}

#[test]
fn dequantize_refuses_float_types() {
    let t = Tensor::new(vec![2], DType::F16);
    assert!(matches!(dequantize_codes(&t, 0), Err(CoreError::QuantizationError(_))));
    let f = Tensor::new(vec![2], DType::F32);
    assert!(matches!(dequantize_codes(&f, 0), Err(CoreError::QuantizationError(_))));
}

#[test]
fn malformed_buffers_give_invalid_dimension() {
    let t = Tensor::new(vec![3], DType::F32);
    assert!(matches!(
        quantize_codes(&t, &vec![1, 2], 0, QuantScheme::Int8Symmetric),
        Err(CoreError::InvalidDimension(_))
    ));
    let four = Tensor::new(vec![4], DType::F32);
    assert!(matches!(
        quantize_codes(&four, &vec![1, 2, 3], 0, QuantScheme::Int4),
        Err(CoreError::InvalidDimension(_))
    ));
    let short = Tensor { shape: vec![5], dtype: DType::I4, data: vec![0x11, 0x22] };
    assert!(matches!(dequantize_codes(&short, 0), Err(CoreError::InvalidDimension(_))));
    let long = Tensor { shape: vec![2], dtype: DType::I8, data: vec![1, 2, 3] };
    assert!(matches!(dequantize_codes(&long, 0), Err(CoreError::InvalidDimension(_))));
}
