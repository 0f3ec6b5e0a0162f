use crossgpu::cpu::CpuDevice;
use crossgpu::device::{select_device, AnyDevice};
use crossgpu::dx12::Dx12Device;
use crossgpu::gpu::{DeviceBuffer, DeviceType, GpuDevice, GpuTensor, Kernel, KernelType, Platform};
use crossgpu::metal::MetalDevice;
use crossgpu::tensor::{DType, Tensor};
use crossgpu::vulkan::VulkanDevice;
use crossgpu::CoreError;

#[test]
fn test_cpu_device_creation() {
    let device = CpuDevice::new();
    assert_eq!(device.device_name(), "CPU");
    assert!(device.is_available());
}

#[test]
fn test_tensor_upload_download() {
    let device = CpuDevice::new();
    let tensor = Tensor::new(vec![2, 3], DType::F32);

    let gpu_tensor = device.upload_tensor(&tensor).unwrap();
    assert_eq!(gpu_tensor.shape, vec![2, 3]);

    let downloaded = device.download_tensor(&gpu_tensor).unwrap();
    assert_eq!(downloaded.shape, tensor.shape);
}

#[test]
fn test_dx12_device_creation() {
    let result = Dx12Device::new(Platform::Windows);
    if let Ok(device) = result {
        assert!(device.device_name().contains("DirectX 12"));
    }
}

#[test]
fn test_metal_device_creation() {
    let result = MetalDevice::new(Platform::MacOs);
    if let Ok(device) = result {
        assert!(device.device_name().contains("Metal"));
    }
}

#[test]
fn test_vulkan_device_creation() {
    let result = VulkanDevice::new(Platform::Linux);
    if let Ok(device) = result {
        assert!(device.device_name().contains("Vulkan"));
    }
}

#[test]
fn native_devices_only_on_their_platform() {
    assert!(VulkanDevice::new(Platform::Linux).unwrap().is_available());
    assert!(matches!(VulkanDevice::new(Platform::Windows), Err(CoreError::GpuError(_))));
    assert!(matches!(MetalDevice::new(Platform::Linux), Err(CoreError::GpuError(_))));
    assert!(matches!(Dx12Device::new(Platform::MacOs), Err(CoreError::GpuError(_))));
    assert_eq!(Dx12Device::new(Platform::Windows).unwrap().device_name(), "DirectX 12");
}

#[test]
fn platform_defaults() {
    assert_eq!(DeviceType::default_for_platform(Platform::Wasm), DeviceType::WebGpu);
    assert_eq!(DeviceType::default_for_platform(Platform::MacOs), DeviceType::Metal);
    assert_eq!(DeviceType::default_for_platform(Platform::Windows), DeviceType::Dx12);
    assert_eq!(DeviceType::default_for_platform(Platform::Linux), DeviceType::Vulkan);
    assert_eq!(DeviceType::default_for_platform(Platform::Other), DeviceType::Cpu);
}

#[test]
fn empty_inputs_fail_on_every_device() {
    let devices = vec![
        AnyDevice::Cpu(CpuDevice::new()),
        AnyDevice::Vulkan(VulkanDevice::new(Platform::Linux).unwrap()),
        AnyDevice::Metal(MetalDevice::new(Platform::MacOs).unwrap()),
        AnyDevice::Dx12(Dx12Device::new(Platform::Windows).unwrap()),
    ];
    for device in &devices {
        for kind in [KernelType::MatMul, KernelType::LayerNorm, KernelType::Attention] {
            let r = device.run_kernel(Kernel::new(kind), &[]);
            assert!(matches!(r, Err(CoreError::GpuError(_))));
        }
    }
}

#[test]
fn kernels_return_first_input_on_cpu() {
    let device = CpuDevice::new();
    let a = device.upload_tensor(&Tensor::from_data(vec![2], DType::I8, vec![5, 6]).unwrap()).unwrap();
    let b = device.upload_tensor(&Tensor::new(vec![3], DType::F32)).unwrap();
    let kernel = Kernel::with_params(KernelType::LayerNorm, vec![1e-5f32.to_bits()]);
    let out = device.run_kernel(kernel, &[a, b]).unwrap();
    assert_eq!(out.shape, vec![2]);
    assert_eq!(device.download_tensor(&out).unwrap().data, vec![5, 6]);
    assert!(device.synchronize().is_ok());
}

#[test]
fn native_download_returns_uploaded_tensor() {
    for device in [
        AnyDevice::Vulkan(VulkanDevice::new(Platform::Linux).unwrap()),
        AnyDevice::Metal(MetalDevice::new(Platform::MacOs).unwrap()),
        AnyDevice::Dx12(Dx12Device::new(Platform::Windows).unwrap()),
        AnyDevice::Cpu(CpuDevice::new()),
    ] {
        let t = Tensor::from_data(vec![3], DType::I8, vec![1, 0xFF, 7]).unwrap();
        let g = device.upload_tensor(&t).unwrap();
        let u = device.download_tensor(&g).unwrap();
        assert_eq!(u.shape, vec![3]);
        assert_eq!(u.dtype, DType::I8);
        assert_eq!(u.data, vec![1, 0xFF, 7]);
    }
}

#[test]
fn download_refuses_handle_with_other_shape() {
    let device = VulkanDevice::new(Platform::Linux).unwrap();
    let g = GpuTensor { shape: vec![2, 2], handle: DeviceBuffer::Host(Tensor::new(vec![1], DType::I8)) };
    assert!(matches!(device.download_tensor(&g), Err(CoreError::GpuError(_))));
    assert!(matches!(CpuDevice::new().download_tensor(&g), Err(CoreError::GpuError(_))));
}

#[test]
fn unavailable_native_devices() {
    let v = VulkanDevice::unavailable();
    assert_eq!(v.device_name(), "Vulkan (unavailable)");
    assert!(!v.is_available());
    let m = MetalDevice::or_unavailable(Platform::Linux);
    assert_eq!(m.device_name(), "Metal (unavailable)");
    assert!(!m.is_available());
    let d = Dx12Device::or_unavailable(Platform::Windows);
    assert_eq!(d.device_name(), "DirectX 12");
    assert!(d.is_available());
}

#[test]
fn fallback_to_cpu_when_preferred_unavailable() {
    let chosen = select_device(Ok(AnyDevice::Vulkan(VulkanDevice::unavailable())));
    assert!(matches!(chosen, AnyDevice::Cpu(_)));
    assert!(chosen.is_available());
    assert_eq!(chosen.device_name(), "CPU");
}

#[test]
fn fallback_to_cpu_when_construction_fails() {
    let preferred = VulkanDevice::new(Platform::Windows).map(AnyDevice::Vulkan);
    let chosen = select_device(preferred);
    assert!(matches!(chosen, AnyDevice::Cpu(_)));
    assert!(chosen.is_available());
    assert_eq!(chosen.device_name(), "CPU");
}

#[test]
fn preferred_device_kept_when_available() {
    let preferred = MetalDevice::new(Platform::MacOs).map(AnyDevice::Metal);
    let chosen = select_device(preferred);
    assert_eq!(chosen.device_name(), "Metal");
    let failed = select_device(Err(CoreError::GpuError("no adapter".to_string())));
    assert_eq!(failed.device_name(), "CPU");
}

#[test]
fn default_cpu_device() {
    let d = CpuDevice::default();
    assert_eq!(d.device_name(), "CPU");
}
