//! Device selection: one value for any backend, and the one-shot fallback
//! from the platform's preferred device to the CPU.

use vstd::prelude::*;
use crate::cpu::CpuDevice;
use crate::dx12::Dx12Device;
use crate::error::CoreError;
use crate::gpu::{DeviceBuffer, GpuDevice, GpuTensor, Kernel, host_download};
use crate::metal::MetalDevice;
use crate::tensor::Tensor;
use crate::vulkan::VulkanDevice;
use crate::webgpu::{WebGpuDevice, webgpu_download};

verus! {

/// A device of any backend.
pub enum AnyDevice {
    /// The CPU device.
    Cpu(CpuDevice),
    /// A WebGPU device.
    WebGpu(WebGpuDevice),
    /// A Vulkan device.
    Vulkan(VulkanDevice),
    /// A Metal device.
    Metal(MetalDevice),
    /// A DirectX 12 device.
    Dx12(Dx12Device),
}

impl GpuDevice for AnyDevice {
    open spec fn name(&self) -> Seq<char> {
        match self {
            AnyDevice::Cpu(d) => d.name(),
            AnyDevice::WebGpu(d) => d.name(),
            AnyDevice::Vulkan(d) => d.name(),
            AnyDevice::Metal(d) => d.name(),
            AnyDevice::Dx12(d) => d.name(),
        }
    }

    open spec fn available(&self) -> bool {
        match self {
            AnyDevice::Cpu(d) => d.available(),
            AnyDevice::WebGpu(d) => d.available(),
            AnyDevice::Vulkan(d) => d.available(),
            AnyDevice::Metal(d) => d.available(),
            AnyDevice::Dx12(d) => d.available(),
        }
    }

    fn upload_tensor(&self, tensor: &Tensor) -> (r: Result<GpuTensor, CoreError>)
        ensures
            !(self is WebGpu) ==> (r matches Ok(g) && g.shape@ == tensor.shape@ && g.handle.mirrors(
                &DeviceBuffer::Host(*tensor),
            )),
            self matches AnyDevice::WebGpu(d) ==> (r is Ok <==> tensor.data@.len()
                <= d.buffer_limit() / 4 * 4),
            self is WebGpu ==> (r matches Ok(g) ==> g.handle is WebGpu),
    {
        match self {
            AnyDevice::Cpu(d) => d.upload_tensor(tensor),
            AnyDevice::WebGpu(d) => d.upload_tensor(tensor),
            AnyDevice::Vulkan(d) => d.upload_tensor(tensor),
            AnyDevice::Metal(d) => d.upload_tensor(tensor),
            AnyDevice::Dx12(d) => d.upload_tensor(tensor),
        }
    }

    fn run_kernel(&self, kernel: Kernel, inputs: &[GpuTensor]) -> (r: Result<GpuTensor, CoreError>)
        ensures
            inputs@.len() > 0 ==> (r matches Ok(g) && g.mirrors(&inputs@[0])),
    {
        match self {
            AnyDevice::Cpu(d) => d.run_kernel(kernel, inputs),
            AnyDevice::WebGpu(d) => d.run_kernel(kernel, inputs),
            AnyDevice::Vulkan(d) => d.run_kernel(kernel, inputs),
            AnyDevice::Metal(d) => d.run_kernel(kernel, inputs),
            AnyDevice::Dx12(d) => d.run_kernel(kernel, inputs),
        }
    }

    fn download_tensor(&self, gpu_tensor: &GpuTensor) -> (r: Result<Tensor, CoreError>)
        ensures
            !(self is WebGpu) ==> host_download(gpu_tensor, r),
            self is WebGpu ==> webgpu_download(gpu_tensor, r),
    {
        match self {
            AnyDevice::Cpu(d) => d.download_tensor(gpu_tensor),
            AnyDevice::WebGpu(d) => d.download_tensor(gpu_tensor),
            AnyDevice::Vulkan(d) => d.download_tensor(gpu_tensor),
            AnyDevice::Metal(d) => d.download_tensor(gpu_tensor),
            AnyDevice::Dx12(d) => d.download_tensor(gpu_tensor),
        }
    }

    fn synchronize(&self) -> (r: Result<(), CoreError>)
        ensures
            r is Ok,
    {
        match self {
            AnyDevice::Cpu(d) => d.synchronize(),
            AnyDevice::WebGpu(d) => d.synchronize(),
            AnyDevice::Vulkan(d) => d.synchronize(),
            AnyDevice::Metal(d) => d.synchronize(),
            AnyDevice::Dx12(d) => d.synchronize(),
        }
    }

    fn device_name(&self) -> (r: &str) {
        match self {
            AnyDevice::Cpu(d) => d.device_name(),
            AnyDevice::WebGpu(d) => d.device_name(),
            AnyDevice::Vulkan(d) => d.device_name(),
            AnyDevice::Metal(d) => d.device_name(),
            AnyDevice::Dx12(d) => d.device_name(),
        }
    }

    fn is_available(&self) -> (r: bool) {
        match self {
            AnyDevice::Cpu(d) => d.is_available(),
            AnyDevice::WebGpu(d) => d.is_available(),
            AnyDevice::Vulkan(d) => d.is_available(),
            AnyDevice::Metal(d) => d.is_available(),
            AnyDevice::Dx12(d) => d.is_available(),
        }
    }
}

/// The device to use, given the outcome of building the platform's
/// preferred one: that device where it was built and reports itself usable,
/// and otherwise a new CPU device. Nothing else is tried in between.
pub fn select_device(preferred: Result<AnyDevice, CoreError>) -> (r: AnyDevice)
    ensures
        r.available(),
        match preferred {
            Ok(d) => if d.available() {
                r == d
            } else {
                r is Cpu && r.name() == "CPU"@
            },
            Err(_) => r is Cpu && r.name() == "CPU"@,
        },
{
    match preferred {
        Ok(device) => {
            if device.is_available() {
                return device;
            }
        },
        Err(_) => {},
    }
    AnyDevice::Cpu(CpuDevice::new())
}

} // verus!
