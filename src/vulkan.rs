//! The Vulkan device (Linux).

use vstd::prelude::*;
use crate::error::CoreError;
use crate::gpu::{
    DeviceBuffer, GpuDevice, GpuTensor, Kernel, Platform, download_host_copy, host_download,
};
use crate::tensor::Tensor;

verus! {

/// The Vulkan device.
pub struct VulkanDevice {
    name: String,
    available: bool,
}

impl VulkanDevice {
    /// The Vulkan device, which exists on Linux only; elsewhere a
    /// device error.
    pub fn new(platform: Platform) -> (r: Result<Self, CoreError>)
        ensures
            platform == Platform::Linux <==> r is Ok,
            r matches Ok(d) ==> d.name() == "Vulkan"@ && d.available(),
            r matches Err(e) ==> e is GpuError,
    {
        if platform == Platform::Linux {
            Ok(VulkanDevice { name: String::from_str("Vulkan"), available: true })
        } else {
            Err(
                CoreError::GpuError(
                    String::from_str("Vulkan backend not available on this platform"),
                ),
            )
        }
    }
}

impl VulkanDevice {
    /// A Vulkan device that exists but cannot be used, named
    /// `Vulkan (unavailable)`.
    pub fn unavailable() -> (r: Self)
        ensures
            r.name() == "Vulkan (unavailable)"@,
            !r.available(),
    {
        VulkanDevice { name: String::from_str("Vulkan (unavailable)"), available: false }
    }

    /// The Vulkan device where `platform` has one, and otherwise an
    /// unavailable one.
    pub fn or_unavailable(platform: Platform) -> (r: Self)
        ensures
            platform == Platform::Linux ==> r.name() == "Vulkan"@ && r.available(),
            platform != Platform::Linux ==> r.name() == "Vulkan (unavailable)"@ && !r.available(),
    {
        match Self::new(platform) {
            Ok(device) => device,
            Err(_) => Self::unavailable(),
        }
    }
}

impl GpuDevice for VulkanDevice {
    closed spec fn name(&self) -> Seq<char> {
        self.name@
    }

    closed spec fn available(&self) -> bool {
        self.available
    }

    fn upload_tensor(&self, tensor: &Tensor) -> (r: Result<GpuTensor, CoreError>)
        ensures
            r matches Ok(g) && g.shape@ == tensor.shape@ && g.handle.mirrors(
                &DeviceBuffer::Host(*tensor),
            ),
    {
        Ok(GpuTensor { shape: tensor.shape.clone(), handle: DeviceBuffer::Host(tensor.clone()) })
    }

    fn run_kernel(&self, kernel: Kernel, inputs: &[GpuTensor]) -> (r: Result<GpuTensor, CoreError>)
        ensures
            inputs@.len() > 0 ==> (r matches Ok(g) && g.mirrors(&inputs@[0])),
    {
        if inputs.len() == 0 {
            return Err(CoreError::GpuError(String::from_str("No input tensors")));
        }
        Ok(inputs[0].clone())
    }

    fn download_tensor(&self, gpu_tensor: &GpuTensor) -> (r: Result<Tensor, CoreError>)
        ensures
            host_download(gpu_tensor, r),
    {
        download_host_copy(gpu_tensor)
    }

    fn synchronize(&self) -> (r: Result<(), CoreError>)
        ensures
            r is Ok,
    {
        Ok(())
    }

    fn device_name(&self) -> (r: &str) {
        self.name.as_str()
    }

    fn is_available(&self) -> (r: bool) {
        self.available
    }
}

} // verus!
