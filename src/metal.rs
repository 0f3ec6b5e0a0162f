//! The Metal device (Apple).

use vstd::prelude::*;
use crate::error::CoreError;
use crate::gpu::{
    DeviceBuffer, GpuDevice, GpuTensor, Kernel, Platform, download_host_copy, host_download,
};
use crate::tensor::Tensor;

verus! {

/// The Metal device.
pub struct MetalDevice {
    name: String,
    available: bool,
}

impl MetalDevice {
    /// The Metal device, which exists on Apple desktops only; elsewhere a
    /// device error.
    pub fn new(platform: Platform) -> (r: Result<Self, CoreError>)
        ensures
            platform == Platform::MacOs <==> r is Ok,
            r matches Ok(d) ==> d.name() == "Metal"@ && d.available(),
            r matches Err(e) ==> e is GpuError,
    {
        if platform == Platform::MacOs {
            Ok(MetalDevice { name: String::from_str("Metal"), available: true })
        } else {
            Err(
                CoreError::GpuError(
                    String::from_str("Metal backend not available on this platform"),
                ),
            )
        }
    }
}

impl MetalDevice {
    /// A Metal device that exists but cannot be used, named
    /// `Metal (unavailable)`.
    pub fn unavailable() -> (r: Self)
        ensures
            r.name() == "Metal (unavailable)"@,
            !r.available(),
    {
        MetalDevice { name: String::from_str("Metal (unavailable)"), available: false }
    }

    /// The Metal device where `platform` has one, and otherwise an
    /// unavailable one.
    pub fn or_unavailable(platform: Platform) -> (r: Self)
        ensures
            platform == Platform::MacOs ==> r.name() == "Metal"@ && r.available(),
            platform != Platform::MacOs ==> r.name() == "Metal (unavailable)"@ && !r.available(),
    {
        match Self::new(platform) {
            Ok(device) => device,
            Err(_) => Self::unavailable(),
        }
    }
}

impl GpuDevice for MetalDevice {
    closed spec fn name(&self) -> Seq<char> {
        self.name@
    }

    closed spec fn available(&self) -> bool {
        self.available
    }

    fn upload_tensor(&self, tensor: &Tensor) -> (r: Result<GpuTensor, CoreError>)
        ensures
            r matches Ok(g) && g.shape@ == tensor.shape@ && g.handle.mirrors(
                &DeviceBuffer::Host(*tensor),
            ),
    {
        Ok(GpuTensor { shape: tensor.shape.clone(), handle: DeviceBuffer::Host(tensor.clone()) })
    }

    fn run_kernel(&self, kernel: Kernel, inputs: &[GpuTensor]) -> (r: Result<GpuTensor, CoreError>)
        ensures
            inputs@.len() > 0 ==> (r matches Ok(g) && g.mirrors(&inputs@[0])),
    {
        if inputs.len() == 0 {
            return Err(CoreError::GpuError(String::from_str("No input tensors")));
        }
        Ok(inputs[0].clone())
    }

    fn download_tensor(&self, gpu_tensor: &GpuTensor) -> (r: Result<Tensor, CoreError>)
        ensures
            host_download(gpu_tensor, r),
    {
        download_host_copy(gpu_tensor)
    }

    fn synchronize(&self) -> (r: Result<(), CoreError>)
        ensures
            r is Ok,
    {
        Ok(())
    }

    fn device_name(&self) -> (r: &str) {
        self.name.as_str()
    }

    fn is_available(&self) -> (r: bool) {
        self.available
    }
}

} // verus!
