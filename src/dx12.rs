//! The DirectX 12 device (Windows).

use vstd::prelude::*;
use crate::error::CoreError;
use crate::gpu::{
    DeviceBuffer, GpuDevice, GpuTensor, Kernel, Platform, download_host_copy, host_download,
};
use crate::tensor::Tensor;

verus! {

/// The DirectX 12 device.
pub struct Dx12Device {
    name: String,
    available: bool,
}

impl Dx12Device {
    /// The DirectX 12 device, which exists on Windows only; elsewhere a
    /// device error.
    pub fn new(platform: Platform) -> (r: Result<Self, CoreError>)
        ensures
            platform == Platform::Windows <==> r is Ok,
            r matches Ok(d) ==> d.name() == "DirectX 12"@ && d.available(),
            r matches Err(e) ==> e is GpuError,
    {
        if platform == Platform::Windows {
            Ok(Dx12Device { name: String::from_str("DirectX 12"), available: true })
        } else {
            Err(
                CoreError::GpuError(
                    String::from_str("DirectX 12 backend not available on this platform"),
                ),
            )
        }
    }
}

impl Dx12Device {
    /// A DirectX 12 device that exists but cannot be used, named
    /// `DirectX 12 (unavailable)`.
    pub fn unavailable() -> (r: Self)
        ensures
            r.name() == "DirectX 12 (unavailable)"@,
            !r.available(),
    {
        Dx12Device { name: String::from_str("DirectX 12 (unavailable)"), available: false }
    }

    /// The DirectX 12 device where `platform` has one, and otherwise an
    /// unavailable one.
    pub fn or_unavailable(platform: Platform) -> (r: Self)
        ensures
            platform == Platform::Windows ==> r.name() == "DirectX 12"@ && r.available(),
            platform != Platform::Windows ==> r.name() == "DirectX 12 (unavailable)"@ && !r.available(),
    {
        match Self::new(platform) {
            Ok(device) => device,
            Err(_) => Self::unavailable(),
        }
    }
}

impl GpuDevice for Dx12Device {
    closed spec fn name(&self) -> Seq<char> {
        self.name@
    }

    closed spec fn available(&self) -> bool {
        self.available
    }

    fn upload_tensor(&self, tensor: &Tensor) -> (r: Result<GpuTensor, CoreError>)
        ensures
            r matches Ok(g) && g.shape@ == tensor.shape@ && g.handle.mirrors(
                &DeviceBuffer::Host(*tensor),
            ),
    {
        Ok(GpuTensor { shape: tensor.shape.clone(), handle: DeviceBuffer::Host(tensor.clone()) })
    }

    fn run_kernel(&self, kernel: Kernel, inputs: &[GpuTensor]) -> (r: Result<GpuTensor, CoreError>)
        ensures
            inputs@.len() > 0 ==> (r matches Ok(g) && g.mirrors(&inputs@[0])),
    {
        if inputs.len() == 0 {
            return Err(CoreError::GpuError(String::from_str("No input tensors")));
        }
        Ok(inputs[0].clone())
    }

    fn download_tensor(&self, gpu_tensor: &GpuTensor) -> (r: Result<Tensor, CoreError>)
        ensures
            host_download(gpu_tensor, r),
    {
        download_host_copy(gpu_tensor)
    }

    fn synchronize(&self) -> (r: Result<(), CoreError>)
        ensures
            r is Ok,
    {
        Ok(())
    }

    fn device_name(&self) -> (r: &str) {
        self.name.as_str()
    }

    fn is_available(&self) -> (r: bool) {
        self.available
    }
}

} // verus!
