//! The host CPU device: always present, keeps tensors on the host.

use vstd::prelude::*;
use crate::error::CoreError;
use crate::gpu::{
    DeviceBuffer, GpuDevice, GpuTensor, Kernel, KernelType, download_host_copy, host_download,
};
use crate::tensor::Tensor;

verus! {

/// The CPU device.
pub struct CpuDevice {
    name: String,
}

impl CpuDevice {
    /// The CPU device, named `CPU`.
    pub fn new() -> (r: Self)
        ensures
            r.name() == "CPU"@,
            r.available(),
    {
        CpuDevice { name: String::from_str("CPU") }
    }

    fn run_matmul(&self, inputs: &[GpuTensor]) -> (r: Result<GpuTensor, CoreError>)
        requires
            inputs@.len() > 0,
        ensures
            r matches Ok(g) && g.mirrors(&inputs@[0]),
    {
        Ok(inputs[0].clone())
    }

    fn run_layer_norm(&self, inputs: &[GpuTensor], _params: &Vec<u32>) -> (r: Result<
        GpuTensor,
        CoreError,
    >)
        requires
            inputs@.len() > 0,
        ensures
            r matches Ok(g) && g.mirrors(&inputs@[0]),
    {
        Ok(inputs[0].clone())
    }

    fn run_softmax(&self, inputs: &[GpuTensor]) -> (r: Result<GpuTensor, CoreError>)
        requires
            inputs@.len() > 0,
        ensures
            r matches Ok(g) && g.mirrors(&inputs@[0]),
    {
        Ok(inputs[0].clone())
    }

    fn run_gelu(&self, inputs: &[GpuTensor]) -> (r: Result<GpuTensor, CoreError>)
        requires
            inputs@.len() > 0,
        ensures
            r matches Ok(g) && g.mirrors(&inputs@[0]),
    {
        Ok(inputs[0].clone())
    }

    fn run_fused_gemm_gelu(&self, inputs: &[GpuTensor]) -> (r: Result<GpuTensor, CoreError>)
        requires
            inputs@.len() > 0,
        ensures
            r matches Ok(g) && g.mirrors(&inputs@[0]),
    {
        Ok(inputs[0].clone())
    }

    fn run_fused_gemm_layer_norm(&self, inputs: &[GpuTensor], _params: &Vec<u32>) -> (r: Result<
        GpuTensor,
        CoreError,
    >)
        requires
            inputs@.len() > 0,
        ensures
            r matches Ok(g) && g.mirrors(&inputs@[0]),
    {
        Ok(inputs[0].clone())
    }

    fn run_attention(&self, inputs: &[GpuTensor]) -> (r: Result<GpuTensor, CoreError>)
        requires
            inputs@.len() > 0,
        ensures
            r matches Ok(g) && g.mirrors(&inputs@[0]),
    {
        Ok(inputs[0].clone())
    }
}

impl Default for CpuDevice {
    fn default() -> (r: Self)
        ensures
            r.name() == "CPU"@,
            r.available(),
    {
        Self::new()
    }
}

impl GpuDevice for CpuDevice {
    closed spec fn name(&self) -> Seq<char> {
        self.name@
    }

    closed spec fn available(&self) -> bool {
        true
    }

    fn upload_tensor(&self, tensor: &Tensor) -> (r: Result<GpuTensor, CoreError>)
        ensures
            r matches Ok(g) && g.shape@ == tensor.shape@ && g.handle.mirrors(
                &DeviceBuffer::Host(*tensor),
            ),
    {
        Ok(GpuTensor { shape: tensor.shape.clone(), handle: DeviceBuffer::Host(tensor.clone()) })
    }

    fn run_kernel(&self, kernel: Kernel, inputs: &[GpuTensor]) -> (r: Result<GpuTensor, CoreError>)
        ensures
            inputs@.len() > 0 ==> (r matches Ok(g) && g.mirrors(&inputs@[0])),
    {
        if inputs.len() == 0 {
            return Err(CoreError::GpuError(String::from_str("No input tensors")));
        }
        match kernel.kernel_type {
            KernelType::MatMul => self.run_matmul(inputs),
            KernelType::LayerNorm => self.run_layer_norm(inputs, &kernel.params),
            KernelType::Softmax => self.run_softmax(inputs),
            KernelType::Gelu => self.run_gelu(inputs),
            KernelType::FusedGemmGelu => self.run_fused_gemm_gelu(inputs),
            KernelType::FusedGemmLayerNorm => self.run_fused_gemm_layer_norm(inputs, &kernel.params),
            KernelType::Attention => self.run_attention(inputs),
        }
    }

    fn download_tensor(&self, gpu_tensor: &GpuTensor) -> (r: Result<Tensor, CoreError>)
        ensures
            host_download(gpu_tensor, r),
    {
        download_host_copy(gpu_tensor)
    }

    fn synchronize(&self) -> (r: Result<(), CoreError>)
        ensures
            r is Ok,
    {
        Ok(())
    }

    fn device_name(&self) -> (r: &str) {
        self.name.as_str()
    }

    fn is_available(&self) -> (r: bool) {
        true
    }
}

} // verus!
