//! The WebGPU device, over the `wgpu` crate.
//!
//! Each buffer it fills keeps a host copy of its bytes. Its kernels do not
//! write device memory, so that copy is what a download hands back.

use std::sync::Arc;
use vstd::prelude::*;
use crate::error::CoreError;
use crate::gpu::{DeviceBuffer, GpuDevice, GpuTensor, Kernel};
use crate::tensor::{DType, Tensor, shape_product, storage_len};
use crate::wgpu_link::LimitedDevice;

verus! {

/// A WebGPU device and its queue.
pub struct WebGpuDevice {
    device: Arc<LimitedDevice>,
    queue: Arc<wgpu::Queue>,
    name: String,
}

/// A host tensor of `shape` and `dtype` over bytes read from a device; bytes
/// that do not fit the shape are a device error.
pub fn tensor_from_device_bytes(shape: &Vec<usize>, dtype: DType, bytes: Vec<u8>) -> (r: Result<
    Tensor,
    CoreError,
>)
    ensures
        r is Ok <==> shape_product(shape@) <= usize::MAX && bytes@.len() == storage_len(
            shape_product(shape@),
            dtype,
        ),
        r matches Ok(t) ==> t.shape@ == shape@ && t.dtype == dtype && t.data@ == bytes@ && t.wf(),
        r matches Err(e) ==> e is GpuError,
{
    match Tensor::from_data(shape.clone(), dtype, bytes) {
        Ok(t) => Ok(t),
        Err(_) => Err(
            CoreError::GpuError(String::from_str("device bytes do not match the tensor's shape")),
        ),
    }
}

impl WebGpuDevice {
    /// Assembles a device from the `wgpu` device and queue that an adapter
    /// granted; the name is `WebGPU (<adapter name>)`.
    pub fn from_parts(device: wgpu::Device, queue: wgpu::Queue, adapter_name: &str) -> (r: Self)
        ensures
            r.name() == "WebGPU ("@ + adapter_name@ + ")"@,
            r.available(),
    {
        let mut name = String::from_str("WebGPU (");
        name.append(adapter_name);
        name.append(")");
        WebGpuDevice {
            device: Arc::new(LimitedDevice::new(device)),
            queue: Arc::new(queue),
            name,
        }
    }

    /// The largest buffer size, in bytes, that the device accepts.
    pub closed spec fn buffer_limit(&self) -> u64 {
        self.device.buffer_limit()
    }

    /// The underlying `wgpu` device.
    pub fn device(&self) -> &wgpu::Device {
        self.device.device()
    }

    /// The underlying `wgpu` queue.
    pub fn queue(&self) -> &wgpu::Queue {
        &self.queue
    }
}

impl GpuDevice for WebGpuDevice {
    closed spec fn name(&self) -> Seq<char> {
        self.name@
    }

    closed spec fn available(&self) -> bool {
        true
    }

    fn upload_tensor(&self, tensor: &Tensor) -> (r: Result<GpuTensor, CoreError>)
        ensures
            r is Ok <==> tensor.data@.len() <= self.buffer_limit() / 4 * 4,
            r matches Ok(g) ==> g.shape@ == tensor.shape@ && (g.handle matches DeviceBuffer::WebGpu {
                buffer,
                dtype,
            } && buffer.contents() == tensor.data@ && dtype == tensor.dtype),
            r matches Err(e) ==> e is GpuError,
    {
        let limit = self.device.max_buffer_size() / 4 * 4;
        if tensor.data.len() as u64 > limit {
            return Err(
                CoreError::GpuError(String::from_str("tensor is larger than the device's largest buffer")),
            );
        }
        let buffer = self.device.create_storage_buffer(tensor.data.as_slice());
        Ok(
            GpuTensor {
                shape: tensor.shape.clone(),
                handle: DeviceBuffer::WebGpu { buffer: Arc::new(buffer), dtype: tensor.dtype },
            },
        )
    }

    fn run_kernel(&self, kernel: Kernel, inputs: &[GpuTensor]) -> (r: Result<GpuTensor, CoreError>)
        ensures
            inputs@.len() > 0 ==> (r matches Ok(g) && g.mirrors(&inputs@[0])),
    {
        if inputs.len() == 0 {
            return Err(CoreError::GpuError(String::from_str("No input tensors")));
        }
        Ok(inputs[0].clone())
    }

    fn download_tensor(&self, gpu_tensor: &GpuTensor) -> (r: Result<Tensor, CoreError>)
        ensures
            webgpu_download(gpu_tensor, r),
    {
        match &gpu_tensor.handle {
            DeviceBuffer::WebGpu { buffer, dtype } => {
                tensor_from_device_bytes(&gpu_tensor.shape, *dtype, buffer.read_contents())
            },
            _ => Err(CoreError::GpuError(String::from_str("Invalid tensor handle"))),
        }
    }

    fn synchronize(&self) -> (r: Result<(), CoreError>)
        ensures
            r is Ok,
    {
        self.device.wait();
        Ok(())
    }

    fn device_name(&self) -> (r: &str) {
        self.name.as_str()
    }

    fn is_available(&self) -> (r: bool) {
        true
    }
}

/// The WebGPU download: the bytes of a WebGPU handle's buffer under the
/// device tensor's shape and the handle's type; another backend's handle,
/// or bytes that do not fit the shape, are a device error.
pub open spec fn webgpu_download(gpu_tensor: &GpuTensor, r: Result<Tensor, CoreError>) -> bool {
    &&& r matches Err(e) ==> e is GpuError
    &&& !(gpu_tensor.handle is WebGpu) ==> r is Err
    &&& gpu_tensor.handle matches DeviceBuffer::WebGpu { buffer, dtype } ==> {
        &&& r is Ok <==> shape_product(gpu_tensor.shape@) <= usize::MAX && buffer.contents().len()
            == storage_len(shape_product(gpu_tensor.shape@), dtype)
        &&& r matches Ok(t) ==> t.shape@ == gpu_tensor.shape@ && t.dtype == dtype && t.data@
            == buffer.contents()
    }
}

} // verus!
