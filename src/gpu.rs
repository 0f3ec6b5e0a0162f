//! The device capability interface, the kernel catalogue, device-resident
//! tensor handles, and the platform rule for the default device.

use std::sync::Arc;
use vstd::prelude::*;
use crate::error::CoreError;
use crate::tensor::{DType, Tensor};
use crate::wgpu_link::{StorageBuffer, share_buffer};

verus! {

/// Backend-owned data behind a device tensor: a closed set of the forms that
/// the backends keep.
#[derive(Debug)]
pub enum DeviceBuffer {
    /// A copy of the tensor held on the host.
    Host(Tensor),
    /// A WebGPU storage buffer and the type of the elements it holds.
    WebGpu { buffer: Arc<StorageBuffer>, dtype: DType },
}

impl DeviceBuffer {
    /// Both handles stand for the same data.
    pub open spec fn mirrors(&self, other: &DeviceBuffer) -> bool {
        match (self, other) {
            (DeviceBuffer::Host(a), DeviceBuffer::Host(b)) => a.shape@ == b.shape@ && a.dtype
                == b.dtype && a.data@ == b.data@,
            (
                DeviceBuffer::WebGpu { buffer: a, dtype: da },
                DeviceBuffer::WebGpu { buffer: b, dtype: db },
            ) => a == b && da == db,
            _ => false,
        }
    }
}

impl Clone for DeviceBuffer {
    fn clone(&self) -> (r: Self)
        ensures
            r.mirrors(self),
    {
        match self {
            DeviceBuffer::Host(t) => DeviceBuffer::Host(t.clone()),
            DeviceBuffer::WebGpu { buffer, dtype } => DeviceBuffer::WebGpu {
                buffer: share_buffer(buffer),
                dtype: *dtype,
            },
        }
    }
}

/// A tensor resident on a device: the shape it was uploaded with and the
/// backend's handle to its data.
#[derive(Debug)]
pub struct GpuTensor {
    /// Shape of the uploaded tensor.
    pub shape: Vec<usize>,
    /// Backend-specific handle.
    pub handle: DeviceBuffer,
}

impl GpuTensor {
    /// Same shape, and a handle to the same data.
    pub open spec fn mirrors(&self, other: &GpuTensor) -> bool {
        self.shape@ == other.shape@ && self.handle.mirrors(&other.handle)
    }
}

impl Clone for GpuTensor {
    fn clone(&self) -> (r: Self)
        ensures
            r.mirrors(self),
    {
        GpuTensor { shape: self.shape.clone(), handle: self.handle.clone() }
    }
}

/// The operations that a device can be asked to run.
#[derive(Debug, Clone, Copy, PartialEq, Eq, Structural)]
pub enum KernelType {
    /// Matrix multiplication.
    MatMul,
    /// Layer normalization.
    LayerNorm,
    /// Softmax activation.
    Softmax,
    /// GELU activation.
    Gelu,
    /// Matrix multiplication followed by GELU.
    FusedGemmGelu,
    /// Matrix multiplication followed by layer normalization.
    FusedGemmLayerNorm,
    /// Attention over fused query, key and value projections.
    Attention,
}

/// A request for one operation, with positional parameters given as
/// IEEE-754 single-precision bit patterns (for `LayerNorm`, the first is
/// epsilon).
#[derive(Debug, Clone)]
pub struct Kernel {
    /// Operation to run.
    pub kernel_type: KernelType,
    /// Parameters, as `f32` bit patterns.
    pub params: Vec<u32>,
}

impl Kernel {
    /// A kernel request without parameters.
    pub fn new(kernel_type: KernelType) -> (r: Self)
        ensures
            r.kernel_type == kernel_type,
            r.params@.len() == 0,
    {
        Kernel { kernel_type, params: Vec::new() }
    }

    /// A kernel request with parameters.
    pub fn with_params(kernel_type: KernelType, params: Vec<u32>) -> (r: Self)
        ensures
            r.kernel_type == kernel_type,
            r.params@ == params@,
    {
        Kernel { kernel_type, params }
    }
}

/// What every compute device offers: upload, dispatch, download,
/// synchronisation, and its name and liveness.
pub trait GpuDevice: Send + Sync {
    /// The name the device reports.
    spec fn name(&self) -> Seq<char>;

    /// Whether the device reports itself usable.
    spec fn available(&self) -> bool;

    /// Copies a host tensor into device-resident form, keeping its shape.
    fn upload_tensor(&self, tensor: &Tensor) -> (r: Result<GpuTensor, CoreError>)
        ensures
            r matches Ok(g) ==> g.shape@ == tensor.shape@,
    ;

    /// Runs one kernel over the inputs; with no input it fails with a device
    /// error.
    fn run_kernel(&self, kernel: Kernel, inputs: &[GpuTensor]) -> (r: Result<GpuTensor, CoreError>)
        ensures
            inputs@.len() == 0 ==> r matches Err(CoreError::GpuError(_)),
    ;

    /// Brings device-resident data back to the host, under the shape the
    /// device tensor carries.
    fn download_tensor(&self, gpu_tensor: &GpuTensor) -> (r: Result<Tensor, CoreError>)
        ensures
            r matches Ok(t) ==> t.shape@ == gpu_tensor.shape@,
    ;

    /// Waits until every operation issued so far has completed (a device
    /// whose driver bounds the wait, as wgpu does, may return at that bound).
    fn synchronize(&self) -> (r: Result<(), CoreError>);

    /// The device's name.
    fn device_name(&self) -> (r: &str)
        ensures
            r@ == self.name(),
    ;

    /// Whether the device can be used.
    fn is_available(&self) -> (r: bool)
        ensures
            r == self.available(),
    ;
}

/// Whether two shapes are equal.
pub(crate) fn same_shape(a: &Vec<usize>, b: &Vec<usize>) -> (r: bool)
    ensures
        r == (a@ == b@),
{
    if a.len() != b.len() {
        return false;
    }
    let mut i: usize = 0;
    while i < a.len()
        invariant
            i <= a@.len(),
            a@.len() == b@.len(),
            forall|j: int| 0 <= j < i ==> a@[j] == b@[j],
        decreases a@.len() - i,
    {
        if a[i] != b[i] {
            return false;
        }
        i = i + 1;
    }
    assert(a@ =~= b@);
    true
}

/// The download that a device keeping host copies performs: the copy behind
/// a host handle whose shape is the device tensor's; a handle of another
/// backend, or one that disagrees with the shape, is a device error.
pub open spec fn host_download(gpu_tensor: &GpuTensor, r: Result<Tensor, CoreError>) -> bool {
    &&& (gpu_tensor.handle matches DeviceBuffer::Host(h) && h.shape@ == gpu_tensor.shape@) <==> r is Ok
    &&& r matches Ok(t) ==> DeviceBuffer::Host(t).mirrors(&gpu_tensor.handle)
    &&& r matches Err(e) ==> e is GpuError
}

/// Downloads from a device that keeps host copies.
pub(crate) fn download_host_copy(gpu_tensor: &GpuTensor) -> (r: Result<Tensor, CoreError>)
    ensures
        host_download(gpu_tensor, r),
        r matches Ok(t) ==> t.shape@ == gpu_tensor.shape@,
{
    match &gpu_tensor.handle {
        DeviceBuffer::Host(t) => {
            if same_shape(&t.shape, &gpu_tensor.shape) {
                Ok(t.clone())
            } else {
                Err(
                    CoreError::GpuError(
                        String::from_str("tensor handle does not match the tensor's shape"),
                    ),
                )
            }
        },
        _ => Err(CoreError::GpuError(String::from_str("Invalid tensor handle"))),
    }
}

/// Kinds of compute device.
#[derive(Debug, Clone, Copy, PartialEq, Eq, Structural)]
pub enum DeviceType {
    /// Host processor; always present.
    Cpu,
    /// WebGPU, in a browser or native.
    WebGpu,
    /// Vulkan.
    Vulkan,
    /// Metal.
    Metal,
    /// DirectX 12.
    Dx12,
}

/// Build targets, as far as device choice depends on them.
#[derive(Debug, Clone, Copy, PartialEq, Eq, Structural)]
pub enum Platform {
    /// WebAssembly in a browser.
    Wasm,
    /// Apple desktop.
    MacOs,
    /// Windows.
    Windows,
    /// Linux.
    Linux,
    /// Anything else.
    Other,
}

/// The device kind that a platform prefers.
pub open spec fn platform_default(platform: Platform) -> DeviceType {
    match platform {
        Platform::Wasm => DeviceType::WebGpu,
        Platform::MacOs => DeviceType::Metal,
        Platform::Windows => DeviceType::Dx12,
        Platform::Linux => DeviceType::Vulkan,
        Platform::Other => DeviceType::Cpu,
    }
}

impl DeviceType {
    /// The preferred device kind on `platform`: WebGPU in a browser, the
    /// native accelerator on Apple, Windows and Linux, the CPU elsewhere.
    pub fn default_for_platform(platform: Platform) -> (r: DeviceType)
        ensures
            r == platform_default(platform),
    {
        match platform {
            Platform::Wasm => DeviceType::WebGpu,
            Platform::MacOs => DeviceType::Metal,
            Platform::Windows => DeviceType::Dx12,
            Platform::Linux => DeviceType::Vulkan,
            Platform::Other => DeviceType::Cpu,
        }
    }
}

} // verus!
