//! The calls into `wgpu` that the WebGPU device makes, with what they
//! guarantee. Values of these types are made only by the functions here.

use std::sync::Arc;
use vstd::prelude::*;

verus! {

#[verifier::external_type_specification]
#[verifier::external_body]
pub struct ExWgpuDevice(wgpu::Device);

#[verifier::external_type_specification]
#[verifier::external_body]
pub struct ExWgpuQueue(wgpu::Queue);

#[verifier::external_type_specification]
#[verifier::external_body]
pub struct ExWgpuBuffer(wgpu::Buffer);

/// A `wgpu` device together with the largest buffer it accepts.
pub struct LimitedDevice {
    device: wgpu::Device,
    max_buffer_size: u64,
}

/// A WebGPU storage buffer and the bytes it was filled with.
#[derive(Debug)]
pub struct StorageBuffer {
    buffer: wgpu::Buffer,
    bytes: Vec<u8>,
}

impl StorageBuffer {
    /// The bytes the buffer was filled with.
    pub closed spec fn contents(&self) -> Seq<u8> {
        self.bytes@
    }

    /// A host copy of the buffer's bytes.
    pub fn read_contents(&self) -> (r: Vec<u8>)
        ensures
            r@ == self.contents(),
    {
        self.bytes.clone()
    }
}

impl LimitedDevice {
    /// Relies on `wgpu::Device::limits`: keeps the device with its
    /// `max_buffer_size`.
    #[verifier::external_body]
    pub fn new(device: wgpu::Device) -> Self {
        let max_buffer_size = device.limits().max_buffer_size;
        LimitedDevice { device, max_buffer_size }
    }

    /// The largest buffer size, in bytes, that the device accepts.
    pub closed spec fn buffer_limit(&self) -> u64 {
        self.max_buffer_size
    }

    /// The largest buffer size, in bytes, that the device accepts.
    pub fn max_buffer_size(&self) -> (r: u64)
        ensures
            r == self.buffer_limit(),
    {
        self.max_buffer_size
    }

    /// The underlying `wgpu` device.
    pub fn device(&self) -> &wgpu::Device {
        &self.device
    }

    /// Relies on `wgpu::util::DeviceExt::create_buffer_init`: a new storage
    /// buffer holding `contents`, padded to a multiple of 4 bytes. A padded
    /// size above the device's `max_buffer_size` makes wgpu panic; hence the
    /// bound. A host copy of `contents` is kept beside it.
    #[verifier::external_body]
    pub fn create_storage_buffer(&self, contents: &[u8]) -> (r: StorageBuffer)
        requires
            contents@.len() <= self.buffer_limit() / 4 * 4,
        ensures
            r.contents() == contents@,
    {
        let buffer = wgpu::util::DeviceExt::create_buffer_init(
            &self.device,
            &wgpu::util::BufferInitDescriptor {
                label: Some("Tensor Buffer"),
                contents,
                usage: wgpu::BufferUsages::STORAGE | wgpu::BufferUsages::COPY_DST
                    | wgpu::BufferUsages::COPY_SRC,
            },
        );
        StorageBuffer { buffer, bytes: contents.to_vec() }
    }

    /// Relies on `wgpu::Device::poll` with `Maintain::Wait`: blocks while the
    /// work submitted to the device runs, giving up after wgpu's own
    /// timeout.
    #[verifier::external_body]
    pub fn wait(&self) {
        self.device.poll(wgpu::Maintain::Wait);
    }
}

/// Relies on `Arc::clone`: a second pointer to the same buffer.
#[verifier::external_body]
pub fn share_buffer(buffer: &Arc<StorageBuffer>) -> (r: Arc<StorageBuffer>)
    ensures
        r == *buffer,
{
    Arc::clone(buffer)
}

} // verus!
