//! Tensors with a fixed byte layout, integer quantization codecs, and a
//! device capability interface with platform-driven device selection.

pub mod cpu;
pub mod device;
pub mod dx12;
pub mod error;
pub mod gpu;
pub mod metal;
pub mod quantization;
pub mod tensor;
pub mod transformer;
pub mod vulkan;
pub mod web;
pub mod webgpu;
pub mod wgpu_link;

pub use error::CoreError;
pub use tensor::{DType, Tensor};
