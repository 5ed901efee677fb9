//! Physical memory: addresses, frames, and the bump frame allocator.

pub mod addr;
pub mod bootstrap;
pub mod frame;

pub mod frame_allocator;
