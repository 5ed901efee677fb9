//! Descriptor tables and trap dispatch for an x86_64 kernel: segment selectors, the global and
//! interrupt descriptor tables and their binary encodings, a model of the register-saving trap
//! trampolines, and the exception dispatch policy. Beside them: the text of register dumps and log
//! lines, the serial port's set-up decisions, and physical-memory addresses, frames and the
//! early allocators.

pub mod selector;
pub mod text;
pub mod handler;
pub mod gdt;
pub mod idt;
pub mod trampoline;
pub mod exceptions;
pub mod memory;
pub mod logger;
pub mod uart;
pub mod framebuffer;
