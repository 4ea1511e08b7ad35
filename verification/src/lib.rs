//! Bring-up and fault-isolation layer of a minimal bare-metal kernel for a
//! single x86-64 core: the segment-descriptor tables, the dedicated fault
//! stack, the trap-vector table, the fault handlers, and the initialization
//! ordering that makes them safe to install, together with the framebuffer
//! drawing routines used for diagnostic output.

pub mod boot;
pub mod display;
pub mod gdt;
pub mod idt;
pub mod vga_buffer;
pub mod video;

pub use boot::init;
