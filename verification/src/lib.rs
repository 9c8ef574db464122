//! Build-time embedding of a prebuilt kernel image into the bootloader's own
//! binary, and the fixed-layout boot information record the bootloader hands
//! to the kernel entry point.

pub mod bootinfo;
pub mod embedder;
pub mod memory_map;
