//! A small 16-bit virtual CPU: a fetch-decode-execute engine over an address
//! space made of devices, with a register file and a stack-based calling
//! convention.

pub mod device;
pub mod instructions;
pub mod memory;
pub mod register;
pub mod memory_mapper;
pub mod peripheral;
pub mod screen_device;
pub mod cpu;
pub mod cpu_lemmas;
pub mod semantics;
