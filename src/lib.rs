//! Instruction-execution core of an 8-bit handheld-console CPU: register file
//! with its pair views and flag masking, opcode decoder, fetch/execute engine
//! and bank-switched memory.

pub mod cpu;
pub mod decoder;
pub mod memory;
pub mod engine;
