pub mod cp0;
pub mod cp2;
pub mod types;
pub mod register;
pub mod exception;
pub mod instruction_impl;
pub mod memory_controller;
pub mod instruction_impl_memory;
pub mod gte_arith;
pub mod gte;
pub mod instruction;
pub mod controller;
pub mod access_state;
pub mod disassembler;
pub mod bios;
pub mod laws;
