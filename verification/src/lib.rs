pub mod bitfield;
pub mod geometry;
pub mod color;
pub mod register;
pub mod memory;
pub mod fifo;
pub mod text;
pub mod mips1;
pub mod r3000;
pub mod system;
