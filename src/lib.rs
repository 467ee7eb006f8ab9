pub mod instructions;
pub mod registers;
pub mod cop;
pub mod alu;
pub mod devices;
pub mod memory;
pub mod cpu;
