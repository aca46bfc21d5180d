//! Instruction execution core of a RISC-V hart: the RV32I base set, the RV64M
//! word-width multiply/divide operations and the RV32F single-precision set,
//! executed against an integer register file, a floating-point register file,
//! the program counter, the CSR file and a flat little-endian memory bus.
pub mod isa;
pub mod state;
pub mod rv32i;
pub mod rv64m;
pub mod float;
pub mod rv32f;
pub mod laws;
