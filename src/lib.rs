pub mod flags;
pub mod opcodes;
pub mod ppu_registers;
pub mod ppu;
pub mod bus;
pub mod cpu_spec;
pub mod cpu;
pub mod frame;
pub mod render;
