pub mod cartridge;
pub mod cpu;
pub mod laws;
pub mod machine;
pub mod memory;
pub mod opcodes;
