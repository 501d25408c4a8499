pub mod gb_mem;
pub mod gb_rom;
pub mod gb_alu;
pub mod gb_hw_bus;
pub mod gb_opcodes;
pub mod machine;
pub mod tracelog;
pub mod gb_cpu;
pub mod session;
