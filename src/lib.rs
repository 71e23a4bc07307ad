pub mod address;
pub mod cartridge;
pub mod graphics;
pub mod memory;
