pub mod boot;
pub mod cpu;
pub mod display;
pub mod instruction_mapper;
pub mod instructions;
pub mod memory;
pub mod registers;
pub mod rom;
