//! A simulator for an 8-bit handheld console CPU: the arithmetic unit, the
//! register file and instruction set, the memory map with its cartridge
//! bank controllers, and the timer.
pub mod alu;
pub mod cartridge;
pub mod timer;
pub mod mmu;
pub mod cpu;
pub mod ops;
pub mod instructions;
pub mod extended;
pub mod opcodes;
pub mod lemmas;
pub mod opt;
