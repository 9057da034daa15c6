//! The instructions of the extended page (prefix 0xCB), one routine each.
use crate::cpu::{Fault, Reg8, CPU};
use crate::ops::{Dst, Src, Unary};
use vstd::prelude::*;

verus! {

/// What the instruction `op` of the extended page does: `post` and `r` are the
/// machine and the outcome after it runs on `pre`, whose program counter
/// stands after the opcode.
#[verifier::opaque]
pub open spec fn executes_extended(op: u8, pre: CPU, post: CPU, r: Result<u8, Fault>) -> bool {
    match op {
        0x00u8 => pre.rmw(post, r, Unary::Rlc, Dst::R(Reg8::B), 8),
        0x01u8 => pre.rmw(post, r, Unary::Rlc, Dst::R(Reg8::C), 8),
        0x02u8 => pre.rmw(post, r, Unary::Rlc, Dst::R(Reg8::D), 8),
        0x03u8 => pre.rmw(post, r, Unary::Rlc, Dst::R(Reg8::E), 8),
        0x04u8 => pre.rmw(post, r, Unary::Rlc, Dst::R(Reg8::H), 8),
        0x05u8 => pre.rmw(post, r, Unary::Rlc, Dst::R(Reg8::L), 8),
        0x06u8 => pre.rmw(post, r, Unary::Rlc, Dst::AtHL, 16),
        0x07u8 => pre.rmw(post, r, Unary::Rlc, Dst::R(Reg8::A), 8),
        0x08u8 => pre.rmw(post, r, Unary::Rrc, Dst::R(Reg8::B), 8),
        0x09u8 => pre.rmw(post, r, Unary::Rrc, Dst::R(Reg8::C), 8),
        0x0Au8 => pre.rmw(post, r, Unary::Rrc, Dst::R(Reg8::D), 8),
        0x0Bu8 => pre.rmw(post, r, Unary::Rrc, Dst::R(Reg8::E), 8),
        0x0Cu8 => pre.rmw(post, r, Unary::Rrc, Dst::R(Reg8::H), 8),
        0x0Du8 => pre.rmw(post, r, Unary::Rrc, Dst::R(Reg8::L), 8),
        0x0Eu8 => pre.rmw(post, r, Unary::Rrc, Dst::AtHL, 16),
        0x0Fu8 => pre.rmw(post, r, Unary::Rrc, Dst::R(Reg8::A), 8),
        0x10u8 => pre.rmw(post, r, Unary::Rl, Dst::R(Reg8::B), 8),
        0x11u8 => pre.rmw(post, r, Unary::Rl, Dst::R(Reg8::C), 8),
        0x12u8 => pre.rmw(post, r, Unary::Rl, Dst::R(Reg8::D), 8),
        0x13u8 => pre.rmw(post, r, Unary::Rl, Dst::R(Reg8::E), 8),
        0x14u8 => pre.rmw(post, r, Unary::Rl, Dst::R(Reg8::H), 8),
        0x15u8 => pre.rmw(post, r, Unary::Rl, Dst::R(Reg8::L), 8),
        0x16u8 => pre.rmw(post, r, Unary::Rl, Dst::AtHL, 16),
        0x17u8 => pre.rmw(post, r, Unary::Rl, Dst::R(Reg8::A), 8),
        0x18u8 => pre.rmw(post, r, Unary::Rr, Dst::R(Reg8::B), 8),
        0x19u8 => pre.rmw(post, r, Unary::Rr, Dst::R(Reg8::C), 8),
        0x1Au8 => pre.rmw(post, r, Unary::Rr, Dst::R(Reg8::D), 8),
        0x1Bu8 => pre.rmw(post, r, Unary::Rr, Dst::R(Reg8::E), 8),
        0x1Cu8 => pre.rmw(post, r, Unary::Rr, Dst::R(Reg8::H), 8),
        0x1Du8 => pre.rmw(post, r, Unary::Rr, Dst::R(Reg8::L), 8),
        0x1Eu8 => pre.rmw(post, r, Unary::Rr, Dst::AtHL, 16),
        0x1Fu8 => pre.rmw(post, r, Unary::Rr, Dst::R(Reg8::A), 8),
        0x20u8 => pre.rmw(post, r, Unary::Sla, Dst::R(Reg8::B), 8),
        0x21u8 => pre.rmw(post, r, Unary::Sla, Dst::R(Reg8::C), 8),
        0x22u8 => pre.rmw(post, r, Unary::Sla, Dst::R(Reg8::D), 8),
        0x23u8 => pre.rmw(post, r, Unary::Sla, Dst::R(Reg8::E), 8),
        0x24u8 => pre.rmw(post, r, Unary::Sla, Dst::R(Reg8::H), 8),
        0x25u8 => pre.rmw(post, r, Unary::Sla, Dst::R(Reg8::L), 8),
        0x26u8 => pre.rmw(post, r, Unary::Sla, Dst::AtHL, 16),
        0x27u8 => pre.rmw(post, r, Unary::Sla, Dst::R(Reg8::A), 8),
        0x28u8 => pre.rmw(post, r, Unary::Sra, Dst::R(Reg8::B), 8),
        0x29u8 => pre.rmw(post, r, Unary::Sra, Dst::R(Reg8::C), 8),
        0x2Au8 => pre.rmw(post, r, Unary::Sra, Dst::R(Reg8::D), 8),
        0x2Bu8 => pre.rmw(post, r, Unary::Sra, Dst::R(Reg8::E), 8),
        0x2Cu8 => pre.rmw(post, r, Unary::Sra, Dst::R(Reg8::H), 8),
        0x2Du8 => pre.rmw(post, r, Unary::Sra, Dst::R(Reg8::L), 8),
        0x2Eu8 => pre.rmw(post, r, Unary::Sra, Dst::AtHL, 16),
        0x2Fu8 => pre.rmw(post, r, Unary::Sra, Dst::R(Reg8::A), 8),
        0x30u8 => pre.rmw(post, r, Unary::Swap, Dst::R(Reg8::B), 8),
        0x31u8 => pre.rmw(post, r, Unary::Swap, Dst::R(Reg8::C), 8),
        0x32u8 => pre.rmw(post, r, Unary::Swap, Dst::R(Reg8::D), 8),
        0x33u8 => pre.rmw(post, r, Unary::Swap, Dst::R(Reg8::E), 8),
        0x34u8 => pre.rmw(post, r, Unary::Swap, Dst::R(Reg8::H), 8),
        0x35u8 => pre.rmw(post, r, Unary::Swap, Dst::R(Reg8::L), 8),
        0x36u8 => pre.rmw(post, r, Unary::Swap, Dst::AtHL, 16),
        0x37u8 => pre.rmw(post, r, Unary::Swap, Dst::R(Reg8::A), 8),
        0x38u8 => pre.rmw(post, r, Unary::Srl, Dst::R(Reg8::B), 8),
        0x39u8 => pre.rmw(post, r, Unary::Srl, Dst::R(Reg8::C), 8),
        0x3Au8 => pre.rmw(post, r, Unary::Srl, Dst::R(Reg8::D), 8),
        0x3Bu8 => pre.rmw(post, r, Unary::Srl, Dst::R(Reg8::E), 8),
        0x3Cu8 => pre.rmw(post, r, Unary::Srl, Dst::R(Reg8::H), 8),
        0x3Du8 => pre.rmw(post, r, Unary::Srl, Dst::R(Reg8::L), 8),
        0x3Eu8 => pre.rmw(post, r, Unary::Srl, Dst::AtHL, 16),
        0x3Fu8 => pre.rmw(post, r, Unary::Srl, Dst::R(Reg8::A), 8),
        0x40u8 => pre.bit_test(post, r, 0, Src::R(Reg8::B), 8),
        0x41u8 => pre.bit_test(post, r, 0, Src::R(Reg8::C), 8),
        0x42u8 => pre.bit_test(post, r, 0, Src::R(Reg8::D), 8),
        0x43u8 => pre.bit_test(post, r, 0, Src::R(Reg8::E), 8),
        0x44u8 => pre.bit_test(post, r, 0, Src::R(Reg8::H), 8),
        0x45u8 => pre.bit_test(post, r, 0, Src::R(Reg8::L), 8),
        0x46u8 => pre.bit_test(post, r, 0, Src::AtHL, 12),
        0x47u8 => pre.bit_test(post, r, 0, Src::R(Reg8::A), 8),
        0x48u8 => pre.bit_test(post, r, 1, Src::R(Reg8::B), 8),
        0x49u8 => pre.bit_test(post, r, 1, Src::R(Reg8::C), 8),
        0x4Au8 => pre.bit_test(post, r, 1, Src::R(Reg8::D), 8),
        0x4Bu8 => pre.bit_test(post, r, 1, Src::R(Reg8::E), 8),
        0x4Cu8 => pre.bit_test(post, r, 1, Src::R(Reg8::H), 8),
        0x4Du8 => pre.bit_test(post, r, 1, Src::R(Reg8::L), 8),
        0x4Eu8 => pre.bit_test(post, r, 1, Src::AtHL, 12),
        0x4Fu8 => pre.bit_test(post, r, 1, Src::R(Reg8::A), 8),
        0x50u8 => pre.bit_test(post, r, 2, Src::R(Reg8::B), 8),
        0x51u8 => pre.bit_test(post, r, 2, Src::R(Reg8::C), 8),
        0x52u8 => pre.bit_test(post, r, 2, Src::R(Reg8::D), 8),
        0x53u8 => pre.bit_test(post, r, 2, Src::R(Reg8::E), 8),
        0x54u8 => pre.bit_test(post, r, 2, Src::R(Reg8::H), 8),
        0x55u8 => pre.bit_test(post, r, 2, Src::R(Reg8::L), 8),
        0x56u8 => pre.bit_test(post, r, 2, Src::AtHL, 12),
        0x57u8 => pre.bit_test(post, r, 2, Src::R(Reg8::A), 8),
        0x58u8 => pre.bit_test(post, r, 3, Src::R(Reg8::B), 8),
        0x59u8 => pre.bit_test(post, r, 3, Src::R(Reg8::C), 8),
        0x5Au8 => pre.bit_test(post, r, 3, Src::R(Reg8::D), 8),
        0x5Bu8 => pre.bit_test(post, r, 3, Src::R(Reg8::E), 8),
        0x5Cu8 => pre.bit_test(post, r, 3, Src::R(Reg8::H), 8),
        0x5Du8 => pre.bit_test(post, r, 3, Src::R(Reg8::L), 8),
        0x5Eu8 => pre.bit_test(post, r, 3, Src::AtHL, 12),
        0x5Fu8 => pre.bit_test(post, r, 3, Src::R(Reg8::A), 8),
        0x60u8 => pre.bit_test(post, r, 4, Src::R(Reg8::B), 8),
        0x61u8 => pre.bit_test(post, r, 4, Src::R(Reg8::C), 8),
        0x62u8 => pre.bit_test(post, r, 4, Src::R(Reg8::D), 8),
        0x63u8 => pre.bit_test(post, r, 4, Src::R(Reg8::E), 8),
        0x64u8 => pre.bit_test(post, r, 4, Src::R(Reg8::H), 8),
        0x65u8 => pre.bit_test(post, r, 4, Src::R(Reg8::L), 8),
        0x66u8 => pre.bit_test(post, r, 4, Src::AtHL, 12),
        0x67u8 => pre.bit_test(post, r, 4, Src::R(Reg8::A), 8),
        0x68u8 => pre.bit_test(post, r, 5, Src::R(Reg8::B), 8),
        0x69u8 => pre.bit_test(post, r, 5, Src::R(Reg8::C), 8),
        0x6Au8 => pre.bit_test(post, r, 5, Src::R(Reg8::D), 8),
        0x6Bu8 => pre.bit_test(post, r, 5, Src::R(Reg8::E), 8),
        0x6Cu8 => pre.bit_test(post, r, 5, Src::R(Reg8::H), 8),
        0x6Du8 => pre.bit_test(post, r, 5, Src::R(Reg8::L), 8),
        0x6Eu8 => pre.bit_test(post, r, 5, Src::AtHL, 12),
        0x6Fu8 => pre.bit_test(post, r, 5, Src::R(Reg8::A), 8),
        0x70u8 => pre.bit_test(post, r, 6, Src::R(Reg8::B), 8),
        0x71u8 => pre.bit_test(post, r, 6, Src::R(Reg8::C), 8),
        0x72u8 => pre.bit_test(post, r, 6, Src::R(Reg8::D), 8),
        0x73u8 => pre.bit_test(post, r, 6, Src::R(Reg8::E), 8),
        0x74u8 => pre.bit_test(post, r, 6, Src::R(Reg8::H), 8),
        0x75u8 => pre.bit_test(post, r, 6, Src::R(Reg8::L), 8),
        0x76u8 => pre.bit_test(post, r, 6, Src::AtHL, 12),
        0x77u8 => pre.bit_test(post, r, 6, Src::R(Reg8::A), 8),
        0x78u8 => pre.bit_test(post, r, 7, Src::R(Reg8::B), 8),
        0x79u8 => pre.bit_test(post, r, 7, Src::R(Reg8::C), 8),
        0x7Au8 => pre.bit_test(post, r, 7, Src::R(Reg8::D), 8),
        0x7Bu8 => pre.bit_test(post, r, 7, Src::R(Reg8::E), 8),
        0x7Cu8 => pre.bit_test(post, r, 7, Src::R(Reg8::H), 8),
        0x7Du8 => pre.bit_test(post, r, 7, Src::R(Reg8::L), 8),
        0x7Eu8 => pre.bit_test(post, r, 7, Src::AtHL, 12),
        0x7Fu8 => pre.bit_test(post, r, 7, Src::R(Reg8::A), 8),
        0x80u8 => pre.rmw(post, r, Unary::ResBit(0), Dst::R(Reg8::B), 8),
        0x81u8 => pre.rmw(post, r, Unary::ResBit(0), Dst::R(Reg8::C), 8),
        0x82u8 => pre.rmw(post, r, Unary::ResBit(0), Dst::R(Reg8::D), 8),
        0x83u8 => pre.rmw(post, r, Unary::ResBit(0), Dst::R(Reg8::E), 8),
        0x84u8 => pre.rmw(post, r, Unary::ResBit(0), Dst::R(Reg8::H), 8),
        0x85u8 => pre.rmw(post, r, Unary::ResBit(0), Dst::R(Reg8::L), 8),
        0x86u8 => pre.rmw(post, r, Unary::ResBit(0), Dst::AtHL, 16),
        0x87u8 => pre.rmw(post, r, Unary::ResBit(0), Dst::R(Reg8::A), 8),
        0x88u8 => pre.rmw(post, r, Unary::ResBit(1), Dst::R(Reg8::B), 8),
        0x89u8 => pre.rmw(post, r, Unary::ResBit(1), Dst::R(Reg8::C), 8),
        0x8Au8 => pre.rmw(post, r, Unary::ResBit(1), Dst::R(Reg8::D), 8),
        0x8Bu8 => pre.rmw(post, r, Unary::ResBit(1), Dst::R(Reg8::E), 8),
        0x8Cu8 => pre.rmw(post, r, Unary::ResBit(1), Dst::R(Reg8::H), 8),
        0x8Du8 => pre.rmw(post, r, Unary::ResBit(1), Dst::R(Reg8::L), 8),
        0x8Eu8 => pre.rmw(post, r, Unary::ResBit(1), Dst::AtHL, 16),
        0x8Fu8 => pre.rmw(post, r, Unary::ResBit(1), Dst::R(Reg8::A), 8),
        0x90u8 => pre.rmw(post, r, Unary::ResBit(2), Dst::R(Reg8::B), 8),
        0x91u8 => pre.rmw(post, r, Unary::ResBit(2), Dst::R(Reg8::C), 8),
        0x92u8 => pre.rmw(post, r, Unary::ResBit(2), Dst::R(Reg8::D), 8),
        0x93u8 => pre.rmw(post, r, Unary::ResBit(2), Dst::R(Reg8::E), 8),
        0x94u8 => pre.rmw(post, r, Unary::ResBit(2), Dst::R(Reg8::H), 8),
        0x95u8 => pre.rmw(post, r, Unary::ResBit(2), Dst::R(Reg8::L), 8),
        0x96u8 => pre.rmw(post, r, Unary::ResBit(2), Dst::AtHL, 16),
        0x97u8 => pre.rmw(post, r, Unary::ResBit(2), Dst::R(Reg8::A), 8),
        0x98u8 => pre.rmw(post, r, Unary::ResBit(3), Dst::R(Reg8::B), 8),
        0x99u8 => pre.rmw(post, r, Unary::ResBit(3), Dst::R(Reg8::C), 8),
        0x9Au8 => pre.rmw(post, r, Unary::ResBit(3), Dst::R(Reg8::D), 8),
        0x9Bu8 => pre.rmw(post, r, Unary::ResBit(3), Dst::R(Reg8::E), 8),
        0x9Cu8 => pre.rmw(post, r, Unary::ResBit(3), Dst::R(Reg8::H), 8),
        0x9Du8 => pre.rmw(post, r, Unary::ResBit(3), Dst::R(Reg8::L), 8),
        0x9Eu8 => pre.rmw(post, r, Unary::ResBit(3), Dst::AtHL, 16),
        0x9Fu8 => pre.rmw(post, r, Unary::ResBit(3), Dst::R(Reg8::A), 8),
        0xA0u8 => pre.rmw(post, r, Unary::ResBit(4), Dst::R(Reg8::B), 8),
        0xA1u8 => pre.rmw(post, r, Unary::ResBit(4), Dst::R(Reg8::C), 8),
        0xA2u8 => pre.rmw(post, r, Unary::ResBit(4), Dst::R(Reg8::D), 8),
        0xA3u8 => pre.rmw(post, r, Unary::ResBit(4), Dst::R(Reg8::E), 8),
        0xA4u8 => pre.rmw(post, r, Unary::ResBit(4), Dst::R(Reg8::H), 8),
        0xA5u8 => pre.rmw(post, r, Unary::ResBit(4), Dst::R(Reg8::L), 8),
        0xA6u8 => pre.rmw(post, r, Unary::ResBit(4), Dst::AtHL, 16),
        0xA7u8 => pre.rmw(post, r, Unary::ResBit(4), Dst::R(Reg8::A), 8),
        0xA8u8 => pre.rmw(post, r, Unary::ResBit(5), Dst::R(Reg8::B), 8),
        0xA9u8 => pre.rmw(post, r, Unary::ResBit(5), Dst::R(Reg8::C), 8),
        0xAAu8 => pre.rmw(post, r, Unary::ResBit(5), Dst::R(Reg8::D), 8),
        0xABu8 => pre.rmw(post, r, Unary::ResBit(5), Dst::R(Reg8::E), 8),
        0xACu8 => pre.rmw(post, r, Unary::ResBit(5), Dst::R(Reg8::H), 8),
        0xADu8 => pre.rmw(post, r, Unary::ResBit(5), Dst::R(Reg8::L), 8),
        0xAEu8 => pre.rmw(post, r, Unary::ResBit(5), Dst::AtHL, 16),
        0xAFu8 => pre.rmw(post, r, Unary::ResBit(5), Dst::R(Reg8::A), 8),
        0xB0u8 => pre.rmw(post, r, Unary::ResBit(6), Dst::R(Reg8::B), 8),
        0xB1u8 => pre.rmw(post, r, Unary::ResBit(6), Dst::R(Reg8::C), 8),
        0xB2u8 => pre.rmw(post, r, Unary::ResBit(6), Dst::R(Reg8::D), 8),
        0xB3u8 => pre.rmw(post, r, Unary::ResBit(6), Dst::R(Reg8::E), 8),
        0xB4u8 => pre.rmw(post, r, Unary::ResBit(6), Dst::R(Reg8::H), 8),
        0xB5u8 => pre.rmw(post, r, Unary::ResBit(6), Dst::R(Reg8::L), 8),
        0xB6u8 => pre.rmw(post, r, Unary::ResBit(6), Dst::AtHL, 16),
        0xB7u8 => pre.rmw(post, r, Unary::ResBit(6), Dst::R(Reg8::A), 8),
        0xB8u8 => pre.rmw(post, r, Unary::ResBit(7), Dst::R(Reg8::B), 8),
        0xB9u8 => pre.rmw(post, r, Unary::ResBit(7), Dst::R(Reg8::C), 8),
        0xBAu8 => pre.rmw(post, r, Unary::ResBit(7), Dst::R(Reg8::D), 8),
        0xBBu8 => pre.rmw(post, r, Unary::ResBit(7), Dst::R(Reg8::E), 8),
        0xBCu8 => pre.rmw(post, r, Unary::ResBit(7), Dst::R(Reg8::H), 8),
        0xBDu8 => pre.rmw(post, r, Unary::ResBit(7), Dst::R(Reg8::L), 8),
        0xBEu8 => pre.rmw(post, r, Unary::ResBit(7), Dst::AtHL, 16),
        0xBFu8 => pre.rmw(post, r, Unary::ResBit(7), Dst::R(Reg8::A), 8),
        0xC0u8 => pre.rmw(post, r, Unary::SetBit(0), Dst::R(Reg8::B), 8),
        0xC1u8 => pre.rmw(post, r, Unary::SetBit(0), Dst::R(Reg8::C), 8),
        0xC2u8 => pre.rmw(post, r, Unary::SetBit(0), Dst::R(Reg8::D), 8),
        0xC3u8 => pre.rmw(post, r, Unary::SetBit(0), Dst::R(Reg8::E), 8),
        0xC4u8 => pre.rmw(post, r, Unary::SetBit(0), Dst::R(Reg8::H), 8),
        0xC5u8 => pre.rmw(post, r, Unary::SetBit(0), Dst::R(Reg8::L), 8),
        0xC6u8 => pre.rmw(post, r, Unary::SetBit(0), Dst::AtHL, 16),
        0xC7u8 => pre.rmw(post, r, Unary::SetBit(0), Dst::R(Reg8::A), 8),
        0xC8u8 => pre.rmw(post, r, Unary::SetBit(1), Dst::R(Reg8::B), 8),
        0xC9u8 => pre.rmw(post, r, Unary::SetBit(1), Dst::R(Reg8::C), 8),
        0xCAu8 => pre.rmw(post, r, Unary::SetBit(1), Dst::R(Reg8::D), 8),
        0xCBu8 => pre.rmw(post, r, Unary::SetBit(1), Dst::R(Reg8::E), 8),
        0xCCu8 => pre.rmw(post, r, Unary::SetBit(1), Dst::R(Reg8::H), 8),
        0xCDu8 => pre.rmw(post, r, Unary::SetBit(1), Dst::R(Reg8::L), 8),
        0xCEu8 => pre.rmw(post, r, Unary::SetBit(1), Dst::AtHL, 16),
        0xCFu8 => pre.rmw(post, r, Unary::SetBit(1), Dst::R(Reg8::A), 8),
        0xD0u8 => pre.rmw(post, r, Unary::SetBit(2), Dst::R(Reg8::B), 8),
        0xD1u8 => pre.rmw(post, r, Unary::SetBit(2), Dst::R(Reg8::C), 8),
        0xD2u8 => pre.rmw(post, r, Unary::SetBit(2), Dst::R(Reg8::D), 8),
        0xD3u8 => pre.rmw(post, r, Unary::SetBit(2), Dst::R(Reg8::E), 8),
        0xD4u8 => pre.rmw(post, r, Unary::SetBit(2), Dst::R(Reg8::H), 8),
        0xD5u8 => pre.rmw(post, r, Unary::SetBit(2), Dst::R(Reg8::L), 8),
        0xD6u8 => pre.rmw(post, r, Unary::SetBit(2), Dst::AtHL, 16),
        0xD7u8 => pre.rmw(post, r, Unary::SetBit(2), Dst::R(Reg8::A), 8),
        0xD8u8 => pre.rmw(post, r, Unary::SetBit(3), Dst::R(Reg8::B), 8),
        0xD9u8 => pre.rmw(post, r, Unary::SetBit(3), Dst::R(Reg8::C), 8),
        0xDAu8 => pre.rmw(post, r, Unary::SetBit(3), Dst::R(Reg8::D), 8),
        0xDBu8 => pre.rmw(post, r, Unary::SetBit(3), Dst::R(Reg8::E), 8),
        0xDCu8 => pre.rmw(post, r, Unary::SetBit(3), Dst::R(Reg8::H), 8),
        0xDDu8 => pre.rmw(post, r, Unary::SetBit(3), Dst::R(Reg8::L), 8),
        0xDEu8 => pre.rmw(post, r, Unary::SetBit(3), Dst::AtHL, 16),
        0xDFu8 => pre.rmw(post, r, Unary::SetBit(3), Dst::R(Reg8::A), 8),
        0xE0u8 => pre.rmw(post, r, Unary::SetBit(4), Dst::R(Reg8::B), 8),
        0xE1u8 => pre.rmw(post, r, Unary::SetBit(4), Dst::R(Reg8::C), 8),
        0xE2u8 => pre.rmw(post, r, Unary::SetBit(4), Dst::R(Reg8::D), 8),
        0xE3u8 => pre.rmw(post, r, Unary::SetBit(4), Dst::R(Reg8::E), 8),
        0xE4u8 => pre.rmw(post, r, Unary::SetBit(4), Dst::R(Reg8::H), 8),
        0xE5u8 => pre.rmw(post, r, Unary::SetBit(4), Dst::R(Reg8::L), 8),
        0xE6u8 => pre.rmw(post, r, Unary::SetBit(4), Dst::AtHL, 16),
        0xE7u8 => pre.rmw(post, r, Unary::SetBit(4), Dst::R(Reg8::A), 8),
        0xE8u8 => pre.rmw(post, r, Unary::SetBit(5), Dst::R(Reg8::B), 8),
        0xE9u8 => pre.rmw(post, r, Unary::SetBit(5), Dst::R(Reg8::C), 8),
        0xEAu8 => pre.rmw(post, r, Unary::SetBit(5), Dst::R(Reg8::D), 8),
        0xEBu8 => pre.rmw(post, r, Unary::SetBit(5), Dst::R(Reg8::E), 8),
        0xECu8 => pre.rmw(post, r, Unary::SetBit(5), Dst::R(Reg8::H), 8),
        0xEDu8 => pre.rmw(post, r, Unary::SetBit(5), Dst::R(Reg8::L), 8),
        0xEEu8 => pre.rmw(post, r, Unary::SetBit(5), Dst::AtHL, 16),
        0xEFu8 => pre.rmw(post, r, Unary::SetBit(5), Dst::R(Reg8::A), 8),
        0xF0u8 => pre.rmw(post, r, Unary::SetBit(6), Dst::R(Reg8::B), 8),
        0xF1u8 => pre.rmw(post, r, Unary::SetBit(6), Dst::R(Reg8::C), 8),
        0xF2u8 => pre.rmw(post, r, Unary::SetBit(6), Dst::R(Reg8::D), 8),
        0xF3u8 => pre.rmw(post, r, Unary::SetBit(6), Dst::R(Reg8::E), 8),
        0xF4u8 => pre.rmw(post, r, Unary::SetBit(6), Dst::R(Reg8::H), 8),
        0xF5u8 => pre.rmw(post, r, Unary::SetBit(6), Dst::R(Reg8::L), 8),
        0xF6u8 => pre.rmw(post, r, Unary::SetBit(6), Dst::AtHL, 16),
        0xF7u8 => pre.rmw(post, r, Unary::SetBit(6), Dst::R(Reg8::A), 8),
        0xF8u8 => pre.rmw(post, r, Unary::SetBit(7), Dst::R(Reg8::B), 8),
        0xF9u8 => pre.rmw(post, r, Unary::SetBit(7), Dst::R(Reg8::C), 8),
        0xFAu8 => pre.rmw(post, r, Unary::SetBit(7), Dst::R(Reg8::D), 8),
        0xFBu8 => pre.rmw(post, r, Unary::SetBit(7), Dst::R(Reg8::E), 8),
        0xFCu8 => pre.rmw(post, r, Unary::SetBit(7), Dst::R(Reg8::H), 8),
        0xFDu8 => pre.rmw(post, r, Unary::SetBit(7), Dst::R(Reg8::L), 8),
        0xFEu8 => pre.rmw(post, r, Unary::SetBit(7), Dst::AtHL, 16),
        0xFFu8 => pre.rmw(post, r, Unary::SetBit(7), Dst::R(Reg8::A), 8),
    }
}

impl CPU {

    /// RLC B
    fn op_cb00(&mut self) -> (r: Result<u8, Fault>)
        requires
            old(self).wf(),
        ensures
            final(self).wf(),
            (*old(self)).rmw(*final(self), r, Unary::Rlc, Dst::R(Reg8::B), 8),
            r is Ok ==> final(self).program_counter == old(self).program_counter,
            r is Err ==> final(self).stopped == old(self).stopped,
    {
        self.exec_rmw(Unary::Rlc, Dst::R(Reg8::B), 8)
    }

    /// RLC C
    fn op_cb01(&mut self) -> (r: Result<u8, Fault>)
        requires
            old(self).wf(),
        ensures
            final(self).wf(),
            (*old(self)).rmw(*final(self), r, Unary::Rlc, Dst::R(Reg8::C), 8),
            r is Ok ==> final(self).program_counter == old(self).program_counter,
            r is Err ==> final(self).stopped == old(self).stopped,
    {
        self.exec_rmw(Unary::Rlc, Dst::R(Reg8::C), 8)
    }

    /// RLC D
    fn op_cb02(&mut self) -> (r: Result<u8, Fault>)
        requires
            old(self).wf(),
        ensures
            final(self).wf(),
            (*old(self)).rmw(*final(self), r, Unary::Rlc, Dst::R(Reg8::D), 8),
            r is Ok ==> final(self).program_counter == old(self).program_counter,
            r is Err ==> final(self).stopped == old(self).stopped,
    {
        self.exec_rmw(Unary::Rlc, Dst::R(Reg8::D), 8)
    }

    /// RLC E
    fn op_cb03(&mut self) -> (r: Result<u8, Fault>)
        requires
            old(self).wf(),
        ensures
            final(self).wf(),
            (*old(self)).rmw(*final(self), r, Unary::Rlc, Dst::R(Reg8::E), 8),
            r is Ok ==> final(self).program_counter == old(self).program_counter,
            r is Err ==> final(self).stopped == old(self).stopped,
    {
        self.exec_rmw(Unary::Rlc, Dst::R(Reg8::E), 8)
    }

    /// RLC H
    fn op_cb04(&mut self) -> (r: Result<u8, Fault>)
        requires
            old(self).wf(),
        ensures
            final(self).wf(),
            (*old(self)).rmw(*final(self), r, Unary::Rlc, Dst::R(Reg8::H), 8),
            r is Ok ==> final(self).program_counter == old(self).program_counter,
            r is Err ==> final(self).stopped == old(self).stopped,
    {
        self.exec_rmw(Unary::Rlc, Dst::R(Reg8::H), 8)
    }

    /// RLC L
    fn op_cb05(&mut self) -> (r: Result<u8, Fault>)
        requires
            old(self).wf(),
        ensures
            final(self).wf(),
            (*old(self)).rmw(*final(self), r, Unary::Rlc, Dst::R(Reg8::L), 8),
            r is Ok ==> final(self).program_counter == old(self).program_counter,
            r is Err ==> final(self).stopped == old(self).stopped,
    {
        self.exec_rmw(Unary::Rlc, Dst::R(Reg8::L), 8)
    }

    /// RLC (HL)
    fn op_cb06(&mut self) -> (r: Result<u8, Fault>)
        requires
            old(self).wf(),
        ensures
            final(self).wf(),
            (*old(self)).rmw(*final(self), r, Unary::Rlc, Dst::AtHL, 16),
            r is Ok ==> final(self).program_counter == old(self).program_counter,
            r is Err ==> final(self).stopped == old(self).stopped,
    {
        self.exec_rmw(Unary::Rlc, Dst::AtHL, 16)
    }

    /// RLC A
    fn op_cb07(&mut self) -> (r: Result<u8, Fault>)
        requires
            old(self).wf(),
        ensures
            final(self).wf(),
            (*old(self)).rmw(*final(self), r, Unary::Rlc, Dst::R(Reg8::A), 8),
            r is Ok ==> final(self).program_counter == old(self).program_counter,
            r is Err ==> final(self).stopped == old(self).stopped,
    {
        self.exec_rmw(Unary::Rlc, Dst::R(Reg8::A), 8)
    }

    /// RRC B
    fn op_cb08(&mut self) -> (r: Result<u8, Fault>)
        requires
            old(self).wf(),
        ensures
            final(self).wf(),
            (*old(self)).rmw(*final(self), r, Unary::Rrc, Dst::R(Reg8::B), 8),
            r is Ok ==> final(self).program_counter == old(self).program_counter,
            r is Err ==> final(self).stopped == old(self).stopped,
    {
        self.exec_rmw(Unary::Rrc, Dst::R(Reg8::B), 8)
    }

    /// RRC C
    fn op_cb09(&mut self) -> (r: Result<u8, Fault>)
        requires
            old(self).wf(),
        ensures
            final(self).wf(),
            (*old(self)).rmw(*final(self), r, Unary::Rrc, Dst::R(Reg8::C), 8),
            r is Ok ==> final(self).program_counter == old(self).program_counter,
            r is Err ==> final(self).stopped == old(self).stopped,
    {
        self.exec_rmw(Unary::Rrc, Dst::R(Reg8::C), 8)
    }

    /// RRC D
    fn op_cb0a(&mut self) -> (r: Result<u8, Fault>)
        requires
            old(self).wf(),
        ensures
            final(self).wf(),
            (*old(self)).rmw(*final(self), r, Unary::Rrc, Dst::R(Reg8::D), 8),
            r is Ok ==> final(self).program_counter == old(self).program_counter,
            r is Err ==> final(self).stopped == old(self).stopped,
    {
        self.exec_rmw(Unary::Rrc, Dst::R(Reg8::D), 8)
    }

    /// RRC E
    fn op_cb0b(&mut self) -> (r: Result<u8, Fault>)
        requires
            old(self).wf(),
        ensures
            final(self).wf(),
            (*old(self)).rmw(*final(self), r, Unary::Rrc, Dst::R(Reg8::E), 8),
            r is Ok ==> final(self).program_counter == old(self).program_counter,
            r is Err ==> final(self).stopped == old(self).stopped,
    {
        self.exec_rmw(Unary::Rrc, Dst::R(Reg8::E), 8)
    }

    /// RRC H
    fn op_cb0c(&mut self) -> (r: Result<u8, Fault>)
        requires
            old(self).wf(),
        ensures
            final(self).wf(),
            (*old(self)).rmw(*final(self), r, Unary::Rrc, Dst::R(Reg8::H), 8),
            r is Ok ==> final(self).program_counter == old(self).program_counter,
            r is Err ==> final(self).stopped == old(self).stopped,
    {
        self.exec_rmw(Unary::Rrc, Dst::R(Reg8::H), 8)
    }

    /// RRC L
    fn op_cb0d(&mut self) -> (r: Result<u8, Fault>)
        requires
            old(self).wf(),
        ensures
            final(self).wf(),
            (*old(self)).rmw(*final(self), r, Unary::Rrc, Dst::R(Reg8::L), 8),
            r is Ok ==> final(self).program_counter == old(self).program_counter,
            r is Err ==> final(self).stopped == old(self).stopped,
    {
        self.exec_rmw(Unary::Rrc, Dst::R(Reg8::L), 8)
    }

    /// RRC (HL)
    fn op_cb0e(&mut self) -> (r: Result<u8, Fault>)
        requires
            old(self).wf(),
        ensures
            final(self).wf(),
            (*old(self)).rmw(*final(self), r, Unary::Rrc, Dst::AtHL, 16),
            r is Ok ==> final(self).program_counter == old(self).program_counter,
            r is Err ==> final(self).stopped == old(self).stopped,
    {
        self.exec_rmw(Unary::Rrc, Dst::AtHL, 16)
    }

    /// RRC A
    fn op_cb0f(&mut self) -> (r: Result<u8, Fault>)
        requires
            old(self).wf(),
        ensures
            final(self).wf(),
            (*old(self)).rmw(*final(self), r, Unary::Rrc, Dst::R(Reg8::A), 8),
            r is Ok ==> final(self).program_counter == old(self).program_counter,
            r is Err ==> final(self).stopped == old(self).stopped,
    {
        self.exec_rmw(Unary::Rrc, Dst::R(Reg8::A), 8)
    }

    /// RL B
    fn op_cb10(&mut self) -> (r: Result<u8, Fault>)
        requires
            old(self).wf(),
        ensures
            final(self).wf(),
            (*old(self)).rmw(*final(self), r, Unary::Rl, Dst::R(Reg8::B), 8),
            r is Ok ==> final(self).program_counter == old(self).program_counter,
            r is Err ==> final(self).stopped == old(self).stopped,
    {
        self.exec_rmw(Unary::Rl, Dst::R(Reg8::B), 8)
    }

    /// RL C
    fn op_cb11(&mut self) -> (r: Result<u8, Fault>)
        requires
            old(self).wf(),
        ensures
            final(self).wf(),
            (*old(self)).rmw(*final(self), r, Unary::Rl, Dst::R(Reg8::C), 8),
            r is Ok ==> final(self).program_counter == old(self).program_counter,
            r is Err ==> final(self).stopped == old(self).stopped,
    {
        self.exec_rmw(Unary::Rl, Dst::R(Reg8::C), 8)
    }

    /// RL D
    fn op_cb12(&mut self) -> (r: Result<u8, Fault>)
        requires
            old(self).wf(),
        ensures
            final(self).wf(),
            (*old(self)).rmw(*final(self), r, Unary::Rl, Dst::R(Reg8::D), 8),
            r is Ok ==> final(self).program_counter == old(self).program_counter,
            r is Err ==> final(self).stopped == old(self).stopped,
    {
        self.exec_rmw(Unary::Rl, Dst::R(Reg8::D), 8)
    }

    /// RL E
    fn op_cb13(&mut self) -> (r: Result<u8, Fault>)
        requires
            old(self).wf(),
        ensures
            final(self).wf(),
            (*old(self)).rmw(*final(self), r, Unary::Rl, Dst::R(Reg8::E), 8),
            r is Ok ==> final(self).program_counter == old(self).program_counter,
            r is Err ==> final(self).stopped == old(self).stopped,
    {
        self.exec_rmw(Unary::Rl, Dst::R(Reg8::E), 8)
    }

    /// RL H
    fn op_cb14(&mut self) -> (r: Result<u8, Fault>)
        requires
            old(self).wf(),
        ensures
            final(self).wf(),
            (*old(self)).rmw(*final(self), r, Unary::Rl, Dst::R(Reg8::H), 8),
            r is Ok ==> final(self).program_counter == old(self).program_counter,
            r is Err ==> final(self).stopped == old(self).stopped,
    {
        self.exec_rmw(Unary::Rl, Dst::R(Reg8::H), 8)
    }

    /// RL L
    fn op_cb15(&mut self) -> (r: Result<u8, Fault>)
        requires
            old(self).wf(),
        ensures
            final(self).wf(),
            (*old(self)).rmw(*final(self), r, Unary::Rl, Dst::R(Reg8::L), 8),
            r is Ok ==> final(self).program_counter == old(self).program_counter,
            r is Err ==> final(self).stopped == old(self).stopped,
    {
        self.exec_rmw(Unary::Rl, Dst::R(Reg8::L), 8)
    }

    /// RL (HL)
    fn op_cb16(&mut self) -> (r: Result<u8, Fault>)
        requires
            old(self).wf(),
        ensures
            final(self).wf(),
            (*old(self)).rmw(*final(self), r, Unary::Rl, Dst::AtHL, 16),
            r is Ok ==> final(self).program_counter == old(self).program_counter,
            r is Err ==> final(self).stopped == old(self).stopped,
    {
        self.exec_rmw(Unary::Rl, Dst::AtHL, 16)
    }

    /// RL A
    fn op_cb17(&mut self) -> (r: Result<u8, Fault>)
        requires
            old(self).wf(),
        ensures
            final(self).wf(),
            (*old(self)).rmw(*final(self), r, Unary::Rl, Dst::R(Reg8::A), 8),
            r is Ok ==> final(self).program_counter == old(self).program_counter,
            r is Err ==> final(self).stopped == old(self).stopped,
    {
        self.exec_rmw(Unary::Rl, Dst::R(Reg8::A), 8)
    }

    /// RR B
    fn op_cb18(&mut self) -> (r: Result<u8, Fault>)
        requires
            old(self).wf(),
        ensures
            final(self).wf(),
            (*old(self)).rmw(*final(self), r, Unary::Rr, Dst::R(Reg8::B), 8),
            r is Ok ==> final(self).program_counter == old(self).program_counter,
            r is Err ==> final(self).stopped == old(self).stopped,
    {
        self.exec_rmw(Unary::Rr, Dst::R(Reg8::B), 8)
    }

    /// RR C
    fn op_cb19(&mut self) -> (r: Result<u8, Fault>)
        requires
            old(self).wf(),
        ensures
            final(self).wf(),
            (*old(self)).rmw(*final(self), r, Unary::Rr, Dst::R(Reg8::C), 8),
            r is Ok ==> final(self).program_counter == old(self).program_counter,
            r is Err ==> final(self).stopped == old(self).stopped,
    {
        self.exec_rmw(Unary::Rr, Dst::R(Reg8::C), 8)
    }

    /// RR D
    fn op_cb1a(&mut self) -> (r: Result<u8, Fault>)
        requires
            old(self).wf(),
        ensures
            final(self).wf(),
            (*old(self)).rmw(*final(self), r, Unary::Rr, Dst::R(Reg8::D), 8),
            r is Ok ==> final(self).program_counter == old(self).program_counter,
            r is Err ==> final(self).stopped == old(self).stopped,
    {
        self.exec_rmw(Unary::Rr, Dst::R(Reg8::D), 8)
    }

    /// RR E
    fn op_cb1b(&mut self) -> (r: Result<u8, Fault>)
        requires
            old(self).wf(),
        ensures
            final(self).wf(),
            (*old(self)).rmw(*final(self), r, Unary::Rr, Dst::R(Reg8::E), 8),
            r is Ok ==> final(self).program_counter == old(self).program_counter,
            r is Err ==> final(self).stopped == old(self).stopped,
    {
        self.exec_rmw(Unary::Rr, Dst::R(Reg8::E), 8)
    }

    /// RR H
    fn op_cb1c(&mut self) -> (r: Result<u8, Fault>)
        requires
            old(self).wf(),
        ensures
            final(self).wf(),
            (*old(self)).rmw(*final(self), r, Unary::Rr, Dst::R(Reg8::H), 8),
            r is Ok ==> final(self).program_counter == old(self).program_counter,
            r is Err ==> final(self).stopped == old(self).stopped,
    {
        self.exec_rmw(Unary::Rr, Dst::R(Reg8::H), 8)
    }

    /// RR L
    fn op_cb1d(&mut self) -> (r: Result<u8, Fault>)
        requires
            old(self).wf(),
        ensures
            final(self).wf(),
            (*old(self)).rmw(*final(self), r, Unary::Rr, Dst::R(Reg8::L), 8),
            r is Ok ==> final(self).program_counter == old(self).program_counter,
            r is Err ==> final(self).stopped == old(self).stopped,
    {
        self.exec_rmw(Unary::Rr, Dst::R(Reg8::L), 8)
    }

    /// RR (HL)
    fn op_cb1e(&mut self) -> (r: Result<u8, Fault>)
        requires
            old(self).wf(),
        ensures
            final(self).wf(),
            (*old(self)).rmw(*final(self), r, Unary::Rr, Dst::AtHL, 16),
            r is Ok ==> final(self).program_counter == old(self).program_counter,
            r is Err ==> final(self).stopped == old(self).stopped,
    {
        self.exec_rmw(Unary::Rr, Dst::AtHL, 16)
    }

    /// RR A
    fn op_cb1f(&mut self) -> (r: Result<u8, Fault>)
        requires
            old(self).wf(),
        ensures
            final(self).wf(),
            (*old(self)).rmw(*final(self), r, Unary::Rr, Dst::R(Reg8::A), 8),
            r is Ok ==> final(self).program_counter == old(self).program_counter,
            r is Err ==> final(self).stopped == old(self).stopped,
    {
        self.exec_rmw(Unary::Rr, Dst::R(Reg8::A), 8)
    }

    /// SLA B
    fn op_cb20(&mut self) -> (r: Result<u8, Fault>)
        requires
            old(self).wf(),
        ensures
            final(self).wf(),
            (*old(self)).rmw(*final(self), r, Unary::Sla, Dst::R(Reg8::B), 8),
            r is Ok ==> final(self).program_counter == old(self).program_counter,
            r is Err ==> final(self).stopped == old(self).stopped,
    {
        self.exec_rmw(Unary::Sla, Dst::R(Reg8::B), 8)
    }

    /// SLA C
    fn op_cb21(&mut self) -> (r: Result<u8, Fault>)
        requires
            old(self).wf(),
        ensures
            final(self).wf(),
            (*old(self)).rmw(*final(self), r, Unary::Sla, Dst::R(Reg8::C), 8),
            r is Ok ==> final(self).program_counter == old(self).program_counter,
            r is Err ==> final(self).stopped == old(self).stopped,
    {
        self.exec_rmw(Unary::Sla, Dst::R(Reg8::C), 8)
    }

    /// SLA D
    fn op_cb22(&mut self) -> (r: Result<u8, Fault>)
        requires
            old(self).wf(),
        ensures
            final(self).wf(),
            (*old(self)).rmw(*final(self), r, Unary::Sla, Dst::R(Reg8::D), 8),
            r is Ok ==> final(self).program_counter == old(self).program_counter,
            r is Err ==> final(self).stopped == old(self).stopped,
    {
        self.exec_rmw(Unary::Sla, Dst::R(Reg8::D), 8)
    }

    /// SLA E
    fn op_cb23(&mut self) -> (r: Result<u8, Fault>)
        requires
            old(self).wf(),
        ensures
            final(self).wf(),
            (*old(self)).rmw(*final(self), r, Unary::Sla, Dst::R(Reg8::E), 8),
            r is Ok ==> final(self).program_counter == old(self).program_counter,
            r is Err ==> final(self).stopped == old(self).stopped,
    {
        self.exec_rmw(Unary::Sla, Dst::R(Reg8::E), 8)
    }

    /// SLA H
    fn op_cb24(&mut self) -> (r: Result<u8, Fault>)
        requires
            old(self).wf(),
        ensures
            final(self).wf(),
            (*old(self)).rmw(*final(self), r, Unary::Sla, Dst::R(Reg8::H), 8),
            r is Ok ==> final(self).program_counter == old(self).program_counter,
            r is Err ==> final(self).stopped == old(self).stopped,
    {
        self.exec_rmw(Unary::Sla, Dst::R(Reg8::H), 8)
    }

    /// SLA L
    fn op_cb25(&mut self) -> (r: Result<u8, Fault>)
        requires
            old(self).wf(),
        ensures
            final(self).wf(),
            (*old(self)).rmw(*final(self), r, Unary::Sla, Dst::R(Reg8::L), 8),
            r is Ok ==> final(self).program_counter == old(self).program_counter,
            r is Err ==> final(self).stopped == old(self).stopped,
    {
        self.exec_rmw(Unary::Sla, Dst::R(Reg8::L), 8)
    }

    /// SLA (HL)
    fn op_cb26(&mut self) -> (r: Result<u8, Fault>)
        requires
            old(self).wf(),
        ensures
            final(self).wf(),
            (*old(self)).rmw(*final(self), r, Unary::Sla, Dst::AtHL, 16),
            r is Ok ==> final(self).program_counter == old(self).program_counter,
            r is Err ==> final(self).stopped == old(self).stopped,
    {
        self.exec_rmw(Unary::Sla, Dst::AtHL, 16)
    }

    /// SLA A
    fn op_cb27(&mut self) -> (r: Result<u8, Fault>)
        requires
            old(self).wf(),
        ensures
            final(self).wf(),
            (*old(self)).rmw(*final(self), r, Unary::Sla, Dst::R(Reg8::A), 8),
            r is Ok ==> final(self).program_counter == old(self).program_counter,
            r is Err ==> final(self).stopped == old(self).stopped,
    {
        self.exec_rmw(Unary::Sla, Dst::R(Reg8::A), 8)
    }

    /// SRA B
    fn op_cb28(&mut self) -> (r: Result<u8, Fault>)
        requires
            old(self).wf(),
        ensures
            final(self).wf(),
            (*old(self)).rmw(*final(self), r, Unary::Sra, Dst::R(Reg8::B), 8),
            r is Ok ==> final(self).program_counter == old(self).program_counter,
            r is Err ==> final(self).stopped == old(self).stopped,
    {
        self.exec_rmw(Unary::Sra, Dst::R(Reg8::B), 8)
    }

    /// SRA C
    fn op_cb29(&mut self) -> (r: Result<u8, Fault>)
        requires
            old(self).wf(),
        ensures
            final(self).wf(),
            (*old(self)).rmw(*final(self), r, Unary::Sra, Dst::R(Reg8::C), 8),
            r is Ok ==> final(self).program_counter == old(self).program_counter,
            r is Err ==> final(self).stopped == old(self).stopped,
    {
        self.exec_rmw(Unary::Sra, Dst::R(Reg8::C), 8)
    }

    /// SRA D
    fn op_cb2a(&mut self) -> (r: Result<u8, Fault>)
        requires
            old(self).wf(),
        ensures
            final(self).wf(),
            (*old(self)).rmw(*final(self), r, Unary::Sra, Dst::R(Reg8::D), 8),
            r is Ok ==> final(self).program_counter == old(self).program_counter,
            r is Err ==> final(self).stopped == old(self).stopped,
    {
        self.exec_rmw(Unary::Sra, Dst::R(Reg8::D), 8)
    }

    /// SRA E
    fn op_cb2b(&mut self) -> (r: Result<u8, Fault>)
        requires
            old(self).wf(),
        ensures
            final(self).wf(),
            (*old(self)).rmw(*final(self), r, Unary::Sra, Dst::R(Reg8::E), 8),
            r is Ok ==> final(self).program_counter == old(self).program_counter,
            r is Err ==> final(self).stopped == old(self).stopped,
    {
        self.exec_rmw(Unary::Sra, Dst::R(Reg8::E), 8)
    }

    /// SRA H
    fn op_cb2c(&mut self) -> (r: Result<u8, Fault>)
        requires
            old(self).wf(),
        ensures
            final(self).wf(),
            (*old(self)).rmw(*final(self), r, Unary::Sra, Dst::R(Reg8::H), 8),
            r is Ok ==> final(self).program_counter == old(self).program_counter,
            r is Err ==> final(self).stopped == old(self).stopped,
    {
        self.exec_rmw(Unary::Sra, Dst::R(Reg8::H), 8)
    }

    /// SRA L
    fn op_cb2d(&mut self) -> (r: Result<u8, Fault>)
        requires
            old(self).wf(),
        ensures
            final(self).wf(),
            (*old(self)).rmw(*final(self), r, Unary::Sra, Dst::R(Reg8::L), 8),
            r is Ok ==> final(self).program_counter == old(self).program_counter,
            r is Err ==> final(self).stopped == old(self).stopped,
    {
        self.exec_rmw(Unary::Sra, Dst::R(Reg8::L), 8)
    }

    /// SRA (HL)
    fn op_cb2e(&mut self) -> (r: Result<u8, Fault>)
        requires
            old(self).wf(),
        ensures
            final(self).wf(),
            (*old(self)).rmw(*final(self), r, Unary::Sra, Dst::AtHL, 16),
            r is Ok ==> final(self).program_counter == old(self).program_counter,
            r is Err ==> final(self).stopped == old(self).stopped,
    {
        self.exec_rmw(Unary::Sra, Dst::AtHL, 16)
    }

    /// SRA A
    fn op_cb2f(&mut self) -> (r: Result<u8, Fault>)
        requires
            old(self).wf(),
        ensures
            final(self).wf(),
            (*old(self)).rmw(*final(self), r, Unary::Sra, Dst::R(Reg8::A), 8),
            r is Ok ==> final(self).program_counter == old(self).program_counter,
            r is Err ==> final(self).stopped == old(self).stopped,
    {
        self.exec_rmw(Unary::Sra, Dst::R(Reg8::A), 8)
    }

    /// SWAP B
    fn op_cb30(&mut self) -> (r: Result<u8, Fault>)
        requires
            old(self).wf(),
        ensures
            final(self).wf(),
            (*old(self)).rmw(*final(self), r, Unary::Swap, Dst::R(Reg8::B), 8),
            r is Ok ==> final(self).program_counter == old(self).program_counter,
            r is Err ==> final(self).stopped == old(self).stopped,
    {
        self.exec_rmw(Unary::Swap, Dst::R(Reg8::B), 8)
    }

    /// SWAP C
    fn op_cb31(&mut self) -> (r: Result<u8, Fault>)
        requires
            old(self).wf(),
        ensures
            final(self).wf(),
            (*old(self)).rmw(*final(self), r, Unary::Swap, Dst::R(Reg8::C), 8),
            r is Ok ==> final(self).program_counter == old(self).program_counter,
            r is Err ==> final(self).stopped == old(self).stopped,
    {
        self.exec_rmw(Unary::Swap, Dst::R(Reg8::C), 8)
    }

    /// SWAP D
    fn op_cb32(&mut self) -> (r: Result<u8, Fault>)
        requires
            old(self).wf(),
        ensures
            final(self).wf(),
            (*old(self)).rmw(*final(self), r, Unary::Swap, Dst::R(Reg8::D), 8),
            r is Ok ==> final(self).program_counter == old(self).program_counter,
            r is Err ==> final(self).stopped == old(self).stopped,
    {
        self.exec_rmw(Unary::Swap, Dst::R(Reg8::D), 8)
    }

    /// SWAP E
    fn op_cb33(&mut self) -> (r: Result<u8, Fault>)
        requires
            old(self).wf(),
        ensures
            final(self).wf(),
            (*old(self)).rmw(*final(self), r, Unary::Swap, Dst::R(Reg8::E), 8),
            r is Ok ==> final(self).program_counter == old(self).program_counter,
            r is Err ==> final(self).stopped == old(self).stopped,
    {
        self.exec_rmw(Unary::Swap, Dst::R(Reg8::E), 8)
    }

    /// SWAP H
    fn op_cb34(&mut self) -> (r: Result<u8, Fault>)
        requires
            old(self).wf(),
        ensures
            final(self).wf(),
            (*old(self)).rmw(*final(self), r, Unary::Swap, Dst::R(Reg8::H), 8),
            r is Ok ==> final(self).program_counter == old(self).program_counter,
            r is Err ==> final(self).stopped == old(self).stopped,
    {
        self.exec_rmw(Unary::Swap, Dst::R(Reg8::H), 8)
    }

    /// SWAP L
    fn op_cb35(&mut self) -> (r: Result<u8, Fault>)
        requires
            old(self).wf(),
        ensures
            final(self).wf(),
            (*old(self)).rmw(*final(self), r, Unary::Swap, Dst::R(Reg8::L), 8),
            r is Ok ==> final(self).program_counter == old(self).program_counter,
            r is Err ==> final(self).stopped == old(self).stopped,
    {
        self.exec_rmw(Unary::Swap, Dst::R(Reg8::L), 8)
    }

    /// SWAP (HL)
    fn op_cb36(&mut self) -> (r: Result<u8, Fault>)
        requires
            old(self).wf(),
        ensures
            final(self).wf(),
            (*old(self)).rmw(*final(self), r, Unary::Swap, Dst::AtHL, 16),
            r is Ok ==> final(self).program_counter == old(self).program_counter,
            r is Err ==> final(self).stopped == old(self).stopped,
    {
        self.exec_rmw(Unary::Swap, Dst::AtHL, 16)
    }

    /// SWAP A
    fn op_cb37(&mut self) -> (r: Result<u8, Fault>)
        requires
            old(self).wf(),
        ensures
            final(self).wf(),
            (*old(self)).rmw(*final(self), r, Unary::Swap, Dst::R(Reg8::A), 8),
            r is Ok ==> final(self).program_counter == old(self).program_counter,
            r is Err ==> final(self).stopped == old(self).stopped,
    {
        self.exec_rmw(Unary::Swap, Dst::R(Reg8::A), 8)
    }

    /// SRL B
    fn op_cb38(&mut self) -> (r: Result<u8, Fault>)
        requires
            old(self).wf(),
        ensures
            final(self).wf(),
            (*old(self)).rmw(*final(self), r, Unary::Srl, Dst::R(Reg8::B), 8),
            r is Ok ==> final(self).program_counter == old(self).program_counter,
            r is Err ==> final(self).stopped == old(self).stopped,
    {
        self.exec_rmw(Unary::Srl, Dst::R(Reg8::B), 8)
    }

    /// SRL C
    fn op_cb39(&mut self) -> (r: Result<u8, Fault>)
        requires
            old(self).wf(),
        ensures
            final(self).wf(),
            (*old(self)).rmw(*final(self), r, Unary::Srl, Dst::R(Reg8::C), 8),
            r is Ok ==> final(self).program_counter == old(self).program_counter,
            r is Err ==> final(self).stopped == old(self).stopped,
    {
        self.exec_rmw(Unary::Srl, Dst::R(Reg8::C), 8)
    }

    /// SRL D
    fn op_cb3a(&mut self) -> (r: Result<u8, Fault>)
        requires
            old(self).wf(),
        ensures
            final(self).wf(),
            (*old(self)).rmw(*final(self), r, Unary::Srl, Dst::R(Reg8::D), 8),
            r is Ok ==> final(self).program_counter == old(self).program_counter,
            r is Err ==> final(self).stopped == old(self).stopped,
    {
        self.exec_rmw(Unary::Srl, Dst::R(Reg8::D), 8)
    }

    /// SRL E
    fn op_cb3b(&mut self) -> (r: Result<u8, Fault>)
        requires
            old(self).wf(),
        ensures
            final(self).wf(),
            (*old(self)).rmw(*final(self), r, Unary::Srl, Dst::R(Reg8::E), 8),
            r is Ok ==> final(self).program_counter == old(self).program_counter,
            r is Err ==> final(self).stopped == old(self).stopped,
    {
        self.exec_rmw(Unary::Srl, Dst::R(Reg8::E), 8)
    }

    /// SRL H
    fn op_cb3c(&mut self) -> (r: Result<u8, Fault>)
        requires
            old(self).wf(),
        ensures
            final(self).wf(),
            (*old(self)).rmw(*final(self), r, Unary::Srl, Dst::R(Reg8::H), 8),
            r is Ok ==> final(self).program_counter == old(self).program_counter,
            r is Err ==> final(self).stopped == old(self).stopped,
    {
        self.exec_rmw(Unary::Srl, Dst::R(Reg8::H), 8)
    }

    /// SRL L
    fn op_cb3d(&mut self) -> (r: Result<u8, Fault>)
        requires
            old(self).wf(),
        ensures
            final(self).wf(),
            (*old(self)).rmw(*final(self), r, Unary::Srl, Dst::R(Reg8::L), 8),
            r is Ok ==> final(self).program_counter == old(self).program_counter,
            r is Err ==> final(self).stopped == old(self).stopped,
    {
        self.exec_rmw(Unary::Srl, Dst::R(Reg8::L), 8)
    }

    /// SRL (HL)
    fn op_cb3e(&mut self) -> (r: Result<u8, Fault>)
        requires
            old(self).wf(),
        ensures
            final(self).wf(),
            (*old(self)).rmw(*final(self), r, Unary::Srl, Dst::AtHL, 16),
            r is Ok ==> final(self).program_counter == old(self).program_counter,
            r is Err ==> final(self).stopped == old(self).stopped,
    {
        self.exec_rmw(Unary::Srl, Dst::AtHL, 16)
    }

    /// SRL A
    fn op_cb3f(&mut self) -> (r: Result<u8, Fault>)
        requires
            old(self).wf(),
        ensures
            final(self).wf(),
            (*old(self)).rmw(*final(self), r, Unary::Srl, Dst::R(Reg8::A), 8),
            r is Ok ==> final(self).program_counter == old(self).program_counter,
            r is Err ==> final(self).stopped == old(self).stopped,
    {
        self.exec_rmw(Unary::Srl, Dst::R(Reg8::A), 8)
    }

    /// BIT 0,B
    fn op_cb40(&mut self) -> (r: Result<u8, Fault>)
        requires
            old(self).wf(),
        ensures
            final(self).wf(),
            (*old(self)).bit_test(*final(self), r, 0, Src::R(Reg8::B), 8),
            r is Ok ==> final(self).program_counter == old(self).program_counter,
            r is Err ==> final(self).stopped == old(self).stopped,
    {
        self.exec_bit(0, Src::R(Reg8::B), 8)
    }

    /// BIT 0,C
    fn op_cb41(&mut self) -> (r: Result<u8, Fault>)
        requires
            old(self).wf(),
        ensures
            final(self).wf(),
            (*old(self)).bit_test(*final(self), r, 0, Src::R(Reg8::C), 8),
            r is Ok ==> final(self).program_counter == old(self).program_counter,
            r is Err ==> final(self).stopped == old(self).stopped,
    {
        self.exec_bit(0, Src::R(Reg8::C), 8)
    }

    /// BIT 0,D
    fn op_cb42(&mut self) -> (r: Result<u8, Fault>)
        requires
            old(self).wf(),
        ensures
            final(self).wf(),
            (*old(self)).bit_test(*final(self), r, 0, Src::R(Reg8::D), 8),
            r is Ok ==> final(self).program_counter == old(self).program_counter,
            r is Err ==> final(self).stopped == old(self).stopped,
    {
        self.exec_bit(0, Src::R(Reg8::D), 8)
    }

    /// BIT 0,E
    fn op_cb43(&mut self) -> (r: Result<u8, Fault>)
        requires
            old(self).wf(),
        ensures
            final(self).wf(),
            (*old(self)).bit_test(*final(self), r, 0, Src::R(Reg8::E), 8),
            r is Ok ==> final(self).program_counter == old(self).program_counter,
            r is Err ==> final(self).stopped == old(self).stopped,
    {
        self.exec_bit(0, Src::R(Reg8::E), 8)
    }

    /// BIT 0,H
    fn op_cb44(&mut self) -> (r: Result<u8, Fault>)
        requires
            old(self).wf(),
        ensures
            final(self).wf(),
            (*old(self)).bit_test(*final(self), r, 0, Src::R(Reg8::H), 8),
            r is Ok ==> final(self).program_counter == old(self).program_counter,
            r is Err ==> final(self).stopped == old(self).stopped,
    {
        self.exec_bit(0, Src::R(Reg8::H), 8)
    }

    /// BIT 0,L
    fn op_cb45(&mut self) -> (r: Result<u8, Fault>)
        requires
            old(self).wf(),
        ensures
            final(self).wf(),
            (*old(self)).bit_test(*final(self), r, 0, Src::R(Reg8::L), 8),
            r is Ok ==> final(self).program_counter == old(self).program_counter,
            r is Err ==> final(self).stopped == old(self).stopped,
    {
        self.exec_bit(0, Src::R(Reg8::L), 8)
    }

    /// BIT 0,(HL)
    fn op_cb46(&mut self) -> (r: Result<u8, Fault>)
        requires
            old(self).wf(),
        ensures
            final(self).wf(),
            (*old(self)).bit_test(*final(self), r, 0, Src::AtHL, 12),
            r is Ok ==> final(self).program_counter == old(self).program_counter,
            r is Err ==> final(self).stopped == old(self).stopped,
    {
        self.exec_bit(0, Src::AtHL, 12)
    }

    /// BIT 0,A
    fn op_cb47(&mut self) -> (r: Result<u8, Fault>)
        requires
            old(self).wf(),
        ensures
            final(self).wf(),
            (*old(self)).bit_test(*final(self), r, 0, Src::R(Reg8::A), 8),
            r is Ok ==> final(self).program_counter == old(self).program_counter,
            r is Err ==> final(self).stopped == old(self).stopped,
    {
        self.exec_bit(0, Src::R(Reg8::A), 8)
    }

    /// BIT 1,B
    fn op_cb48(&mut self) -> (r: Result<u8, Fault>)
        requires
            old(self).wf(),
        ensures
            final(self).wf(),
            (*old(self)).bit_test(*final(self), r, 1, Src::R(Reg8::B), 8),
            r is Ok ==> final(self).program_counter == old(self).program_counter,
            r is Err ==> final(self).stopped == old(self).stopped,
    {
        self.exec_bit(1, Src::R(Reg8::B), 8)
    }

    /// BIT 1,C
    fn op_cb49(&mut self) -> (r: Result<u8, Fault>)
        requires
            old(self).wf(),
        ensures
            final(self).wf(),
            (*old(self)).bit_test(*final(self), r, 1, Src::R(Reg8::C), 8),
            r is Ok ==> final(self).program_counter == old(self).program_counter,
            r is Err ==> final(self).stopped == old(self).stopped,
    {
        self.exec_bit(1, Src::R(Reg8::C), 8)
    }

    /// BIT 1,D
    fn op_cb4a(&mut self) -> (r: Result<u8, Fault>)
        requires
            old(self).wf(),
        ensures
            final(self).wf(),
            (*old(self)).bit_test(*final(self), r, 1, Src::R(Reg8::D), 8),
            r is Ok ==> final(self).program_counter == old(self).program_counter,
            r is Err ==> final(self).stopped == old(self).stopped,
    {
        self.exec_bit(1, Src::R(Reg8::D), 8)
    }

    /// BIT 1,E
    fn op_cb4b(&mut self) -> (r: Result<u8, Fault>)
        requires
            old(self).wf(),
        ensures
            final(self).wf(),
            (*old(self)).bit_test(*final(self), r, 1, Src::R(Reg8::E), 8),
            r is Ok ==> final(self).program_counter == old(self).program_counter,
            r is Err ==> final(self).stopped == old(self).stopped,
    {
        self.exec_bit(1, Src::R(Reg8::E), 8)
    }

    /// BIT 1,H
    fn op_cb4c(&mut self) -> (r: Result<u8, Fault>)
        requires
            old(self).wf(),
        ensures
            final(self).wf(),
            (*old(self)).bit_test(*final(self), r, 1, Src::R(Reg8::H), 8),
            r is Ok ==> final(self).program_counter == old(self).program_counter,
            r is Err ==> final(self).stopped == old(self).stopped,
    {
        self.exec_bit(1, Src::R(Reg8::H), 8)
    }

    /// BIT 1,L
    fn op_cb4d(&mut self) -> (r: Result<u8, Fault>)
        requires
            old(self).wf(),
        ensures
            final(self).wf(),
            (*old(self)).bit_test(*final(self), r, 1, Src::R(Reg8::L), 8),
            r is Ok ==> final(self).program_counter == old(self).program_counter,
            r is Err ==> final(self).stopped == old(self).stopped,
    {
        self.exec_bit(1, Src::R(Reg8::L), 8)
    }

    /// BIT 1,(HL)
    fn op_cb4e(&mut self) -> (r: Result<u8, Fault>)
        requires
            old(self).wf(),
        ensures
            final(self).wf(),
            (*old(self)).bit_test(*final(self), r, 1, Src::AtHL, 12),
            r is Ok ==> final(self).program_counter == old(self).program_counter,
            r is Err ==> final(self).stopped == old(self).stopped,
    {
        self.exec_bit(1, Src::AtHL, 12)
    }

    /// BIT 1,A
    fn op_cb4f(&mut self) -> (r: Result<u8, Fault>)
        requires
            old(self).wf(),
        ensures
            final(self).wf(),
            (*old(self)).bit_test(*final(self), r, 1, Src::R(Reg8::A), 8),
            r is Ok ==> final(self).program_counter == old(self).program_counter,
            r is Err ==> final(self).stopped == old(self).stopped,
    {
        self.exec_bit(1, Src::R(Reg8::A), 8)
    }

    /// BIT 2,B
    fn op_cb50(&mut self) -> (r: Result<u8, Fault>)
        requires
            old(self).wf(),
        ensures
            final(self).wf(),
            (*old(self)).bit_test(*final(self), r, 2, Src::R(Reg8::B), 8),
            r is Ok ==> final(self).program_counter == old(self).program_counter,
            r is Err ==> final(self).stopped == old(self).stopped,
    {
        self.exec_bit(2, Src::R(Reg8::B), 8)
    }

    /// BIT 2,C
    fn op_cb51(&mut self) -> (r: Result<u8, Fault>)
        requires
            old(self).wf(),
        ensures
            final(self).wf(),
            (*old(self)).bit_test(*final(self), r, 2, Src::R(Reg8::C), 8),
            r is Ok ==> final(self).program_counter == old(self).program_counter,
            r is Err ==> final(self).stopped == old(self).stopped,
    {
        self.exec_bit(2, Src::R(Reg8::C), 8)
    }

    /// BIT 2,D
    fn op_cb52(&mut self) -> (r: Result<u8, Fault>)
        requires
            old(self).wf(),
        ensures
            final(self).wf(),
            (*old(self)).bit_test(*final(self), r, 2, Src::R(Reg8::D), 8),
            r is Ok ==> final(self).program_counter == old(self).program_counter,
            r is Err ==> final(self).stopped == old(self).stopped,
    {
        self.exec_bit(2, Src::R(Reg8::D), 8)
    }

    /// BIT 2,E
    fn op_cb53(&mut self) -> (r: Result<u8, Fault>)
        requires
            old(self).wf(),
        ensures
            final(self).wf(),
            (*old(self)).bit_test(*final(self), r, 2, Src::R(Reg8::E), 8),
            r is Ok ==> final(self).program_counter == old(self).program_counter,
            r is Err ==> final(self).stopped == old(self).stopped,
    {
        self.exec_bit(2, Src::R(Reg8::E), 8)
    }

    /// BIT 2,H
    fn op_cb54(&mut self) -> (r: Result<u8, Fault>)
        requires
            old(self).wf(),
        ensures
            final(self).wf(),
            (*old(self)).bit_test(*final(self), r, 2, Src::R(Reg8::H), 8),
            r is Ok ==> final(self).program_counter == old(self).program_counter,
            r is Err ==> final(self).stopped == old(self).stopped,
    {
        self.exec_bit(2, Src::R(Reg8::H), 8)
    }

    /// BIT 2,L
    fn op_cb55(&mut self) -> (r: Result<u8, Fault>)
        requires
            old(self).wf(),
        ensures
            final(self).wf(),
            (*old(self)).bit_test(*final(self), r, 2, Src::R(Reg8::L), 8),
            r is Ok ==> final(self).program_counter == old(self).program_counter,
            r is Err ==> final(self).stopped == old(self).stopped,
    {
        self.exec_bit(2, Src::R(Reg8::L), 8)
    }

    /// BIT 2,(HL)
    fn op_cb56(&mut self) -> (r: Result<u8, Fault>)
        requires
            old(self).wf(),
        ensures
            final(self).wf(),
            (*old(self)).bit_test(*final(self), r, 2, Src::AtHL, 12),
            r is Ok ==> final(self).program_counter == old(self).program_counter,
            r is Err ==> final(self).stopped == old(self).stopped,
    {
        self.exec_bit(2, Src::AtHL, 12)
    }

    /// BIT 2,A
    fn op_cb57(&mut self) -> (r: Result<u8, Fault>)
        requires
            old(self).wf(),
        ensures
            final(self).wf(),
            (*old(self)).bit_test(*final(self), r, 2, Src::R(Reg8::A), 8),
            r is Ok ==> final(self).program_counter == old(self).program_counter,
            r is Err ==> final(self).stopped == old(self).stopped,
    {
        self.exec_bit(2, Src::R(Reg8::A), 8)
    }

    /// BIT 3,B
    fn op_cb58(&mut self) -> (r: Result<u8, Fault>)
        requires
            old(self).wf(),
        ensures
            final(self).wf(),
            (*old(self)).bit_test(*final(self), r, 3, Src::R(Reg8::B), 8),
            r is Ok ==> final(self).program_counter == old(self).program_counter,
            r is Err ==> final(self).stopped == old(self).stopped,
    {
        self.exec_bit(3, Src::R(Reg8::B), 8)
    }

    /// BIT 3,C
    fn op_cb59(&mut self) -> (r: Result<u8, Fault>)
        requires
            old(self).wf(),
        ensures
            final(self).wf(),
            (*old(self)).bit_test(*final(self), r, 3, Src::R(Reg8::C), 8),
            r is Ok ==> final(self).program_counter == old(self).program_counter,
            r is Err ==> final(self).stopped == old(self).stopped,
    {
        self.exec_bit(3, Src::R(Reg8::C), 8)
    }

    /// BIT 3,D
    fn op_cb5a(&mut self) -> (r: Result<u8, Fault>)
        requires
            old(self).wf(),
        ensures
            final(self).wf(),
            (*old(self)).bit_test(*final(self), r, 3, Src::R(Reg8::D), 8),
            r is Ok ==> final(self).program_counter == old(self).program_counter,
            r is Err ==> final(self).stopped == old(self).stopped,
    {
        self.exec_bit(3, Src::R(Reg8::D), 8)
    }

    /// BIT 3,E
    fn op_cb5b(&mut self) -> (r: Result<u8, Fault>)
        requires
            old(self).wf(),
        ensures
            final(self).wf(),
            (*old(self)).bit_test(*final(self), r, 3, Src::R(Reg8::E), 8),
            r is Ok ==> final(self).program_counter == old(self).program_counter,
            r is Err ==> final(self).stopped == old(self).stopped,
    {
        self.exec_bit(3, Src::R(Reg8::E), 8)
    }

    /// BIT 3,H
    fn op_cb5c(&mut self) -> (r: Result<u8, Fault>)
        requires
            old(self).wf(),
        ensures
            final(self).wf(),
            (*old(self)).bit_test(*final(self), r, 3, Src::R(Reg8::H), 8),
            r is Ok ==> final(self).program_counter == old(self).program_counter,
            r is Err ==> final(self).stopped == old(self).stopped,
    {
        self.exec_bit(3, Src::R(Reg8::H), 8)
    }

    /// BIT 3,L
    fn op_cb5d(&mut self) -> (r: Result<u8, Fault>)
        requires
            old(self).wf(),
        ensures
            final(self).wf(),
            (*old(self)).bit_test(*final(self), r, 3, Src::R(Reg8::L), 8),
            r is Ok ==> final(self).program_counter == old(self).program_counter,
            r is Err ==> final(self).stopped == old(self).stopped,
    {
        self.exec_bit(3, Src::R(Reg8::L), 8)
    }

    /// BIT 3,(HL)
    fn op_cb5e(&mut self) -> (r: Result<u8, Fault>)
        requires
            old(self).wf(),
        ensures
            final(self).wf(),
            (*old(self)).bit_test(*final(self), r, 3, Src::AtHL, 12),
            r is Ok ==> final(self).program_counter == old(self).program_counter,
            r is Err ==> final(self).stopped == old(self).stopped,
    {
        self.exec_bit(3, Src::AtHL, 12)
    }

    /// BIT 3,A
    fn op_cb5f(&mut self) -> (r: Result<u8, Fault>)
        requires
            old(self).wf(),
        ensures
            final(self).wf(),
            (*old(self)).bit_test(*final(self), r, 3, Src::R(Reg8::A), 8),
            r is Ok ==> final(self).program_counter == old(self).program_counter,
            r is Err ==> final(self).stopped == old(self).stopped,
    {
        self.exec_bit(3, Src::R(Reg8::A), 8)
    }

    /// BIT 4,B
    fn op_cb60(&mut self) -> (r: Result<u8, Fault>)
        requires
            old(self).wf(),
        ensures
            final(self).wf(),
            (*old(self)).bit_test(*final(self), r, 4, Src::R(Reg8::B), 8),
            r is Ok ==> final(self).program_counter == old(self).program_counter,
            r is Err ==> final(self).stopped == old(self).stopped,
    {
        self.exec_bit(4, Src::R(Reg8::B), 8)
    }

    /// BIT 4,C
    fn op_cb61(&mut self) -> (r: Result<u8, Fault>)
        requires
            old(self).wf(),
        ensures
            final(self).wf(),
            (*old(self)).bit_test(*final(self), r, 4, Src::R(Reg8::C), 8),
            r is Ok ==> final(self).program_counter == old(self).program_counter,
            r is Err ==> final(self).stopped == old(self).stopped,
    {
        self.exec_bit(4, Src::R(Reg8::C), 8)
    }

    /// BIT 4,D
    fn op_cb62(&mut self) -> (r: Result<u8, Fault>)
        requires
            old(self).wf(),
        ensures
            final(self).wf(),
            (*old(self)).bit_test(*final(self), r, 4, Src::R(Reg8::D), 8),
            r is Ok ==> final(self).program_counter == old(self).program_counter,
            r is Err ==> final(self).stopped == old(self).stopped,
    {
        self.exec_bit(4, Src::R(Reg8::D), 8)
    }

    /// BIT 4,E
    fn op_cb63(&mut self) -> (r: Result<u8, Fault>)
        requires
            old(self).wf(),
        ensures
            final(self).wf(),
            (*old(self)).bit_test(*final(self), r, 4, Src::R(Reg8::E), 8),
            r is Ok ==> final(self).program_counter == old(self).program_counter,
            r is Err ==> final(self).stopped == old(self).stopped,
    {
        self.exec_bit(4, Src::R(Reg8::E), 8)
    }

    /// BIT 4,H
    fn op_cb64(&mut self) -> (r: Result<u8, Fault>)
        requires
            old(self).wf(),
        ensures
            final(self).wf(),
            (*old(self)).bit_test(*final(self), r, 4, Src::R(Reg8::H), 8),
            r is Ok ==> final(self).program_counter == old(self).program_counter,
            r is Err ==> final(self).stopped == old(self).stopped,
    {
        self.exec_bit(4, Src::R(Reg8::H), 8)
    }

    /// BIT 4,L
    fn op_cb65(&mut self) -> (r: Result<u8, Fault>)
        requires
            old(self).wf(),
        ensures
            final(self).wf(),
            (*old(self)).bit_test(*final(self), r, 4, Src::R(Reg8::L), 8),
            r is Ok ==> final(self).program_counter == old(self).program_counter,
            r is Err ==> final(self).stopped == old(self).stopped,
    {
        self.exec_bit(4, Src::R(Reg8::L), 8)
    }

    /// BIT 4,(HL)
    fn op_cb66(&mut self) -> (r: Result<u8, Fault>)
        requires
            old(self).wf(),
        ensures
            final(self).wf(),
            (*old(self)).bit_test(*final(self), r, 4, Src::AtHL, 12),
            r is Ok ==> final(self).program_counter == old(self).program_counter,
            r is Err ==> final(self).stopped == old(self).stopped,
    {
        self.exec_bit(4, Src::AtHL, 12)
    }

    /// BIT 4,A
    fn op_cb67(&mut self) -> (r: Result<u8, Fault>)
        requires
            old(self).wf(),
        ensures
            final(self).wf(),
            (*old(self)).bit_test(*final(self), r, 4, Src::R(Reg8::A), 8),
            r is Ok ==> final(self).program_counter == old(self).program_counter,
            r is Err ==> final(self).stopped == old(self).stopped,
    {
        self.exec_bit(4, Src::R(Reg8::A), 8)
    }

    /// BIT 5,B
    fn op_cb68(&mut self) -> (r: Result<u8, Fault>)
        requires
            old(self).wf(),
        ensures
            final(self).wf(),
            (*old(self)).bit_test(*final(self), r, 5, Src::R(Reg8::B), 8),
            r is Ok ==> final(self).program_counter == old(self).program_counter,
            r is Err ==> final(self).stopped == old(self).stopped,
    {
        self.exec_bit(5, Src::R(Reg8::B), 8)
    }

    /// BIT 5,C
    fn op_cb69(&mut self) -> (r: Result<u8, Fault>)
        requires
            old(self).wf(),
        ensures
            final(self).wf(),
            (*old(self)).bit_test(*final(self), r, 5, Src::R(Reg8::C), 8),
            r is Ok ==> final(self).program_counter == old(self).program_counter,
            r is Err ==> final(self).stopped == old(self).stopped,
    {
        self.exec_bit(5, Src::R(Reg8::C), 8)
    }

    /// BIT 5,D
    fn op_cb6a(&mut self) -> (r: Result<u8, Fault>)
        requires
            old(self).wf(),
        ensures
            final(self).wf(),
            (*old(self)).bit_test(*final(self), r, 5, Src::R(Reg8::D), 8),
            r is Ok ==> final(self).program_counter == old(self).program_counter,
            r is Err ==> final(self).stopped == old(self).stopped,
    {
        self.exec_bit(5, Src::R(Reg8::D), 8)
    }

    /// BIT 5,E
    fn op_cb6b(&mut self) -> (r: Result<u8, Fault>)
        requires
            old(self).wf(),
        ensures
            final(self).wf(),
            (*old(self)).bit_test(*final(self), r, 5, Src::R(Reg8::E), 8),
            r is Ok ==> final(self).program_counter == old(self).program_counter,
            r is Err ==> final(self).stopped == old(self).stopped,
    {
        self.exec_bit(5, Src::R(Reg8::E), 8)
    }

    /// BIT 5,H
    fn op_cb6c(&mut self) -> (r: Result<u8, Fault>)
        requires
            old(self).wf(),
        ensures
            final(self).wf(),
            (*old(self)).bit_test(*final(self), r, 5, Src::R(Reg8::H), 8),
            r is Ok ==> final(self).program_counter == old(self).program_counter,
            r is Err ==> final(self).stopped == old(self).stopped,
    {
        self.exec_bit(5, Src::R(Reg8::H), 8)
    }

    /// BIT 5,L
    fn op_cb6d(&mut self) -> (r: Result<u8, Fault>)
        requires
            old(self).wf(),
        ensures
            final(self).wf(),
            (*old(self)).bit_test(*final(self), r, 5, Src::R(Reg8::L), 8),
            r is Ok ==> final(self).program_counter == old(self).program_counter,
            r is Err ==> final(self).stopped == old(self).stopped,
    {
        self.exec_bit(5, Src::R(Reg8::L), 8)
    }

    /// BIT 5,(HL)
    fn op_cb6e(&mut self) -> (r: Result<u8, Fault>)
        requires
            old(self).wf(),
        ensures
            final(self).wf(),
            (*old(self)).bit_test(*final(self), r, 5, Src::AtHL, 12),
            r is Ok ==> final(self).program_counter == old(self).program_counter,
            r is Err ==> final(self).stopped == old(self).stopped,
    {
        self.exec_bit(5, Src::AtHL, 12)
    }

    /// BIT 5,A
    fn op_cb6f(&mut self) -> (r: Result<u8, Fault>)
        requires
            old(self).wf(),
        ensures
            final(self).wf(),
            (*old(self)).bit_test(*final(self), r, 5, Src::R(Reg8::A), 8),
            r is Ok ==> final(self).program_counter == old(self).program_counter,
            r is Err ==> final(self).stopped == old(self).stopped,
    {
        self.exec_bit(5, Src::R(Reg8::A), 8)
    }

    /// BIT 6,B
    fn op_cb70(&mut self) -> (r: Result<u8, Fault>)
        requires
            old(self).wf(),
        ensures
            final(self).wf(),
            (*old(self)).bit_test(*final(self), r, 6, Src::R(Reg8::B), 8),
            r is Ok ==> final(self).program_counter == old(self).program_counter,
            r is Err ==> final(self).stopped == old(self).stopped,
    {
        self.exec_bit(6, Src::R(Reg8::B), 8)
    }

    /// BIT 6,C
    fn op_cb71(&mut self) -> (r: Result<u8, Fault>)
        requires
            old(self).wf(),
        ensures
            final(self).wf(),
            (*old(self)).bit_test(*final(self), r, 6, Src::R(Reg8::C), 8),
            r is Ok ==> final(self).program_counter == old(self).program_counter,
            r is Err ==> final(self).stopped == old(self).stopped,
    {
        self.exec_bit(6, Src::R(Reg8::C), 8)
    }

    /// BIT 6,D
    fn op_cb72(&mut self) -> (r: Result<u8, Fault>)
        requires
            old(self).wf(),
        ensures
            final(self).wf(),
            (*old(self)).bit_test(*final(self), r, 6, Src::R(Reg8::D), 8),
            r is Ok ==> final(self).program_counter == old(self).program_counter,
            r is Err ==> final(self).stopped == old(self).stopped,
    {
        self.exec_bit(6, Src::R(Reg8::D), 8)
    }

    /// BIT 6,E
    fn op_cb73(&mut self) -> (r: Result<u8, Fault>)
        requires
            old(self).wf(),
        ensures
            final(self).wf(),
            (*old(self)).bit_test(*final(self), r, 6, Src::R(Reg8::E), 8),
            r is Ok ==> final(self).program_counter == old(self).program_counter,
            r is Err ==> final(self).stopped == old(self).stopped,
    {
        self.exec_bit(6, Src::R(Reg8::E), 8)
    }

    /// BIT 6,H
    fn op_cb74(&mut self) -> (r: Result<u8, Fault>)
        requires
            old(self).wf(),
        ensures
            final(self).wf(),
            (*old(self)).bit_test(*final(self), r, 6, Src::R(Reg8::H), 8),
            r is Ok ==> final(self).program_counter == old(self).program_counter,
            r is Err ==> final(self).stopped == old(self).stopped,
    {
        self.exec_bit(6, Src::R(Reg8::H), 8)
    }

    /// BIT 6,L
    fn op_cb75(&mut self) -> (r: Result<u8, Fault>)
        requires
            old(self).wf(),
        ensures
            final(self).wf(),
            (*old(self)).bit_test(*final(self), r, 6, Src::R(Reg8::L), 8),
            r is Ok ==> final(self).program_counter == old(self).program_counter,
            r is Err ==> final(self).stopped == old(self).stopped,
    {
        self.exec_bit(6, Src::R(Reg8::L), 8)
    }

    /// BIT 6,(HL)
    fn op_cb76(&mut self) -> (r: Result<u8, Fault>)
        requires
            old(self).wf(),
        ensures
            final(self).wf(),
            (*old(self)).bit_test(*final(self), r, 6, Src::AtHL, 12),
            r is Ok ==> final(self).program_counter == old(self).program_counter,
            r is Err ==> final(self).stopped == old(self).stopped,
    {
        self.exec_bit(6, Src::AtHL, 12)
    }

    /// BIT 6,A
    fn op_cb77(&mut self) -> (r: Result<u8, Fault>)
        requires
            old(self).wf(),
        ensures
            final(self).wf(),
            (*old(self)).bit_test(*final(self), r, 6, Src::R(Reg8::A), 8),
            r is Ok ==> final(self).program_counter == old(self).program_counter,
            r is Err ==> final(self).stopped == old(self).stopped,
    {
        self.exec_bit(6, Src::R(Reg8::A), 8)
    }

    /// BIT 7,B
    fn op_cb78(&mut self) -> (r: Result<u8, Fault>)
        requires
            old(self).wf(),
        ensures
            final(self).wf(),
            (*old(self)).bit_test(*final(self), r, 7, Src::R(Reg8::B), 8),
            r is Ok ==> final(self).program_counter == old(self).program_counter,
            r is Err ==> final(self).stopped == old(self).stopped,
    {
        self.exec_bit(7, Src::R(Reg8::B), 8)
    }

    /// BIT 7,C
    fn op_cb79(&mut self) -> (r: Result<u8, Fault>)
        requires
            old(self).wf(),
        ensures
            final(self).wf(),
            (*old(self)).bit_test(*final(self), r, 7, Src::R(Reg8::C), 8),
            r is Ok ==> final(self).program_counter == old(self).program_counter,
            r is Err ==> final(self).stopped == old(self).stopped,
    {
        self.exec_bit(7, Src::R(Reg8::C), 8)
    }

    /// BIT 7,D
    fn op_cb7a(&mut self) -> (r: Result<u8, Fault>)
        requires
            old(self).wf(),
        ensures
            final(self).wf(),
            (*old(self)).bit_test(*final(self), r, 7, Src::R(Reg8::D), 8),
            r is Ok ==> final(self).program_counter == old(self).program_counter,
            r is Err ==> final(self).stopped == old(self).stopped,
    {
        self.exec_bit(7, Src::R(Reg8::D), 8)
    }

    /// BIT 7,E
    fn op_cb7b(&mut self) -> (r: Result<u8, Fault>)
        requires
            old(self).wf(),
        ensures
            final(self).wf(),
            (*old(self)).bit_test(*final(self), r, 7, Src::R(Reg8::E), 8),
            r is Ok ==> final(self).program_counter == old(self).program_counter,
            r is Err ==> final(self).stopped == old(self).stopped,
    {
        self.exec_bit(7, Src::R(Reg8::E), 8)
    }

    /// BIT 7,H
    fn op_cb7c(&mut self) -> (r: Result<u8, Fault>)
        requires
            old(self).wf(),
        ensures
            final(self).wf(),
            (*old(self)).bit_test(*final(self), r, 7, Src::R(Reg8::H), 8),
            r is Ok ==> final(self).program_counter == old(self).program_counter,
            r is Err ==> final(self).stopped == old(self).stopped,
    {
        self.exec_bit(7, Src::R(Reg8::H), 8)
    }

    /// BIT 7,L
    fn op_cb7d(&mut self) -> (r: Result<u8, Fault>)
        requires
            old(self).wf(),
        ensures
            final(self).wf(),
            (*old(self)).bit_test(*final(self), r, 7, Src::R(Reg8::L), 8),
            r is Ok ==> final(self).program_counter == old(self).program_counter,
            r is Err ==> final(self).stopped == old(self).stopped,
    {
        self.exec_bit(7, Src::R(Reg8::L), 8)
    }

    /// BIT 7,(HL)
    fn op_cb7e(&mut self) -> (r: Result<u8, Fault>)
        requires
            old(self).wf(),
        ensures
            final(self).wf(),
            (*old(self)).bit_test(*final(self), r, 7, Src::AtHL, 12),
            r is Ok ==> final(self).program_counter == old(self).program_counter,
            r is Err ==> final(self).stopped == old(self).stopped,
    {
        self.exec_bit(7, Src::AtHL, 12)
    }

    /// BIT 7,A
    fn op_cb7f(&mut self) -> (r: Result<u8, Fault>)
        requires
            old(self).wf(),
        ensures
            final(self).wf(),
            (*old(self)).bit_test(*final(self), r, 7, Src::R(Reg8::A), 8),
            r is Ok ==> final(self).program_counter == old(self).program_counter,
            r is Err ==> final(self).stopped == old(self).stopped,
    {
        self.exec_bit(7, Src::R(Reg8::A), 8)
    }

    /// RES 0,B
    fn op_cb80(&mut self) -> (r: Result<u8, Fault>)
        requires
            old(self).wf(),
        ensures
            final(self).wf(),
            (*old(self)).rmw(*final(self), r, Unary::ResBit(0), Dst::R(Reg8::B), 8),
            r is Ok ==> final(self).program_counter == old(self).program_counter,
            r is Err ==> final(self).stopped == old(self).stopped,
    {
        self.exec_rmw(Unary::ResBit(0), Dst::R(Reg8::B), 8)
    }

    /// RES 0,C
    fn op_cb81(&mut self) -> (r: Result<u8, Fault>)
        requires
            old(self).wf(),
        ensures
            final(self).wf(),
            (*old(self)).rmw(*final(self), r, Unary::ResBit(0), Dst::R(Reg8::C), 8),
            r is Ok ==> final(self).program_counter == old(self).program_counter,
            r is Err ==> final(self).stopped == old(self).stopped,
    {
        self.exec_rmw(Unary::ResBit(0), Dst::R(Reg8::C), 8)
    }

    /// RES 0,D
    fn op_cb82(&mut self) -> (r: Result<u8, Fault>)
        requires
            old(self).wf(),
        ensures
            final(self).wf(),
            (*old(self)).rmw(*final(self), r, Unary::ResBit(0), Dst::R(Reg8::D), 8),
            r is Ok ==> final(self).program_counter == old(self).program_counter,
            r is Err ==> final(self).stopped == old(self).stopped,
    {
        self.exec_rmw(Unary::ResBit(0), Dst::R(Reg8::D), 8)
    }

    /// RES 0,E
    fn op_cb83(&mut self) -> (r: Result<u8, Fault>)
        requires
            old(self).wf(),
        ensures
            final(self).wf(),
            (*old(self)).rmw(*final(self), r, Unary::ResBit(0), Dst::R(Reg8::E), 8),
            r is Ok ==> final(self).program_counter == old(self).program_counter,
            r is Err ==> final(self).stopped == old(self).stopped,
    {
        self.exec_rmw(Unary::ResBit(0), Dst::R(Reg8::E), 8)
    }

    /// RES 0,H
    fn op_cb84(&mut self) -> (r: Result<u8, Fault>)
        requires
            old(self).wf(),
        ensures
            final(self).wf(),
            (*old(self)).rmw(*final(self), r, Unary::ResBit(0), Dst::R(Reg8::H), 8),
            r is Ok ==> final(self).program_counter == old(self).program_counter,
            r is Err ==> final(self).stopped == old(self).stopped,
    {
        self.exec_rmw(Unary::ResBit(0), Dst::R(Reg8::H), 8)
    }

    /// RES 0,L
    fn op_cb85(&mut self) -> (r: Result<u8, Fault>)
        requires
            old(self).wf(),
        ensures
            final(self).wf(),
            (*old(self)).rmw(*final(self), r, Unary::ResBit(0), Dst::R(Reg8::L), 8),
            r is Ok ==> final(self).program_counter == old(self).program_counter,
            r is Err ==> final(self).stopped == old(self).stopped,
    {
        self.exec_rmw(Unary::ResBit(0), Dst::R(Reg8::L), 8)
    }

    /// RES 0,(HL)
    fn op_cb86(&mut self) -> (r: Result<u8, Fault>)
        requires
            old(self).wf(),
        ensures
            final(self).wf(),
            (*old(self)).rmw(*final(self), r, Unary::ResBit(0), Dst::AtHL, 16),
            r is Ok ==> final(self).program_counter == old(self).program_counter,
            r is Err ==> final(self).stopped == old(self).stopped,
    {
        self.exec_rmw(Unary::ResBit(0), Dst::AtHL, 16)
    }

    /// RES 0,A
    fn op_cb87(&mut self) -> (r: Result<u8, Fault>)
        requires
            old(self).wf(),
        ensures
            final(self).wf(),
            (*old(self)).rmw(*final(self), r, Unary::ResBit(0), Dst::R(Reg8::A), 8),
            r is Ok ==> final(self).program_counter == old(self).program_counter,
            r is Err ==> final(self).stopped == old(self).stopped,
    {
        self.exec_rmw(Unary::ResBit(0), Dst::R(Reg8::A), 8)
    }

    /// RES 1,B
    fn op_cb88(&mut self) -> (r: Result<u8, Fault>)
        requires
            old(self).wf(),
        ensures
            final(self).wf(),
            (*old(self)).rmw(*final(self), r, Unary::ResBit(1), Dst::R(Reg8::B), 8),
            r is Ok ==> final(self).program_counter == old(self).program_counter,
            r is Err ==> final(self).stopped == old(self).stopped,
    {
        self.exec_rmw(Unary::ResBit(1), Dst::R(Reg8::B), 8)
    }

    /// RES 1,C
    fn op_cb89(&mut self) -> (r: Result<u8, Fault>)
        requires
            old(self).wf(),
        ensures
            final(self).wf(),
            (*old(self)).rmw(*final(self), r, Unary::ResBit(1), Dst::R(Reg8::C), 8),
            r is Ok ==> final(self).program_counter == old(self).program_counter,
            r is Err ==> final(self).stopped == old(self).stopped,
    {
        self.exec_rmw(Unary::ResBit(1), Dst::R(Reg8::C), 8)
    }

    /// RES 1,D
    fn op_cb8a(&mut self) -> (r: Result<u8, Fault>)
        requires
            old(self).wf(),
        ensures
            final(self).wf(),
            (*old(self)).rmw(*final(self), r, Unary::ResBit(1), Dst::R(Reg8::D), 8),
            r is Ok ==> final(self).program_counter == old(self).program_counter,
            r is Err ==> final(self).stopped == old(self).stopped,
    {
        self.exec_rmw(Unary::ResBit(1), Dst::R(Reg8::D), 8)
    }

    /// RES 1,E
    fn op_cb8b(&mut self) -> (r: Result<u8, Fault>)
        requires
            old(self).wf(),
        ensures
            final(self).wf(),
            (*old(self)).rmw(*final(self), r, Unary::ResBit(1), Dst::R(Reg8::E), 8),
            r is Ok ==> final(self).program_counter == old(self).program_counter,
            r is Err ==> final(self).stopped == old(self).stopped,
    {
        self.exec_rmw(Unary::ResBit(1), Dst::R(Reg8::E), 8)
    }

    /// RES 1,H
    fn op_cb8c(&mut self) -> (r: Result<u8, Fault>)
        requires
            old(self).wf(),
        ensures
            final(self).wf(),
            (*old(self)).rmw(*final(self), r, Unary::ResBit(1), Dst::R(Reg8::H), 8),
            r is Ok ==> final(self).program_counter == old(self).program_counter,
            r is Err ==> final(self).stopped == old(self).stopped,
    {
        self.exec_rmw(Unary::ResBit(1), Dst::R(Reg8::H), 8)
    }

    /// RES 1,L
    fn op_cb8d(&mut self) -> (r: Result<u8, Fault>)
        requires
            old(self).wf(),
        ensures
            final(self).wf(),
            (*old(self)).rmw(*final(self), r, Unary::ResBit(1), Dst::R(Reg8::L), 8),
            r is Ok ==> final(self).program_counter == old(self).program_counter,
            r is Err ==> final(self).stopped == old(self).stopped,
    {
        self.exec_rmw(Unary::ResBit(1), Dst::R(Reg8::L), 8)
    }

    /// RES 1,(HL)
    fn op_cb8e(&mut self) -> (r: Result<u8, Fault>)
        requires
            old(self).wf(),
        ensures
            final(self).wf(),
            (*old(self)).rmw(*final(self), r, Unary::ResBit(1), Dst::AtHL, 16),
            r is Ok ==> final(self).program_counter == old(self).program_counter,
            r is Err ==> final(self).stopped == old(self).stopped,
    {
        self.exec_rmw(Unary::ResBit(1), Dst::AtHL, 16)
    }

    /// RES 1,A
    fn op_cb8f(&mut self) -> (r: Result<u8, Fault>)
        requires
            old(self).wf(),
        ensures
            final(self).wf(),
            (*old(self)).rmw(*final(self), r, Unary::ResBit(1), Dst::R(Reg8::A), 8),
            r is Ok ==> final(self).program_counter == old(self).program_counter,
            r is Err ==> final(self).stopped == old(self).stopped,
    {
        self.exec_rmw(Unary::ResBit(1), Dst::R(Reg8::A), 8)
    }

    /// RES 2,B
    fn op_cb90(&mut self) -> (r: Result<u8, Fault>)
        requires
            old(self).wf(),
        ensures
            final(self).wf(),
            (*old(self)).rmw(*final(self), r, Unary::ResBit(2), Dst::R(Reg8::B), 8),
            r is Ok ==> final(self).program_counter == old(self).program_counter,
            r is Err ==> final(self).stopped == old(self).stopped,
    {
        self.exec_rmw(Unary::ResBit(2), Dst::R(Reg8::B), 8)
    }

    /// RES 2,C
    fn op_cb91(&mut self) -> (r: Result<u8, Fault>)
        requires
            old(self).wf(),
        ensures
            final(self).wf(),
            (*old(self)).rmw(*final(self), r, Unary::ResBit(2), Dst::R(Reg8::C), 8),
            r is Ok ==> final(self).program_counter == old(self).program_counter,
            r is Err ==> final(self).stopped == old(self).stopped,
    {
        self.exec_rmw(Unary::ResBit(2), Dst::R(Reg8::C), 8)
    }

    /// RES 2,D
    fn op_cb92(&mut self) -> (r: Result<u8, Fault>)
        requires
            old(self).wf(),
        ensures
            final(self).wf(),
            (*old(self)).rmw(*final(self), r, Unary::ResBit(2), Dst::R(Reg8::D), 8),
            r is Ok ==> final(self).program_counter == old(self).program_counter,
            r is Err ==> final(self).stopped == old(self).stopped,
    {
        self.exec_rmw(Unary::ResBit(2), Dst::R(Reg8::D), 8)
    }

    /// RES 2,E
    fn op_cb93(&mut self) -> (r: Result<u8, Fault>)
        requires
            old(self).wf(),
        ensures
            final(self).wf(),
            (*old(self)).rmw(*final(self), r, Unary::ResBit(2), Dst::R(Reg8::E), 8),
            r is Ok ==> final(self).program_counter == old(self).program_counter,
            r is Err ==> final(self).stopped == old(self).stopped,
    {
        self.exec_rmw(Unary::ResBit(2), Dst::R(Reg8::E), 8)
    }

    /// RES 2,H
    fn op_cb94(&mut self) -> (r: Result<u8, Fault>)
        requires
            old(self).wf(),
        ensures
            final(self).wf(),
            (*old(self)).rmw(*final(self), r, Unary::ResBit(2), Dst::R(Reg8::H), 8),
            r is Ok ==> final(self).program_counter == old(self).program_counter,
            r is Err ==> final(self).stopped == old(self).stopped,
    {
        self.exec_rmw(Unary::ResBit(2), Dst::R(Reg8::H), 8)
    }

    /// RES 2,L
    fn op_cb95(&mut self) -> (r: Result<u8, Fault>)
        requires
            old(self).wf(),
        ensures
            final(self).wf(),
            (*old(self)).rmw(*final(self), r, Unary::ResBit(2), Dst::R(Reg8::L), 8),
            r is Ok ==> final(self).program_counter == old(self).program_counter,
            r is Err ==> final(self).stopped == old(self).stopped,
    {
        self.exec_rmw(Unary::ResBit(2), Dst::R(Reg8::L), 8)
    }

    /// RES 2,(HL)
    fn op_cb96(&mut self) -> (r: Result<u8, Fault>)
        requires
            old(self).wf(),
        ensures
            final(self).wf(),
            (*old(self)).rmw(*final(self), r, Unary::ResBit(2), Dst::AtHL, 16),
            r is Ok ==> final(self).program_counter == old(self).program_counter,
            r is Err ==> final(self).stopped == old(self).stopped,
    {
        self.exec_rmw(Unary::ResBit(2), Dst::AtHL, 16)
    }

    /// RES 2,A
    fn op_cb97(&mut self) -> (r: Result<u8, Fault>)
        requires
            old(self).wf(),
        ensures
            final(self).wf(),
            (*old(self)).rmw(*final(self), r, Unary::ResBit(2), Dst::R(Reg8::A), 8),
            r is Ok ==> final(self).program_counter == old(self).program_counter,
            r is Err ==> final(self).stopped == old(self).stopped,
    {
        self.exec_rmw(Unary::ResBit(2), Dst::R(Reg8::A), 8)
    }

    /// RES 3,B
    fn op_cb98(&mut self) -> (r: Result<u8, Fault>)
        requires
            old(self).wf(),
        ensures
            final(self).wf(),
            (*old(self)).rmw(*final(self), r, Unary::ResBit(3), Dst::R(Reg8::B), 8),
            r is Ok ==> final(self).program_counter == old(self).program_counter,
            r is Err ==> final(self).stopped == old(self).stopped,
    {
        self.exec_rmw(Unary::ResBit(3), Dst::R(Reg8::B), 8)
    }

    /// RES 3,C
    fn op_cb99(&mut self) -> (r: Result<u8, Fault>)
        requires
            old(self).wf(),
        ensures
            final(self).wf(),
            (*old(self)).rmw(*final(self), r, Unary::ResBit(3), Dst::R(Reg8::C), 8),
            r is Ok ==> final(self).program_counter == old(self).program_counter,
            r is Err ==> final(self).stopped == old(self).stopped,
    {
        self.exec_rmw(Unary::ResBit(3), Dst::R(Reg8::C), 8)
    }

    /// RES 3,D
    fn op_cb9a(&mut self) -> (r: Result<u8, Fault>)
        requires
            old(self).wf(),
        ensures
            final(self).wf(),
            (*old(self)).rmw(*final(self), r, Unary::ResBit(3), Dst::R(Reg8::D), 8),
            r is Ok ==> final(self).program_counter == old(self).program_counter,
            r is Err ==> final(self).stopped == old(self).stopped,
    {
        self.exec_rmw(Unary::ResBit(3), Dst::R(Reg8::D), 8)
    }

    /// RES 3,E
    fn op_cb9b(&mut self) -> (r: Result<u8, Fault>)
        requires
            old(self).wf(),
        ensures
            final(self).wf(),
            (*old(self)).rmw(*final(self), r, Unary::ResBit(3), Dst::R(Reg8::E), 8),
            r is Ok ==> final(self).program_counter == old(self).program_counter,
            r is Err ==> final(self).stopped == old(self).stopped,
    {
        self.exec_rmw(Unary::ResBit(3), Dst::R(Reg8::E), 8)
    }

    /// RES 3,H
    fn op_cb9c(&mut self) -> (r: Result<u8, Fault>)
        requires
            old(self).wf(),
        ensures
            final(self).wf(),
            (*old(self)).rmw(*final(self), r, Unary::ResBit(3), Dst::R(Reg8::H), 8),
            r is Ok ==> final(self).program_counter == old(self).program_counter,
            r is Err ==> final(self).stopped == old(self).stopped,
    {
        self.exec_rmw(Unary::ResBit(3), Dst::R(Reg8::H), 8)
    }

    /// RES 3,L
    fn op_cb9d(&mut self) -> (r: Result<u8, Fault>)
        requires
            old(self).wf(),
        ensures
            final(self).wf(),
            (*old(self)).rmw(*final(self), r, Unary::ResBit(3), Dst::R(Reg8::L), 8),
            r is Ok ==> final(self).program_counter == old(self).program_counter,
            r is Err ==> final(self).stopped == old(self).stopped,
    {
        self.exec_rmw(Unary::ResBit(3), Dst::R(Reg8::L), 8)
    }

    /// RES 3,(HL)
    fn op_cb9e(&mut self) -> (r: Result<u8, Fault>)
        requires
            old(self).wf(),
        ensures
            final(self).wf(),
            (*old(self)).rmw(*final(self), r, Unary::ResBit(3), Dst::AtHL, 16),
            r is Ok ==> final(self).program_counter == old(self).program_counter,
            r is Err ==> final(self).stopped == old(self).stopped,
    {
        self.exec_rmw(Unary::ResBit(3), Dst::AtHL, 16)
    }

    /// RES 3,A
    fn op_cb9f(&mut self) -> (r: Result<u8, Fault>)
        requires
            old(self).wf(),
        ensures
            final(self).wf(),
            (*old(self)).rmw(*final(self), r, Unary::ResBit(3), Dst::R(Reg8::A), 8),
            r is Ok ==> final(self).program_counter == old(self).program_counter,
            r is Err ==> final(self).stopped == old(self).stopped,
    {
        self.exec_rmw(Unary::ResBit(3), Dst::R(Reg8::A), 8)
    }

    /// RES 4,B
    fn op_cba0(&mut self) -> (r: Result<u8, Fault>)
        requires
            old(self).wf(),
        ensures
            final(self).wf(),
            (*old(self)).rmw(*final(self), r, Unary::ResBit(4), Dst::R(Reg8::B), 8),
            r is Ok ==> final(self).program_counter == old(self).program_counter,
            r is Err ==> final(self).stopped == old(self).stopped,
    {
        self.exec_rmw(Unary::ResBit(4), Dst::R(Reg8::B), 8)
    }

    /// RES 4,C
    fn op_cba1(&mut self) -> (r: Result<u8, Fault>)
        requires
            old(self).wf(),
        ensures
            final(self).wf(),
            (*old(self)).rmw(*final(self), r, Unary::ResBit(4), Dst::R(Reg8::C), 8),
            r is Ok ==> final(self).program_counter == old(self).program_counter,
            r is Err ==> final(self).stopped == old(self).stopped,
    {
        self.exec_rmw(Unary::ResBit(4), Dst::R(Reg8::C), 8)
    }

    /// RES 4,D
    fn op_cba2(&mut self) -> (r: Result<u8, Fault>)
        requires
            old(self).wf(),
        ensures
            final(self).wf(),
            (*old(self)).rmw(*final(self), r, Unary::ResBit(4), Dst::R(Reg8::D), 8),
            r is Ok ==> final(self).program_counter == old(self).program_counter,
            r is Err ==> final(self).stopped == old(self).stopped,
    {
        self.exec_rmw(Unary::ResBit(4), Dst::R(Reg8::D), 8)
    }

    /// RES 4,E
    fn op_cba3(&mut self) -> (r: Result<u8, Fault>)
        requires
            old(self).wf(),
        ensures
            final(self).wf(),
            (*old(self)).rmw(*final(self), r, Unary::ResBit(4), Dst::R(Reg8::E), 8),
            r is Ok ==> final(self).program_counter == old(self).program_counter,
            r is Err ==> final(self).stopped == old(self).stopped,
    {
        self.exec_rmw(Unary::ResBit(4), Dst::R(Reg8::E), 8)
    }

    /// RES 4,H
    fn op_cba4(&mut self) -> (r: Result<u8, Fault>)
        requires
            old(self).wf(),
        ensures
            final(self).wf(),
            (*old(self)).rmw(*final(self), r, Unary::ResBit(4), Dst::R(Reg8::H), 8),
            r is Ok ==> final(self).program_counter == old(self).program_counter,
            r is Err ==> final(self).stopped == old(self).stopped,
    {
        self.exec_rmw(Unary::ResBit(4), Dst::R(Reg8::H), 8)
    }

    /// RES 4,L
    fn op_cba5(&mut self) -> (r: Result<u8, Fault>)
        requires
            old(self).wf(),
        ensures
            final(self).wf(),
            (*old(self)).rmw(*final(self), r, Unary::ResBit(4), Dst::R(Reg8::L), 8),
            r is Ok ==> final(self).program_counter == old(self).program_counter,
            r is Err ==> final(self).stopped == old(self).stopped,
    {
        self.exec_rmw(Unary::ResBit(4), Dst::R(Reg8::L), 8)
    }

    /// RES 4,(HL)
    fn op_cba6(&mut self) -> (r: Result<u8, Fault>)
        requires
            old(self).wf(),
        ensures
            final(self).wf(),
            (*old(self)).rmw(*final(self), r, Unary::ResBit(4), Dst::AtHL, 16),
            r is Ok ==> final(self).program_counter == old(self).program_counter,
            r is Err ==> final(self).stopped == old(self).stopped,
    {
        self.exec_rmw(Unary::ResBit(4), Dst::AtHL, 16)
    }

    /// RES 4,A
    fn op_cba7(&mut self) -> (r: Result<u8, Fault>)
        requires
            old(self).wf(),
        ensures
            final(self).wf(),
            (*old(self)).rmw(*final(self), r, Unary::ResBit(4), Dst::R(Reg8::A), 8),
            r is Ok ==> final(self).program_counter == old(self).program_counter,
            r is Err ==> final(self).stopped == old(self).stopped,
    {
        self.exec_rmw(Unary::ResBit(4), Dst::R(Reg8::A), 8)
    }

    /// RES 5,B
    fn op_cba8(&mut self) -> (r: Result<u8, Fault>)
        requires
            old(self).wf(),
        ensures
            final(self).wf(),
            (*old(self)).rmw(*final(self), r, Unary::ResBit(5), Dst::R(Reg8::B), 8),
            r is Ok ==> final(self).program_counter == old(self).program_counter,
            r is Err ==> final(self).stopped == old(self).stopped,
    {
        self.exec_rmw(Unary::ResBit(5), Dst::R(Reg8::B), 8)
    }

    /// RES 5,C
    fn op_cba9(&mut self) -> (r: Result<u8, Fault>)
        requires
            old(self).wf(),
        ensures
            final(self).wf(),
            (*old(self)).rmw(*final(self), r, Unary::ResBit(5), Dst::R(Reg8::C), 8),
            r is Ok ==> final(self).program_counter == old(self).program_counter,
            r is Err ==> final(self).stopped == old(self).stopped,
    {
        self.exec_rmw(Unary::ResBit(5), Dst::R(Reg8::C), 8)
    }

    /// RES 5,D
    fn op_cbaa(&mut self) -> (r: Result<u8, Fault>)
        requires
            old(self).wf(),
        ensures
            final(self).wf(),
            (*old(self)).rmw(*final(self), r, Unary::ResBit(5), Dst::R(Reg8::D), 8),
            r is Ok ==> final(self).program_counter == old(self).program_counter,
            r is Err ==> final(self).stopped == old(self).stopped,
    {
        self.exec_rmw(Unary::ResBit(5), Dst::R(Reg8::D), 8)
    }

    /// RES 5,E
    fn op_cbab(&mut self) -> (r: Result<u8, Fault>)
        requires
            old(self).wf(),
        ensures
            final(self).wf(),
            (*old(self)).rmw(*final(self), r, Unary::ResBit(5), Dst::R(Reg8::E), 8),
            r is Ok ==> final(self).program_counter == old(self).program_counter,
            r is Err ==> final(self).stopped == old(self).stopped,
    {
        self.exec_rmw(Unary::ResBit(5), Dst::R(Reg8::E), 8)
    }

    /// RES 5,H
    fn op_cbac(&mut self) -> (r: Result<u8, Fault>)
        requires
            old(self).wf(),
        ensures
            final(self).wf(),
            (*old(self)).rmw(*final(self), r, Unary::ResBit(5), Dst::R(Reg8::H), 8),
            r is Ok ==> final(self).program_counter == old(self).program_counter,
            r is Err ==> final(self).stopped == old(self).stopped,
    {
        self.exec_rmw(Unary::ResBit(5), Dst::R(Reg8::H), 8)
    }

    /// RES 5,L
    fn op_cbad(&mut self) -> (r: Result<u8, Fault>)
        requires
            old(self).wf(),
        ensures
            final(self).wf(),
            (*old(self)).rmw(*final(self), r, Unary::ResBit(5), Dst::R(Reg8::L), 8),
            r is Ok ==> final(self).program_counter == old(self).program_counter,
            r is Err ==> final(self).stopped == old(self).stopped,
    {
        self.exec_rmw(Unary::ResBit(5), Dst::R(Reg8::L), 8)
    }

    /// RES 5,(HL)
    fn op_cbae(&mut self) -> (r: Result<u8, Fault>)
        requires
            old(self).wf(),
        ensures
            final(self).wf(),
            (*old(self)).rmw(*final(self), r, Unary::ResBit(5), Dst::AtHL, 16),
            r is Ok ==> final(self).program_counter == old(self).program_counter,
            r is Err ==> final(self).stopped == old(self).stopped,
    {
        self.exec_rmw(Unary::ResBit(5), Dst::AtHL, 16)
    }

    /// RES 5,A
    fn op_cbaf(&mut self) -> (r: Result<u8, Fault>)
        requires
            old(self).wf(),
        ensures
            final(self).wf(),
            (*old(self)).rmw(*final(self), r, Unary::ResBit(5), Dst::R(Reg8::A), 8),
            r is Ok ==> final(self).program_counter == old(self).program_counter,
            r is Err ==> final(self).stopped == old(self).stopped,
    {
        self.exec_rmw(Unary::ResBit(5), Dst::R(Reg8::A), 8)
    }

    /// RES 6,B
    fn op_cbb0(&mut self) -> (r: Result<u8, Fault>)
        requires
            old(self).wf(),
        ensures
            final(self).wf(),
            (*old(self)).rmw(*final(self), r, Unary::ResBit(6), Dst::R(Reg8::B), 8),
            r is Ok ==> final(self).program_counter == old(self).program_counter,
            r is Err ==> final(self).stopped == old(self).stopped,
    {
        self.exec_rmw(Unary::ResBit(6), Dst::R(Reg8::B), 8)
    }

    /// RES 6,C
    fn op_cbb1(&mut self) -> (r: Result<u8, Fault>)
        requires
            old(self).wf(),
        ensures
            final(self).wf(),
            (*old(self)).rmw(*final(self), r, Unary::ResBit(6), Dst::R(Reg8::C), 8),
            r is Ok ==> final(self).program_counter == old(self).program_counter,
            r is Err ==> final(self).stopped == old(self).stopped,
    {
        self.exec_rmw(Unary::ResBit(6), Dst::R(Reg8::C), 8)
    }

    /// RES 6,D
    fn op_cbb2(&mut self) -> (r: Result<u8, Fault>)
        requires
            old(self).wf(),
        ensures
            final(self).wf(),
            (*old(self)).rmw(*final(self), r, Unary::ResBit(6), Dst::R(Reg8::D), 8),
            r is Ok ==> final(self).program_counter == old(self).program_counter,
            r is Err ==> final(self).stopped == old(self).stopped,
    {
        self.exec_rmw(Unary::ResBit(6), Dst::R(Reg8::D), 8)
    }

    /// RES 6,E
    fn op_cbb3(&mut self) -> (r: Result<u8, Fault>)
        requires
            old(self).wf(),
        ensures
            final(self).wf(),
            (*old(self)).rmw(*final(self), r, Unary::ResBit(6), Dst::R(Reg8::E), 8),
            r is Ok ==> final(self).program_counter == old(self).program_counter,
            r is Err ==> final(self).stopped == old(self).stopped,
    {
        self.exec_rmw(Unary::ResBit(6), Dst::R(Reg8::E), 8)
    }

    /// RES 6,H
    fn op_cbb4(&mut self) -> (r: Result<u8, Fault>)
        requires
            old(self).wf(),
        ensures
            final(self).wf(),
            (*old(self)).rmw(*final(self), r, Unary::ResBit(6), Dst::R(Reg8::H), 8),
            r is Ok ==> final(self).program_counter == old(self).program_counter,
            r is Err ==> final(self).stopped == old(self).stopped,
    {
        self.exec_rmw(Unary::ResBit(6), Dst::R(Reg8::H), 8)
    }

    /// RES 6,L
    fn op_cbb5(&mut self) -> (r: Result<u8, Fault>)
        requires
            old(self).wf(),
        ensures
            final(self).wf(),
            (*old(self)).rmw(*final(self), r, Unary::ResBit(6), Dst::R(Reg8::L), 8),
            r is Ok ==> final(self).program_counter == old(self).program_counter,
            r is Err ==> final(self).stopped == old(self).stopped,
    {
        self.exec_rmw(Unary::ResBit(6), Dst::R(Reg8::L), 8)
    }

    /// RES 6,(HL)
    fn op_cbb6(&mut self) -> (r: Result<u8, Fault>)
        requires
            old(self).wf(),
        ensures
            final(self).wf(),
            (*old(self)).rmw(*final(self), r, Unary::ResBit(6), Dst::AtHL, 16),
            r is Ok ==> final(self).program_counter == old(self).program_counter,
            r is Err ==> final(self).stopped == old(self).stopped,
    {
        self.exec_rmw(Unary::ResBit(6), Dst::AtHL, 16)
    }

    /// RES 6,A
    fn op_cbb7(&mut self) -> (r: Result<u8, Fault>)
        requires
            old(self).wf(),
        ensures
            final(self).wf(),
            (*old(self)).rmw(*final(self), r, Unary::ResBit(6), Dst::R(Reg8::A), 8),
            r is Ok ==> final(self).program_counter == old(self).program_counter,
            r is Err ==> final(self).stopped == old(self).stopped,
    {
        self.exec_rmw(Unary::ResBit(6), Dst::R(Reg8::A), 8)
    }

    /// RES 7,B
    fn op_cbb8(&mut self) -> (r: Result<u8, Fault>)
        requires
            old(self).wf(),
        ensures
            final(self).wf(),
            (*old(self)).rmw(*final(self), r, Unary::ResBit(7), Dst::R(Reg8::B), 8),
            r is Ok ==> final(self).program_counter == old(self).program_counter,
            r is Err ==> final(self).stopped == old(self).stopped,
    {
        self.exec_rmw(Unary::ResBit(7), Dst::R(Reg8::B), 8)
    }

    /// RES 7,C
    fn op_cbb9(&mut self) -> (r: Result<u8, Fault>)
        requires
            old(self).wf(),
        ensures
            final(self).wf(),
            (*old(self)).rmw(*final(self), r, Unary::ResBit(7), Dst::R(Reg8::C), 8),
            r is Ok ==> final(self).program_counter == old(self).program_counter,
            r is Err ==> final(self).stopped == old(self).stopped,
    {
        self.exec_rmw(Unary::ResBit(7), Dst::R(Reg8::C), 8)
    }

    /// RES 7,D
    fn op_cbba(&mut self) -> (r: Result<u8, Fault>)
        requires
            old(self).wf(),
        ensures
            final(self).wf(),
            (*old(self)).rmw(*final(self), r, Unary::ResBit(7), Dst::R(Reg8::D), 8),
            r is Ok ==> final(self).program_counter == old(self).program_counter,
            r is Err ==> final(self).stopped == old(self).stopped,
    {
        self.exec_rmw(Unary::ResBit(7), Dst::R(Reg8::D), 8)
    }

    /// RES 7,E
    fn op_cbbb(&mut self) -> (r: Result<u8, Fault>)
        requires
            old(self).wf(),
        ensures
            final(self).wf(),
            (*old(self)).rmw(*final(self), r, Unary::ResBit(7), Dst::R(Reg8::E), 8),
            r is Ok ==> final(self).program_counter == old(self).program_counter,
            r is Err ==> final(self).stopped == old(self).stopped,
    {
        self.exec_rmw(Unary::ResBit(7), Dst::R(Reg8::E), 8)
    }

    /// RES 7,H
    fn op_cbbc(&mut self) -> (r: Result<u8, Fault>)
        requires
            old(self).wf(),
        ensures
            final(self).wf(),
            (*old(self)).rmw(*final(self), r, Unary::ResBit(7), Dst::R(Reg8::H), 8),
            r is Ok ==> final(self).program_counter == old(self).program_counter,
            r is Err ==> final(self).stopped == old(self).stopped,
    {
        self.exec_rmw(Unary::ResBit(7), Dst::R(Reg8::H), 8)
    }

    /// RES 7,L
    fn op_cbbd(&mut self) -> (r: Result<u8, Fault>)
        requires
            old(self).wf(),
        ensures
            final(self).wf(),
            (*old(self)).rmw(*final(self), r, Unary::ResBit(7), Dst::R(Reg8::L), 8),
            r is Ok ==> final(self).program_counter == old(self).program_counter,
            r is Err ==> final(self).stopped == old(self).stopped,
    {
        self.exec_rmw(Unary::ResBit(7), Dst::R(Reg8::L), 8)
    }

    /// RES 7,(HL)
    fn op_cbbe(&mut self) -> (r: Result<u8, Fault>)
        requires
            old(self).wf(),
        ensures
            final(self).wf(),
            (*old(self)).rmw(*final(self), r, Unary::ResBit(7), Dst::AtHL, 16),
            r is Ok ==> final(self).program_counter == old(self).program_counter,
            r is Err ==> final(self).stopped == old(self).stopped,
    {
        self.exec_rmw(Unary::ResBit(7), Dst::AtHL, 16)
    }

    /// RES 7,A
    fn op_cbbf(&mut self) -> (r: Result<u8, Fault>)
        requires
            old(self).wf(),
        ensures
            final(self).wf(),
            (*old(self)).rmw(*final(self), r, Unary::ResBit(7), Dst::R(Reg8::A), 8),
            r is Ok ==> final(self).program_counter == old(self).program_counter,
            r is Err ==> final(self).stopped == old(self).stopped,
    {
        self.exec_rmw(Unary::ResBit(7), Dst::R(Reg8::A), 8)
    }

    /// SET 0,B
    fn op_cbc0(&mut self) -> (r: Result<u8, Fault>)
        requires
            old(self).wf(),
        ensures
            final(self).wf(),
            (*old(self)).rmw(*final(self), r, Unary::SetBit(0), Dst::R(Reg8::B), 8),
            r is Ok ==> final(self).program_counter == old(self).program_counter,
            r is Err ==> final(self).stopped == old(self).stopped,
    {
        self.exec_rmw(Unary::SetBit(0), Dst::R(Reg8::B), 8)
    }

    /// SET 0,C
    fn op_cbc1(&mut self) -> (r: Result<u8, Fault>)
        requires
            old(self).wf(),
        ensures
            final(self).wf(),
            (*old(self)).rmw(*final(self), r, Unary::SetBit(0), Dst::R(Reg8::C), 8),
            r is Ok ==> final(self).program_counter == old(self).program_counter,
            r is Err ==> final(self).stopped == old(self).stopped,
    {
        self.exec_rmw(Unary::SetBit(0), Dst::R(Reg8::C), 8)
    }

    /// SET 0,D
    fn op_cbc2(&mut self) -> (r: Result<u8, Fault>)
        requires
            old(self).wf(),
        ensures
            final(self).wf(),
            (*old(self)).rmw(*final(self), r, Unary::SetBit(0), Dst::R(Reg8::D), 8),
            r is Ok ==> final(self).program_counter == old(self).program_counter,
            r is Err ==> final(self).stopped == old(self).stopped,
    {
        self.exec_rmw(Unary::SetBit(0), Dst::R(Reg8::D), 8)
    }

    /// SET 0,E
    fn op_cbc3(&mut self) -> (r: Result<u8, Fault>)
        requires
            old(self).wf(),
        ensures
            final(self).wf(),
            (*old(self)).rmw(*final(self), r, Unary::SetBit(0), Dst::R(Reg8::E), 8),
            r is Ok ==> final(self).program_counter == old(self).program_counter,
            r is Err ==> final(self).stopped == old(self).stopped,
    {
        self.exec_rmw(Unary::SetBit(0), Dst::R(Reg8::E), 8)
    }

    /// SET 0,H
    fn op_cbc4(&mut self) -> (r: Result<u8, Fault>)
        requires
            old(self).wf(),
        ensures
            final(self).wf(),
            (*old(self)).rmw(*final(self), r, Unary::SetBit(0), Dst::R(Reg8::H), 8),
            r is Ok ==> final(self).program_counter == old(self).program_counter,
            r is Err ==> final(self).stopped == old(self).stopped,
    {
        self.exec_rmw(Unary::SetBit(0), Dst::R(Reg8::H), 8)
    }

    /// SET 0,L
    fn op_cbc5(&mut self) -> (r: Result<u8, Fault>)
        requires
            old(self).wf(),
        ensures
            final(self).wf(),
            (*old(self)).rmw(*final(self), r, Unary::SetBit(0), Dst::R(Reg8::L), 8),
            r is Ok ==> final(self).program_counter == old(self).program_counter,
            r is Err ==> final(self).stopped == old(self).stopped,
    {
        self.exec_rmw(Unary::SetBit(0), Dst::R(Reg8::L), 8)
    }

    /// SET 0,(HL)
    fn op_cbc6(&mut self) -> (r: Result<u8, Fault>)
        requires
            old(self).wf(),
        ensures
            final(self).wf(),
            (*old(self)).rmw(*final(self), r, Unary::SetBit(0), Dst::AtHL, 16),
            r is Ok ==> final(self).program_counter == old(self).program_counter,
            r is Err ==> final(self).stopped == old(self).stopped,
    {
        self.exec_rmw(Unary::SetBit(0), Dst::AtHL, 16)
    }

    /// SET 0,A
    fn op_cbc7(&mut self) -> (r: Result<u8, Fault>)
        requires
            old(self).wf(),
        ensures
            final(self).wf(),
            (*old(self)).rmw(*final(self), r, Unary::SetBit(0), Dst::R(Reg8::A), 8),
            r is Ok ==> final(self).program_counter == old(self).program_counter,
            r is Err ==> final(self).stopped == old(self).stopped,
    {
        self.exec_rmw(Unary::SetBit(0), Dst::R(Reg8::A), 8)
    }

    /// SET 1,B
    fn op_cbc8(&mut self) -> (r: Result<u8, Fault>)
        requires
            old(self).wf(),
        ensures
            final(self).wf(),
            (*old(self)).rmw(*final(self), r, Unary::SetBit(1), Dst::R(Reg8::B), 8),
            r is Ok ==> final(self).program_counter == old(self).program_counter,
            r is Err ==> final(self).stopped == old(self).stopped,
    {
        self.exec_rmw(Unary::SetBit(1), Dst::R(Reg8::B), 8)
    }

    /// SET 1,C
    fn op_cbc9(&mut self) -> (r: Result<u8, Fault>)
        requires
            old(self).wf(),
        ensures
            final(self).wf(),
            (*old(self)).rmw(*final(self), r, Unary::SetBit(1), Dst::R(Reg8::C), 8),
            r is Ok ==> final(self).program_counter == old(self).program_counter,
            r is Err ==> final(self).stopped == old(self).stopped,
    {
        self.exec_rmw(Unary::SetBit(1), Dst::R(Reg8::C), 8)
    }

    /// SET 1,D
    fn op_cbca(&mut self) -> (r: Result<u8, Fault>)
        requires
            old(self).wf(),
        ensures
            final(self).wf(),
            (*old(self)).rmw(*final(self), r, Unary::SetBit(1), Dst::R(Reg8::D), 8),
            r is Ok ==> final(self).program_counter == old(self).program_counter,
            r is Err ==> final(self).stopped == old(self).stopped,
    {
        self.exec_rmw(Unary::SetBit(1), Dst::R(Reg8::D), 8)
    }

    /// SET 1,E
    fn op_cbcb(&mut self) -> (r: Result<u8, Fault>)
        requires
            old(self).wf(),
        ensures
            final(self).wf(),
            (*old(self)).rmw(*final(self), r, Unary::SetBit(1), Dst::R(Reg8::E), 8),
            r is Ok ==> final(self).program_counter == old(self).program_counter,
            r is Err ==> final(self).stopped == old(self).stopped,
    {
        self.exec_rmw(Unary::SetBit(1), Dst::R(Reg8::E), 8)
    }

    /// SET 1,H
    fn op_cbcc(&mut self) -> (r: Result<u8, Fault>)
        requires
            old(self).wf(),
        ensures
            final(self).wf(),
            (*old(self)).rmw(*final(self), r, Unary::SetBit(1), Dst::R(Reg8::H), 8),
            r is Ok ==> final(self).program_counter == old(self).program_counter,
            r is Err ==> final(self).stopped == old(self).stopped,
    {
        self.exec_rmw(Unary::SetBit(1), Dst::R(Reg8::H), 8)
    }

    /// SET 1,L
    fn op_cbcd(&mut self) -> (r: Result<u8, Fault>)
        requires
            old(self).wf(),
        ensures
            final(self).wf(),
            (*old(self)).rmw(*final(self), r, Unary::SetBit(1), Dst::R(Reg8::L), 8),
            r is Ok ==> final(self).program_counter == old(self).program_counter,
            r is Err ==> final(self).stopped == old(self).stopped,
    {
        self.exec_rmw(Unary::SetBit(1), Dst::R(Reg8::L), 8)
    }

    /// SET 1,(HL)
    fn op_cbce(&mut self) -> (r: Result<u8, Fault>)
        requires
            old(self).wf(),
        ensures
            final(self).wf(),
            (*old(self)).rmw(*final(self), r, Unary::SetBit(1), Dst::AtHL, 16),
            r is Ok ==> final(self).program_counter == old(self).program_counter,
            r is Err ==> final(self).stopped == old(self).stopped,
    {
        self.exec_rmw(Unary::SetBit(1), Dst::AtHL, 16)
    }

    /// SET 1,A
    fn op_cbcf(&mut self) -> (r: Result<u8, Fault>)
        requires
            old(self).wf(),
        ensures
            final(self).wf(),
            (*old(self)).rmw(*final(self), r, Unary::SetBit(1), Dst::R(Reg8::A), 8),
            r is Ok ==> final(self).program_counter == old(self).program_counter,
            r is Err ==> final(self).stopped == old(self).stopped,
    {
        self.exec_rmw(Unary::SetBit(1), Dst::R(Reg8::A), 8)
    }

    /// SET 2,B
    fn op_cbd0(&mut self) -> (r: Result<u8, Fault>)
        requires
            old(self).wf(),
        ensures
            final(self).wf(),
            (*old(self)).rmw(*final(self), r, Unary::SetBit(2), Dst::R(Reg8::B), 8),
            r is Ok ==> final(self).program_counter == old(self).program_counter,
            r is Err ==> final(self).stopped == old(self).stopped,
    {
        self.exec_rmw(Unary::SetBit(2), Dst::R(Reg8::B), 8)
    }

    /// SET 2,C
    fn op_cbd1(&mut self) -> (r: Result<u8, Fault>)
        requires
            old(self).wf(),
        ensures
            final(self).wf(),
            (*old(self)).rmw(*final(self), r, Unary::SetBit(2), Dst::R(Reg8::C), 8),
            r is Ok ==> final(self).program_counter == old(self).program_counter,
            r is Err ==> final(self).stopped == old(self).stopped,
    {
        self.exec_rmw(Unary::SetBit(2), Dst::R(Reg8::C), 8)
    }

    /// SET 2,D
    fn op_cbd2(&mut self) -> (r: Result<u8, Fault>)
        requires
            old(self).wf(),
        ensures
            final(self).wf(),
            (*old(self)).rmw(*final(self), r, Unary::SetBit(2), Dst::R(Reg8::D), 8),
            r is Ok ==> final(self).program_counter == old(self).program_counter,
            r is Err ==> final(self).stopped == old(self).stopped,
    {
        self.exec_rmw(Unary::SetBit(2), Dst::R(Reg8::D), 8)
    }

    /// SET 2,E
    fn op_cbd3(&mut self) -> (r: Result<u8, Fault>)
        requires
            old(self).wf(),
        ensures
            final(self).wf(),
            (*old(self)).rmw(*final(self), r, Unary::SetBit(2), Dst::R(Reg8::E), 8),
            r is Ok ==> final(self).program_counter == old(self).program_counter,
            r is Err ==> final(self).stopped == old(self).stopped,
    {
        self.exec_rmw(Unary::SetBit(2), Dst::R(Reg8::E), 8)
    }

    /// SET 2,H
    fn op_cbd4(&mut self) -> (r: Result<u8, Fault>)
        requires
            old(self).wf(),
        ensures
            final(self).wf(),
            (*old(self)).rmw(*final(self), r, Unary::SetBit(2), Dst::R(Reg8::H), 8),
            r is Ok ==> final(self).program_counter == old(self).program_counter,
            r is Err ==> final(self).stopped == old(self).stopped,
    {
        self.exec_rmw(Unary::SetBit(2), Dst::R(Reg8::H), 8)
    }

    /// SET 2,L
    fn op_cbd5(&mut self) -> (r: Result<u8, Fault>)
        requires
            old(self).wf(),
        ensures
            final(self).wf(),
            (*old(self)).rmw(*final(self), r, Unary::SetBit(2), Dst::R(Reg8::L), 8),
            r is Ok ==> final(self).program_counter == old(self).program_counter,
            r is Err ==> final(self).stopped == old(self).stopped,
    {
        self.exec_rmw(Unary::SetBit(2), Dst::R(Reg8::L), 8)
    }

    /// SET 2,(HL)
    fn op_cbd6(&mut self) -> (r: Result<u8, Fault>)
        requires
            old(self).wf(),
        ensures
            final(self).wf(),
            (*old(self)).rmw(*final(self), r, Unary::SetBit(2), Dst::AtHL, 16),
            r is Ok ==> final(self).program_counter == old(self).program_counter,
            r is Err ==> final(self).stopped == old(self).stopped,
    {
        self.exec_rmw(Unary::SetBit(2), Dst::AtHL, 16)
    }

    /// SET 2,A
    fn op_cbd7(&mut self) -> (r: Result<u8, Fault>)
        requires
            old(self).wf(),
        ensures
            final(self).wf(),
            (*old(self)).rmw(*final(self), r, Unary::SetBit(2), Dst::R(Reg8::A), 8),
            r is Ok ==> final(self).program_counter == old(self).program_counter,
            r is Err ==> final(self).stopped == old(self).stopped,
    {
        self.exec_rmw(Unary::SetBit(2), Dst::R(Reg8::A), 8)
    }

    /// SET 3,B
    fn op_cbd8(&mut self) -> (r: Result<u8, Fault>)
        requires
            old(self).wf(),
        ensures
            final(self).wf(),
            (*old(self)).rmw(*final(self), r, Unary::SetBit(3), Dst::R(Reg8::B), 8),
            r is Ok ==> final(self).program_counter == old(self).program_counter,
            r is Err ==> final(self).stopped == old(self).stopped,
    {
        self.exec_rmw(Unary::SetBit(3), Dst::R(Reg8::B), 8)
    }

    /// SET 3,C
    fn op_cbd9(&mut self) -> (r: Result<u8, Fault>)
        requires
            old(self).wf(),
        ensures
            final(self).wf(),
            (*old(self)).rmw(*final(self), r, Unary::SetBit(3), Dst::R(Reg8::C), 8),
            r is Ok ==> final(self).program_counter == old(self).program_counter,
            r is Err ==> final(self).stopped == old(self).stopped,
    {
        self.exec_rmw(Unary::SetBit(3), Dst::R(Reg8::C), 8)
    }

    /// SET 3,D
    fn op_cbda(&mut self) -> (r: Result<u8, Fault>)
        requires
            old(self).wf(),
        ensures
            final(self).wf(),
            (*old(self)).rmw(*final(self), r, Unary::SetBit(3), Dst::R(Reg8::D), 8),
            r is Ok ==> final(self).program_counter == old(self).program_counter,
            r is Err ==> final(self).stopped == old(self).stopped,
    {
        self.exec_rmw(Unary::SetBit(3), Dst::R(Reg8::D), 8)
    }

    /// SET 3,E
    fn op_cbdb(&mut self) -> (r: Result<u8, Fault>)
        requires
            old(self).wf(),
        ensures
            final(self).wf(),
            (*old(self)).rmw(*final(self), r, Unary::SetBit(3), Dst::R(Reg8::E), 8),
            r is Ok ==> final(self).program_counter == old(self).program_counter,
            r is Err ==> final(self).stopped == old(self).stopped,
    {
        self.exec_rmw(Unary::SetBit(3), Dst::R(Reg8::E), 8)
    }

    /// SET 3,H
    fn op_cbdc(&mut self) -> (r: Result<u8, Fault>)
        requires
            old(self).wf(),
        ensures
            final(self).wf(),
            (*old(self)).rmw(*final(self), r, Unary::SetBit(3), Dst::R(Reg8::H), 8),
            r is Ok ==> final(self).program_counter == old(self).program_counter,
            r is Err ==> final(self).stopped == old(self).stopped,
    {
        self.exec_rmw(Unary::SetBit(3), Dst::R(Reg8::H), 8)
    }

    /// SET 3,L
    fn op_cbdd(&mut self) -> (r: Result<u8, Fault>)
        requires
            old(self).wf(),
        ensures
            final(self).wf(),
            (*old(self)).rmw(*final(self), r, Unary::SetBit(3), Dst::R(Reg8::L), 8),
            r is Ok ==> final(self).program_counter == old(self).program_counter,
            r is Err ==> final(self).stopped == old(self).stopped,
    {
        self.exec_rmw(Unary::SetBit(3), Dst::R(Reg8::L), 8)
    }

    /// SET 3,(HL)
    fn op_cbde(&mut self) -> (r: Result<u8, Fault>)
        requires
            old(self).wf(),
        ensures
            final(self).wf(),
            (*old(self)).rmw(*final(self), r, Unary::SetBit(3), Dst::AtHL, 16),
            r is Ok ==> final(self).program_counter == old(self).program_counter,
            r is Err ==> final(self).stopped == old(self).stopped,
    {
        self.exec_rmw(Unary::SetBit(3), Dst::AtHL, 16)
    }

    /// SET 3,A
    fn op_cbdf(&mut self) -> (r: Result<u8, Fault>)
        requires
            old(self).wf(),
        ensures
            final(self).wf(),
            (*old(self)).rmw(*final(self), r, Unary::SetBit(3), Dst::R(Reg8::A), 8),
            r is Ok ==> final(self).program_counter == old(self).program_counter,
            r is Err ==> final(self).stopped == old(self).stopped,
    {
        self.exec_rmw(Unary::SetBit(3), Dst::R(Reg8::A), 8)
    }

    /// SET 4,B
    fn op_cbe0(&mut self) -> (r: Result<u8, Fault>)
        requires
            old(self).wf(),
        ensures
            final(self).wf(),
            (*old(self)).rmw(*final(self), r, Unary::SetBit(4), Dst::R(Reg8::B), 8),
            r is Ok ==> final(self).program_counter == old(self).program_counter,
            r is Err ==> final(self).stopped == old(self).stopped,
    {
        self.exec_rmw(Unary::SetBit(4), Dst::R(Reg8::B), 8)
    }

    /// SET 4,C
    fn op_cbe1(&mut self) -> (r: Result<u8, Fault>)
        requires
            old(self).wf(),
        ensures
            final(self).wf(),
            (*old(self)).rmw(*final(self), r, Unary::SetBit(4), Dst::R(Reg8::C), 8),
            r is Ok ==> final(self).program_counter == old(self).program_counter,
            r is Err ==> final(self).stopped == old(self).stopped,
    {
        self.exec_rmw(Unary::SetBit(4), Dst::R(Reg8::C), 8)
    }

    /// SET 4,D
    fn op_cbe2(&mut self) -> (r: Result<u8, Fault>)
        requires
            old(self).wf(),
        ensures
            final(self).wf(),
            (*old(self)).rmw(*final(self), r, Unary::SetBit(4), Dst::R(Reg8::D), 8),
            r is Ok ==> final(self).program_counter == old(self).program_counter,
            r is Err ==> final(self).stopped == old(self).stopped,
    {
        self.exec_rmw(Unary::SetBit(4), Dst::R(Reg8::D), 8)
    }

    /// SET 4,E
    fn op_cbe3(&mut self) -> (r: Result<u8, Fault>)
        requires
            old(self).wf(),
        ensures
            final(self).wf(),
            (*old(self)).rmw(*final(self), r, Unary::SetBit(4), Dst::R(Reg8::E), 8),
            r is Ok ==> final(self).program_counter == old(self).program_counter,
            r is Err ==> final(self).stopped == old(self).stopped,
    {
        self.exec_rmw(Unary::SetBit(4), Dst::R(Reg8::E), 8)
    }

    /// SET 4,H
    fn op_cbe4(&mut self) -> (r: Result<u8, Fault>)
        requires
            old(self).wf(),
        ensures
            final(self).wf(),
            (*old(self)).rmw(*final(self), r, Unary::SetBit(4), Dst::R(Reg8::H), 8),
            r is Ok ==> final(self).program_counter == old(self).program_counter,
            r is Err ==> final(self).stopped == old(self).stopped,
    {
        self.exec_rmw(Unary::SetBit(4), Dst::R(Reg8::H), 8)
    }

    /// SET 4,L
    fn op_cbe5(&mut self) -> (r: Result<u8, Fault>)
        requires
            old(self).wf(),
        ensures
            final(self).wf(),
            (*old(self)).rmw(*final(self), r, Unary::SetBit(4), Dst::R(Reg8::L), 8),
            r is Ok ==> final(self).program_counter == old(self).program_counter,
            r is Err ==> final(self).stopped == old(self).stopped,
    {
        self.exec_rmw(Unary::SetBit(4), Dst::R(Reg8::L), 8)
    }

    /// SET 4,(HL)
    fn op_cbe6(&mut self) -> (r: Result<u8, Fault>)
        requires
            old(self).wf(),
        ensures
            final(self).wf(),
            (*old(self)).rmw(*final(self), r, Unary::SetBit(4), Dst::AtHL, 16),
            r is Ok ==> final(self).program_counter == old(self).program_counter,
            r is Err ==> final(self).stopped == old(self).stopped,
    {
        self.exec_rmw(Unary::SetBit(4), Dst::AtHL, 16)
    }

    /// SET 4,A
    fn op_cbe7(&mut self) -> (r: Result<u8, Fault>)
        requires
            old(self).wf(),
        ensures
            final(self).wf(),
            (*old(self)).rmw(*final(self), r, Unary::SetBit(4), Dst::R(Reg8::A), 8),
            r is Ok ==> final(self).program_counter == old(self).program_counter,
            r is Err ==> final(self).stopped == old(self).stopped,
    {
        self.exec_rmw(Unary::SetBit(4), Dst::R(Reg8::A), 8)
    }

    /// SET 5,B
    fn op_cbe8(&mut self) -> (r: Result<u8, Fault>)
        requires
            old(self).wf(),
        ensures
            final(self).wf(),
            (*old(self)).rmw(*final(self), r, Unary::SetBit(5), Dst::R(Reg8::B), 8),
            r is Ok ==> final(self).program_counter == old(self).program_counter,
            r is Err ==> final(self).stopped == old(self).stopped,
    {
        self.exec_rmw(Unary::SetBit(5), Dst::R(Reg8::B), 8)
    }

    /// SET 5,C
    fn op_cbe9(&mut self) -> (r: Result<u8, Fault>)
        requires
            old(self).wf(),
        ensures
            final(self).wf(),
            (*old(self)).rmw(*final(self), r, Unary::SetBit(5), Dst::R(Reg8::C), 8),
            r is Ok ==> final(self).program_counter == old(self).program_counter,
            r is Err ==> final(self).stopped == old(self).stopped,
    {
        self.exec_rmw(Unary::SetBit(5), Dst::R(Reg8::C), 8)
    }

    /// SET 5,D
    fn op_cbea(&mut self) -> (r: Result<u8, Fault>)
        requires
            old(self).wf(),
        ensures
            final(self).wf(),
            (*old(self)).rmw(*final(self), r, Unary::SetBit(5), Dst::R(Reg8::D), 8),
            r is Ok ==> final(self).program_counter == old(self).program_counter,
            r is Err ==> final(self).stopped == old(self).stopped,
    {
        self.exec_rmw(Unary::SetBit(5), Dst::R(Reg8::D), 8)
    }

    /// SET 5,E
    fn op_cbeb(&mut self) -> (r: Result<u8, Fault>)
        requires
            old(self).wf(),
        ensures
            final(self).wf(),
            (*old(self)).rmw(*final(self), r, Unary::SetBit(5), Dst::R(Reg8::E), 8),
            r is Ok ==> final(self).program_counter == old(self).program_counter,
            r is Err ==> final(self).stopped == old(self).stopped,
    {
        self.exec_rmw(Unary::SetBit(5), Dst::R(Reg8::E), 8)
    }

    /// SET 5,H
    fn op_cbec(&mut self) -> (r: Result<u8, Fault>)
        requires
            old(self).wf(),
        ensures
            final(self).wf(),
            (*old(self)).rmw(*final(self), r, Unary::SetBit(5), Dst::R(Reg8::H), 8),
            r is Ok ==> final(self).program_counter == old(self).program_counter,
            r is Err ==> final(self).stopped == old(self).stopped,
    {
        self.exec_rmw(Unary::SetBit(5), Dst::R(Reg8::H), 8)
    }

    /// SET 5,L
    fn op_cbed(&mut self) -> (r: Result<u8, Fault>)
        requires
            old(self).wf(),
        ensures
            final(self).wf(),
            (*old(self)).rmw(*final(self), r, Unary::SetBit(5), Dst::R(Reg8::L), 8),
            r is Ok ==> final(self).program_counter == old(self).program_counter,
            r is Err ==> final(self).stopped == old(self).stopped,
    {
        self.exec_rmw(Unary::SetBit(5), Dst::R(Reg8::L), 8)
    }

    /// SET 5,(HL)
    fn op_cbee(&mut self) -> (r: Result<u8, Fault>)
        requires
            old(self).wf(),
        ensures
            final(self).wf(),
            (*old(self)).rmw(*final(self), r, Unary::SetBit(5), Dst::AtHL, 16),
            r is Ok ==> final(self).program_counter == old(self).program_counter,
            r is Err ==> final(self).stopped == old(self).stopped,
    {
        self.exec_rmw(Unary::SetBit(5), Dst::AtHL, 16)
    }

    /// SET 5,A
    fn op_cbef(&mut self) -> (r: Result<u8, Fault>)
        requires
            old(self).wf(),
        ensures
            final(self).wf(),
            (*old(self)).rmw(*final(self), r, Unary::SetBit(5), Dst::R(Reg8::A), 8),
            r is Ok ==> final(self).program_counter == old(self).program_counter,
            r is Err ==> final(self).stopped == old(self).stopped,
    {
        self.exec_rmw(Unary::SetBit(5), Dst::R(Reg8::A), 8)
    }

    /// SET 6,B
    fn op_cbf0(&mut self) -> (r: Result<u8, Fault>)
        requires
            old(self).wf(),
        ensures
            final(self).wf(),
            (*old(self)).rmw(*final(self), r, Unary::SetBit(6), Dst::R(Reg8::B), 8),
            r is Ok ==> final(self).program_counter == old(self).program_counter,
            r is Err ==> final(self).stopped == old(self).stopped,
    {
        self.exec_rmw(Unary::SetBit(6), Dst::R(Reg8::B), 8)
    }

    /// SET 6,C
    fn op_cbf1(&mut self) -> (r: Result<u8, Fault>)
        requires
            old(self).wf(),
        ensures
            final(self).wf(),
            (*old(self)).rmw(*final(self), r, Unary::SetBit(6), Dst::R(Reg8::C), 8),
            r is Ok ==> final(self).program_counter == old(self).program_counter,
            r is Err ==> final(self).stopped == old(self).stopped,
    {
        self.exec_rmw(Unary::SetBit(6), Dst::R(Reg8::C), 8)
    }

    /// SET 6,D
    fn op_cbf2(&mut self) -> (r: Result<u8, Fault>)
        requires
            old(self).wf(),
        ensures
            final(self).wf(),
            (*old(self)).rmw(*final(self), r, Unary::SetBit(6), Dst::R(Reg8::D), 8),
            r is Ok ==> final(self).program_counter == old(self).program_counter,
            r is Err ==> final(self).stopped == old(self).stopped,
    {
        self.exec_rmw(Unary::SetBit(6), Dst::R(Reg8::D), 8)
    }

    /// SET 6,E
    fn op_cbf3(&mut self) -> (r: Result<u8, Fault>)
        requires
            old(self).wf(),
        ensures
            final(self).wf(),
            (*old(self)).rmw(*final(self), r, Unary::SetBit(6), Dst::R(Reg8::E), 8),
            r is Ok ==> final(self).program_counter == old(self).program_counter,
            r is Err ==> final(self).stopped == old(self).stopped,
    {
        self.exec_rmw(Unary::SetBit(6), Dst::R(Reg8::E), 8)
    }

    /// SET 6,H
    fn op_cbf4(&mut self) -> (r: Result<u8, Fault>)
        requires
            old(self).wf(),
        ensures
            final(self).wf(),
            (*old(self)).rmw(*final(self), r, Unary::SetBit(6), Dst::R(Reg8::H), 8),
            r is Ok ==> final(self).program_counter == old(self).program_counter,
            r is Err ==> final(self).stopped == old(self).stopped,
    {
        self.exec_rmw(Unary::SetBit(6), Dst::R(Reg8::H), 8)
    }

    /// SET 6,L
    fn op_cbf5(&mut self) -> (r: Result<u8, Fault>)
        requires
            old(self).wf(),
        ensures
            final(self).wf(),
            (*old(self)).rmw(*final(self), r, Unary::SetBit(6), Dst::R(Reg8::L), 8),
            r is Ok ==> final(self).program_counter == old(self).program_counter,
            r is Err ==> final(self).stopped == old(self).stopped,
    {
        self.exec_rmw(Unary::SetBit(6), Dst::R(Reg8::L), 8)
    }

    /// SET 6,(HL)
    fn op_cbf6(&mut self) -> (r: Result<u8, Fault>)
        requires
            old(self).wf(),
        ensures
            final(self).wf(),
            (*old(self)).rmw(*final(self), r, Unary::SetBit(6), Dst::AtHL, 16),
            r is Ok ==> final(self).program_counter == old(self).program_counter,
            r is Err ==> final(self).stopped == old(self).stopped,
    {
        self.exec_rmw(Unary::SetBit(6), Dst::AtHL, 16)
    }

    /// SET 6,A
    fn op_cbf7(&mut self) -> (r: Result<u8, Fault>)
        requires
            old(self).wf(),
        ensures
            final(self).wf(),
            (*old(self)).rmw(*final(self), r, Unary::SetBit(6), Dst::R(Reg8::A), 8),
            r is Ok ==> final(self).program_counter == old(self).program_counter,
            r is Err ==> final(self).stopped == old(self).stopped,
    {
        self.exec_rmw(Unary::SetBit(6), Dst::R(Reg8::A), 8)
    }

    /// SET 7,B
    fn op_cbf8(&mut self) -> (r: Result<u8, Fault>)
        requires
            old(self).wf(),
        ensures
            final(self).wf(),
            (*old(self)).rmw(*final(self), r, Unary::SetBit(7), Dst::R(Reg8::B), 8),
            r is Ok ==> final(self).program_counter == old(self).program_counter,
            r is Err ==> final(self).stopped == old(self).stopped,
    {
        self.exec_rmw(Unary::SetBit(7), Dst::R(Reg8::B), 8)
    }

    /// SET 7,C
    fn op_cbf9(&mut self) -> (r: Result<u8, Fault>)
        requires
            old(self).wf(),
        ensures
            final(self).wf(),
            (*old(self)).rmw(*final(self), r, Unary::SetBit(7), Dst::R(Reg8::C), 8),
            r is Ok ==> final(self).program_counter == old(self).program_counter,
            r is Err ==> final(self).stopped == old(self).stopped,
    {
        self.exec_rmw(Unary::SetBit(7), Dst::R(Reg8::C), 8)
    }

    /// SET 7,D
    fn op_cbfa(&mut self) -> (r: Result<u8, Fault>)
        requires
            old(self).wf(),
        ensures
            final(self).wf(),
            (*old(self)).rmw(*final(self), r, Unary::SetBit(7), Dst::R(Reg8::D), 8),
            r is Ok ==> final(self).program_counter == old(self).program_counter,
            r is Err ==> final(self).stopped == old(self).stopped,
    {
        self.exec_rmw(Unary::SetBit(7), Dst::R(Reg8::D), 8)
    }

    /// SET 7,E
    fn op_cbfb(&mut self) -> (r: Result<u8, Fault>)
        requires
            old(self).wf(),
        ensures
            final(self).wf(),
            (*old(self)).rmw(*final(self), r, Unary::SetBit(7), Dst::R(Reg8::E), 8),
            r is Ok ==> final(self).program_counter == old(self).program_counter,
            r is Err ==> final(self).stopped == old(self).stopped,
    {
        self.exec_rmw(Unary::SetBit(7), Dst::R(Reg8::E), 8)
    }

    /// SET 7,H
    fn op_cbfc(&mut self) -> (r: Result<u8, Fault>)
        requires
            old(self).wf(),
        ensures
            final(self).wf(),
            (*old(self)).rmw(*final(self), r, Unary::SetBit(7), Dst::R(Reg8::H), 8),
            r is Ok ==> final(self).program_counter == old(self).program_counter,
            r is Err ==> final(self).stopped == old(self).stopped,
    {
        self.exec_rmw(Unary::SetBit(7), Dst::R(Reg8::H), 8)
    }

    /// SET 7,L
    fn op_cbfd(&mut self) -> (r: Result<u8, Fault>)
        requires
            old(self).wf(),
        ensures
            final(self).wf(),
            (*old(self)).rmw(*final(self), r, Unary::SetBit(7), Dst::R(Reg8::L), 8),
            r is Ok ==> final(self).program_counter == old(self).program_counter,
            r is Err ==> final(self).stopped == old(self).stopped,
    {
        self.exec_rmw(Unary::SetBit(7), Dst::R(Reg8::L), 8)
    }

    /// SET 7,(HL)
    fn op_cbfe(&mut self) -> (r: Result<u8, Fault>)
        requires
            old(self).wf(),
        ensures
            final(self).wf(),
            (*old(self)).rmw(*final(self), r, Unary::SetBit(7), Dst::AtHL, 16),
            r is Ok ==> final(self).program_counter == old(self).program_counter,
            r is Err ==> final(self).stopped == old(self).stopped,
    {
        self.exec_rmw(Unary::SetBit(7), Dst::AtHL, 16)
    }

    /// SET 7,A
    fn op_cbff(&mut self) -> (r: Result<u8, Fault>)
        requires
            old(self).wf(),
        ensures
            final(self).wf(),
            (*old(self)).rmw(*final(self), r, Unary::SetBit(7), Dst::R(Reg8::A), 8),
            r is Ok ==> final(self).program_counter == old(self).program_counter,
            r is Err ==> final(self).stopped == old(self).stopped,
    {
        self.exec_rmw(Unary::SetBit(7), Dst::R(Reg8::A), 8)
    }

    /// Runs the instruction `op` of the extended page.
    pub fn decode_extended(&mut self, op: u8) -> (r: Result<u8, Fault>)
        requires
            old(self).wf(),
        ensures
            final(self).wf(),
            executes_extended(op, *old(self), *final(self), r),
            r is Ok ==> final(self).program_counter == old(self).program_counter,
            r is Err ==> final(self).stopped == old(self).stopped,
    {
        proof {
            reveal(executes_extended);
        }
        match op {
            0x00 => self.op_cb00(),
            0x01 => self.op_cb01(),
            0x02 => self.op_cb02(),
            0x03 => self.op_cb03(),
            0x04 => self.op_cb04(),
            0x05 => self.op_cb05(),
            0x06 => self.op_cb06(),
            0x07 => self.op_cb07(),
            0x08 => self.op_cb08(),
            0x09 => self.op_cb09(),
            0x0A => self.op_cb0a(),
            0x0B => self.op_cb0b(),
            0x0C => self.op_cb0c(),
            0x0D => self.op_cb0d(),
            0x0E => self.op_cb0e(),
            0x0F => self.op_cb0f(),
            0x10 => self.op_cb10(),
            0x11 => self.op_cb11(),
            0x12 => self.op_cb12(),
            0x13 => self.op_cb13(),
            0x14 => self.op_cb14(),
            0x15 => self.op_cb15(),
            0x16 => self.op_cb16(),
            0x17 => self.op_cb17(),
            0x18 => self.op_cb18(),
            0x19 => self.op_cb19(),
            0x1A => self.op_cb1a(),
            0x1B => self.op_cb1b(),
            0x1C => self.op_cb1c(),
            0x1D => self.op_cb1d(),
            0x1E => self.op_cb1e(),
            0x1F => self.op_cb1f(),
            0x20 => self.op_cb20(),
            0x21 => self.op_cb21(),
            0x22 => self.op_cb22(),
            0x23 => self.op_cb23(),
            0x24 => self.op_cb24(),
            0x25 => self.op_cb25(),
            0x26 => self.op_cb26(),
            0x27 => self.op_cb27(),
            0x28 => self.op_cb28(),
            0x29 => self.op_cb29(),
            0x2A => self.op_cb2a(),
            0x2B => self.op_cb2b(),
            0x2C => self.op_cb2c(),
            0x2D => self.op_cb2d(),
            0x2E => self.op_cb2e(),
            0x2F => self.op_cb2f(),
            0x30 => self.op_cb30(),
            0x31 => self.op_cb31(),
            0x32 => self.op_cb32(),
            0x33 => self.op_cb33(),
            0x34 => self.op_cb34(),
            0x35 => self.op_cb35(),
            0x36 => self.op_cb36(),
            0x37 => self.op_cb37(),
            0x38 => self.op_cb38(),
            0x39 => self.op_cb39(),
            0x3A => self.op_cb3a(),
            0x3B => self.op_cb3b(),
            0x3C => self.op_cb3c(),
            0x3D => self.op_cb3d(),
            0x3E => self.op_cb3e(),
            0x3F => self.op_cb3f(),
            0x40 => self.op_cb40(),
            0x41 => self.op_cb41(),
            0x42 => self.op_cb42(),
            0x43 => self.op_cb43(),
            0x44 => self.op_cb44(),
            0x45 => self.op_cb45(),
            0x46 => self.op_cb46(),
            0x47 => self.op_cb47(),
            0x48 => self.op_cb48(),
            0x49 => self.op_cb49(),
            0x4A => self.op_cb4a(),
            0x4B => self.op_cb4b(),
            0x4C => self.op_cb4c(),
            0x4D => self.op_cb4d(),
            0x4E => self.op_cb4e(),
            0x4F => self.op_cb4f(),
            0x50 => self.op_cb50(),
            0x51 => self.op_cb51(),
            0x52 => self.op_cb52(),
            0x53 => self.op_cb53(),
            0x54 => self.op_cb54(),
            0x55 => self.op_cb55(),
            0x56 => self.op_cb56(),
            0x57 => self.op_cb57(),
            0x58 => self.op_cb58(),
            0x59 => self.op_cb59(),
            0x5A => self.op_cb5a(),
            0x5B => self.op_cb5b(),
            0x5C => self.op_cb5c(),
            0x5D => self.op_cb5d(),
            0x5E => self.op_cb5e(),
            0x5F => self.op_cb5f(),
            0x60 => self.op_cb60(),
            0x61 => self.op_cb61(),
            0x62 => self.op_cb62(),
            0x63 => self.op_cb63(),
            0x64 => self.op_cb64(),
            0x65 => self.op_cb65(),
            0x66 => self.op_cb66(),
            0x67 => self.op_cb67(),
            0x68 => self.op_cb68(),
            0x69 => self.op_cb69(),
            0x6A => self.op_cb6a(),
            0x6B => self.op_cb6b(),
            0x6C => self.op_cb6c(),
            0x6D => self.op_cb6d(),
            0x6E => self.op_cb6e(),
            0x6F => self.op_cb6f(),
            0x70 => self.op_cb70(),
            0x71 => self.op_cb71(),
            0x72 => self.op_cb72(),
            0x73 => self.op_cb73(),
            0x74 => self.op_cb74(),
            0x75 => self.op_cb75(),
            0x76 => self.op_cb76(),
            0x77 => self.op_cb77(),
            0x78 => self.op_cb78(),
            0x79 => self.op_cb79(),
            0x7A => self.op_cb7a(),
            0x7B => self.op_cb7b(),
            0x7C => self.op_cb7c(),
            0x7D => self.op_cb7d(),
            0x7E => self.op_cb7e(),
            0x7F => self.op_cb7f(),
            0x80 => self.op_cb80(),
            0x81 => self.op_cb81(),
            0x82 => self.op_cb82(),
            0x83 => self.op_cb83(),
            0x84 => self.op_cb84(),
            0x85 => self.op_cb85(),
            0x86 => self.op_cb86(),
            0x87 => self.op_cb87(),
            0x88 => self.op_cb88(),
            0x89 => self.op_cb89(),
            0x8A => self.op_cb8a(),
            0x8B => self.op_cb8b(),
            0x8C => self.op_cb8c(),
            0x8D => self.op_cb8d(),
            0x8E => self.op_cb8e(),
            0x8F => self.op_cb8f(),
            0x90 => self.op_cb90(),
            0x91 => self.op_cb91(),
            0x92 => self.op_cb92(),
            0x93 => self.op_cb93(),
            0x94 => self.op_cb94(),
            0x95 => self.op_cb95(),
            0x96 => self.op_cb96(),
            0x97 => self.op_cb97(),
            0x98 => self.op_cb98(),
            0x99 => self.op_cb99(),
            0x9A => self.op_cb9a(),
            0x9B => self.op_cb9b(),
            0x9C => self.op_cb9c(),
            0x9D => self.op_cb9d(),
            0x9E => self.op_cb9e(),
            0x9F => self.op_cb9f(),
            0xA0 => self.op_cba0(),
            0xA1 => self.op_cba1(),
            0xA2 => self.op_cba2(),
            0xA3 => self.op_cba3(),
            0xA4 => self.op_cba4(),
            0xA5 => self.op_cba5(),
            0xA6 => self.op_cba6(),
            0xA7 => self.op_cba7(),
            0xA8 => self.op_cba8(),
            0xA9 => self.op_cba9(),
            0xAA => self.op_cbaa(),
            0xAB => self.op_cbab(),
            0xAC => self.op_cbac(),
            0xAD => self.op_cbad(),
            0xAE => self.op_cbae(),
            0xAF => self.op_cbaf(),
            0xB0 => self.op_cbb0(),
            0xB1 => self.op_cbb1(),
            0xB2 => self.op_cbb2(),
            0xB3 => self.op_cbb3(),
            0xB4 => self.op_cbb4(),
            0xB5 => self.op_cbb5(),
            0xB6 => self.op_cbb6(),
            0xB7 => self.op_cbb7(),
            0xB8 => self.op_cbb8(),
            0xB9 => self.op_cbb9(),
            0xBA => self.op_cbba(),
            0xBB => self.op_cbbb(),
            0xBC => self.op_cbbc(),
            0xBD => self.op_cbbd(),
            0xBE => self.op_cbbe(),
            0xBF => self.op_cbbf(),
            0xC0 => self.op_cbc0(),
            0xC1 => self.op_cbc1(),
            0xC2 => self.op_cbc2(),
            0xC3 => self.op_cbc3(),
            0xC4 => self.op_cbc4(),
            0xC5 => self.op_cbc5(),
            0xC6 => self.op_cbc6(),
            0xC7 => self.op_cbc7(),
            0xC8 => self.op_cbc8(),
            0xC9 => self.op_cbc9(),
            0xCA => self.op_cbca(),
            0xCB => self.op_cbcb(),
            0xCC => self.op_cbcc(),
            0xCD => self.op_cbcd(),
            0xCE => self.op_cbce(),
            0xCF => self.op_cbcf(),
            0xD0 => self.op_cbd0(),
            0xD1 => self.op_cbd1(),
            0xD2 => self.op_cbd2(),
            0xD3 => self.op_cbd3(),
            0xD4 => self.op_cbd4(),
            0xD5 => self.op_cbd5(),
            0xD6 => self.op_cbd6(),
            0xD7 => self.op_cbd7(),
            0xD8 => self.op_cbd8(),
            0xD9 => self.op_cbd9(),
            0xDA => self.op_cbda(),
            0xDB => self.op_cbdb(),
            0xDC => self.op_cbdc(),
            0xDD => self.op_cbdd(),
            0xDE => self.op_cbde(),
            0xDF => self.op_cbdf(),
            0xE0 => self.op_cbe0(),
            0xE1 => self.op_cbe1(),
            0xE2 => self.op_cbe2(),
            0xE3 => self.op_cbe3(),
            0xE4 => self.op_cbe4(),
            0xE5 => self.op_cbe5(),
            0xE6 => self.op_cbe6(),
            0xE7 => self.op_cbe7(),
            0xE8 => self.op_cbe8(),
            0xE9 => self.op_cbe9(),
            0xEA => self.op_cbea(),
            0xEB => self.op_cbeb(),
            0xEC => self.op_cbec(),
            0xED => self.op_cbed(),
            0xEE => self.op_cbee(),
            0xEF => self.op_cbef(),
            0xF0 => self.op_cbf0(),
            0xF1 => self.op_cbf1(),
            0xF2 => self.op_cbf2(),
            0xF3 => self.op_cbf3(),
            0xF4 => self.op_cbf4(),
            0xF5 => self.op_cbf5(),
            0xF6 => self.op_cbf6(),
            0xF7 => self.op_cbf7(),
            0xF8 => self.op_cbf8(),
            0xF9 => self.op_cbf9(),
            0xFA => self.op_cbfa(),
            0xFB => self.op_cbfb(),
            0xFC => self.op_cbfc(),
            0xFD => self.op_cbfd(),
            0xFE => self.op_cbfe(),
            0xFF => self.op_cbff(),
        }
    }

}

} // verus!
