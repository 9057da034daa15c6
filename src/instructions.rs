//! The unprefixed instructions, one routine each.
use crate::opcodes::is_control;
use crate::cpu::{Fault, Reg16, Reg8, CPU};
use crate::ops::{AluOp, Addr, Cond, Dst, Src, Unary};
use vstd::prelude::*;

verus! {

/// What the instruction `op` of the unprefixed page does: `post` and `r` are the
/// machine and the outcome after it runs on `pre`, whose program counter
/// stands after the opcode.
#[verifier::opaque]
pub open spec fn executes_base(op: u8, pre: CPU, post: CPU, r: Result<u8, Fault>) -> bool {
    match op {
        0x00u8 => r == Ok::<u8, Fault>(4) && post == pre,
        0x01u8 => pre.ld16_imm(post, r, Reg16::BC),
        0x02u8 => pre.ld_a_to(post, r, Addr::BC, 8),
        0x03u8 => pre.step16(post, r, Reg16::BC, 1),
        0x04u8 => pre.rmw(post, r, Unary::Inc, Dst::R(Reg8::B), 4),
        0x05u8 => pre.rmw(post, r, Unary::Dec, Dst::R(Reg8::B), 4),
        0x06u8 => pre.ld8(post, r, Dst::R(Reg8::B), Src::Imm, 8),
        0x07u8 => pre.rot_a(post, r, Unary::Rlc),
        0x08u8 => pre.store_sp(post, r),
        0x09u8 => pre.add_hl(post, r, Reg16::BC),
        0x0Au8 => pre.ld_a_from(post, r, Addr::BC, 8),
        0x0Bu8 => pre.step16(post, r, Reg16::BC, -1),
        0x0Cu8 => pre.rmw(post, r, Unary::Inc, Dst::R(Reg8::C), 4),
        0x0Du8 => pre.rmw(post, r, Unary::Dec, Dst::R(Reg8::C), 4),
        0x0Eu8 => pre.ld8(post, r, Dst::R(Reg8::C), Src::Imm, 8),
        0x0Fu8 => pre.rot_a(post, r, Unary::Rrc),
        0x10u8 => r == Ok::<u8, Fault>(4) && post == (CPU { stopped: true, ..pre }),
        0x11u8 => pre.ld16_imm(post, r, Reg16::DE),
        0x12u8 => pre.ld_a_to(post, r, Addr::DE, 8),
        0x13u8 => pre.step16(post, r, Reg16::DE, 1),
        0x14u8 => pre.rmw(post, r, Unary::Inc, Dst::R(Reg8::D), 4),
        0x15u8 => pre.rmw(post, r, Unary::Dec, Dst::R(Reg8::D), 4),
        0x16u8 => pre.ld8(post, r, Dst::R(Reg8::D), Src::Imm, 8),
        0x17u8 => pre.rot_a(post, r, Unary::Rl),
        0x18u8 => pre.jr(post, r, Cond::Always),
        0x19u8 => pre.add_hl(post, r, Reg16::DE),
        0x1Au8 => pre.ld_a_from(post, r, Addr::DE, 8),
        0x1Bu8 => pre.step16(post, r, Reg16::DE, -1),
        0x1Cu8 => pre.rmw(post, r, Unary::Inc, Dst::R(Reg8::E), 4),
        0x1Du8 => pre.rmw(post, r, Unary::Dec, Dst::R(Reg8::E), 4),
        0x1Eu8 => pre.ld8(post, r, Dst::R(Reg8::E), Src::Imm, 8),
        0x1Fu8 => pre.rot_a(post, r, Unary::Rr),
        0x20u8 => pre.jr(post, r, Cond::NZ),
        0x21u8 => pre.ld16_imm(post, r, Reg16::HL),
        0x22u8 => pre.ld_a_to(post, r, Addr::HLInc, 8),
        0x23u8 => pre.step16(post, r, Reg16::HL, 1),
        0x24u8 => pre.rmw(post, r, Unary::Inc, Dst::R(Reg8::H), 4),
        0x25u8 => pre.rmw(post, r, Unary::Dec, Dst::R(Reg8::H), 4),
        0x26u8 => pre.ld8(post, r, Dst::R(Reg8::H), Src::Imm, 8),
        0x27u8 => pre.rmw(post, r, Unary::Daa, Dst::R(Reg8::A), 4),
        0x28u8 => pre.jr(post, r, Cond::Z),
        0x29u8 => pre.add_hl(post, r, Reg16::HL),
        0x2Au8 => pre.ld_a_from(post, r, Addr::HLInc, 8),
        0x2Bu8 => pre.step16(post, r, Reg16::HL, -1),
        0x2Cu8 => pre.rmw(post, r, Unary::Inc, Dst::R(Reg8::L), 4),
        0x2Du8 => pre.rmw(post, r, Unary::Dec, Dst::R(Reg8::L), 4),
        0x2Eu8 => pre.ld8(post, r, Dst::R(Reg8::L), Src::Imm, 8),
        0x2Fu8 => pre.rmw(post, r, Unary::Cpl, Dst::R(Reg8::A), 4),
        0x30u8 => pre.jr(post, r, Cond::NC),
        0x31u8 => pre.ld16_imm(post, r, Reg16::SP),
        0x32u8 => pre.ld_a_to(post, r, Addr::HLDec, 8),
        0x33u8 => pre.step16(post, r, Reg16::SP, 1),
        0x34u8 => pre.rmw(post, r, Unary::Inc, Dst::AtHL, 12),
        0x35u8 => pre.rmw(post, r, Unary::Dec, Dst::AtHL, 12),
        0x36u8 => pre.ld8(post, r, Dst::AtHL, Src::Imm, 12),
        0x37u8 => pre.rmw(post, r, Unary::Scf, Dst::R(Reg8::A), 4),
        0x38u8 => pre.jr(post, r, Cond::C),
        0x39u8 => pre.add_hl(post, r, Reg16::SP),
        0x3Au8 => pre.ld_a_from(post, r, Addr::HLDec, 8),
        0x3Bu8 => pre.step16(post, r, Reg16::SP, -1),
        0x3Cu8 => pre.rmw(post, r, Unary::Inc, Dst::R(Reg8::A), 4),
        0x3Du8 => pre.rmw(post, r, Unary::Dec, Dst::R(Reg8::A), 4),
        0x3Eu8 => pre.ld8(post, r, Dst::R(Reg8::A), Src::Imm, 8),
        0x3Fu8 => pre.rmw(post, r, Unary::Ccf, Dst::R(Reg8::A), 4),
        0x40u8 => pre.ld8(post, r, Dst::R(Reg8::B), Src::R(Reg8::B), 4),
        0x41u8 => pre.ld8(post, r, Dst::R(Reg8::B), Src::R(Reg8::C), 4),
        0x42u8 => pre.ld8(post, r, Dst::R(Reg8::B), Src::R(Reg8::D), 4),
        0x43u8 => pre.ld8(post, r, Dst::R(Reg8::B), Src::R(Reg8::E), 4),
        0x44u8 => pre.ld8(post, r, Dst::R(Reg8::B), Src::R(Reg8::H), 4),
        0x45u8 => pre.ld8(post, r, Dst::R(Reg8::B), Src::R(Reg8::L), 4),
        0x46u8 => pre.ld8(post, r, Dst::R(Reg8::B), Src::AtHL, 8),
        0x47u8 => pre.ld8(post, r, Dst::R(Reg8::B), Src::R(Reg8::A), 4),
        0x48u8 => pre.ld8(post, r, Dst::R(Reg8::C), Src::R(Reg8::B), 4),
        0x49u8 => pre.ld8(post, r, Dst::R(Reg8::C), Src::R(Reg8::C), 4),
        0x4Au8 => pre.ld8(post, r, Dst::R(Reg8::C), Src::R(Reg8::D), 4),
        0x4Bu8 => pre.ld8(post, r, Dst::R(Reg8::C), Src::R(Reg8::E), 4),
        0x4Cu8 => pre.ld8(post, r, Dst::R(Reg8::C), Src::R(Reg8::H), 4),
        0x4Du8 => pre.ld8(post, r, Dst::R(Reg8::C), Src::R(Reg8::L), 4),
        0x4Eu8 => pre.ld8(post, r, Dst::R(Reg8::C), Src::AtHL, 8),
        0x4Fu8 => pre.ld8(post, r, Dst::R(Reg8::C), Src::R(Reg8::A), 4),
        0x50u8 => pre.ld8(post, r, Dst::R(Reg8::D), Src::R(Reg8::B), 4),
        0x51u8 => pre.ld8(post, r, Dst::R(Reg8::D), Src::R(Reg8::C), 4),
        0x52u8 => pre.ld8(post, r, Dst::R(Reg8::D), Src::R(Reg8::D), 4),
        0x53u8 => pre.ld8(post, r, Dst::R(Reg8::D), Src::R(Reg8::E), 4),
        0x54u8 => pre.ld8(post, r, Dst::R(Reg8::D), Src::R(Reg8::H), 4),
        0x55u8 => pre.ld8(post, r, Dst::R(Reg8::D), Src::R(Reg8::L), 4),
        0x56u8 => pre.ld8(post, r, Dst::R(Reg8::D), Src::AtHL, 8),
        0x57u8 => pre.ld8(post, r, Dst::R(Reg8::D), Src::R(Reg8::A), 4),
        0x58u8 => pre.ld8(post, r, Dst::R(Reg8::E), Src::R(Reg8::B), 4),
        0x59u8 => pre.ld8(post, r, Dst::R(Reg8::E), Src::R(Reg8::C), 4),
        0x5Au8 => pre.ld8(post, r, Dst::R(Reg8::E), Src::R(Reg8::D), 4),
        0x5Bu8 => pre.ld8(post, r, Dst::R(Reg8::E), Src::R(Reg8::E), 4),
        0x5Cu8 => pre.ld8(post, r, Dst::R(Reg8::E), Src::R(Reg8::H), 4),
        0x5Du8 => pre.ld8(post, r, Dst::R(Reg8::E), Src::R(Reg8::L), 4),
        0x5Eu8 => pre.ld8(post, r, Dst::R(Reg8::E), Src::AtHL, 8),
        0x5Fu8 => pre.ld8(post, r, Dst::R(Reg8::E), Src::R(Reg8::A), 4),
        0x60u8 => pre.ld8(post, r, Dst::R(Reg8::H), Src::R(Reg8::B), 4),
        0x61u8 => pre.ld8(post, r, Dst::R(Reg8::H), Src::R(Reg8::C), 4),
        0x62u8 => pre.ld8(post, r, Dst::R(Reg8::H), Src::R(Reg8::D), 4),
        0x63u8 => pre.ld8(post, r, Dst::R(Reg8::H), Src::R(Reg8::E), 4),
        0x64u8 => pre.ld8(post, r, Dst::R(Reg8::H), Src::R(Reg8::H), 4),
        0x65u8 => pre.ld8(post, r, Dst::R(Reg8::H), Src::R(Reg8::L), 4),
        0x66u8 => pre.ld8(post, r, Dst::R(Reg8::H), Src::AtHL, 8),
        0x67u8 => pre.ld8(post, r, Dst::R(Reg8::H), Src::R(Reg8::A), 4),
        0x68u8 => pre.ld8(post, r, Dst::R(Reg8::L), Src::R(Reg8::B), 4),
        0x69u8 => pre.ld8(post, r, Dst::R(Reg8::L), Src::R(Reg8::C), 4),
        0x6Au8 => pre.ld8(post, r, Dst::R(Reg8::L), Src::R(Reg8::D), 4),
        0x6Bu8 => pre.ld8(post, r, Dst::R(Reg8::L), Src::R(Reg8::E), 4),
        0x6Cu8 => pre.ld8(post, r, Dst::R(Reg8::L), Src::R(Reg8::H), 4),
        0x6Du8 => pre.ld8(post, r, Dst::R(Reg8::L), Src::R(Reg8::L), 4),
        0x6Eu8 => pre.ld8(post, r, Dst::R(Reg8::L), Src::AtHL, 8),
        0x6Fu8 => pre.ld8(post, r, Dst::R(Reg8::L), Src::R(Reg8::A), 4),
        0x70u8 => pre.ld8(post, r, Dst::AtHL, Src::R(Reg8::B), 8),
        0x71u8 => pre.ld8(post, r, Dst::AtHL, Src::R(Reg8::C), 8),
        0x72u8 => pre.ld8(post, r, Dst::AtHL, Src::R(Reg8::D), 8),
        0x73u8 => pre.ld8(post, r, Dst::AtHL, Src::R(Reg8::E), 8),
        0x74u8 => pre.ld8(post, r, Dst::AtHL, Src::R(Reg8::H), 8),
        0x75u8 => pre.ld8(post, r, Dst::AtHL, Src::R(Reg8::L), 8),
        0x76u8 => r == Ok::<u8, Fault>(4) && post == (CPU { halted: true, ..pre }),
        0x77u8 => pre.ld8(post, r, Dst::AtHL, Src::R(Reg8::A), 8),
        0x78u8 => pre.ld8(post, r, Dst::R(Reg8::A), Src::R(Reg8::B), 4),
        0x79u8 => pre.ld8(post, r, Dst::R(Reg8::A), Src::R(Reg8::C), 4),
        0x7Au8 => pre.ld8(post, r, Dst::R(Reg8::A), Src::R(Reg8::D), 4),
        0x7Bu8 => pre.ld8(post, r, Dst::R(Reg8::A), Src::R(Reg8::E), 4),
        0x7Cu8 => pre.ld8(post, r, Dst::R(Reg8::A), Src::R(Reg8::H), 4),
        0x7Du8 => pre.ld8(post, r, Dst::R(Reg8::A), Src::R(Reg8::L), 4),
        0x7Eu8 => pre.ld8(post, r, Dst::R(Reg8::A), Src::AtHL, 8),
        0x7Fu8 => pre.ld8(post, r, Dst::R(Reg8::A), Src::R(Reg8::A), 4),
        0x80u8 => pre.alu(post, r, AluOp::Add, Src::R(Reg8::B), 4),
        0x81u8 => pre.alu(post, r, AluOp::Add, Src::R(Reg8::C), 4),
        0x82u8 => pre.alu(post, r, AluOp::Add, Src::R(Reg8::D), 4),
        0x83u8 => pre.alu(post, r, AluOp::Add, Src::R(Reg8::E), 4),
        0x84u8 => pre.alu(post, r, AluOp::Add, Src::R(Reg8::H), 4),
        0x85u8 => pre.alu(post, r, AluOp::Add, Src::R(Reg8::L), 4),
        0x86u8 => pre.alu(post, r, AluOp::Add, Src::AtHL, 8),
        0x87u8 => pre.alu(post, r, AluOp::Add, Src::R(Reg8::A), 4),
        0x88u8 => pre.alu(post, r, AluOp::Adc, Src::R(Reg8::B), 4),
        0x89u8 => pre.alu(post, r, AluOp::Adc, Src::R(Reg8::C), 4),
        0x8Au8 => pre.alu(post, r, AluOp::Adc, Src::R(Reg8::D), 4),
        0x8Bu8 => pre.alu(post, r, AluOp::Adc, Src::R(Reg8::E), 4),
        0x8Cu8 => pre.alu(post, r, AluOp::Adc, Src::R(Reg8::H), 4),
        0x8Du8 => pre.alu(post, r, AluOp::Adc, Src::R(Reg8::L), 4),
        0x8Eu8 => pre.alu(post, r, AluOp::Adc, Src::AtHL, 8),
        0x8Fu8 => pre.alu(post, r, AluOp::Adc, Src::R(Reg8::A), 4),
        0x90u8 => pre.alu(post, r, AluOp::Sub, Src::R(Reg8::B), 4),
        0x91u8 => pre.alu(post, r, AluOp::Sub, Src::R(Reg8::C), 4),
        0x92u8 => pre.alu(post, r, AluOp::Sub, Src::R(Reg8::D), 4),
        0x93u8 => pre.alu(post, r, AluOp::Sub, Src::R(Reg8::E), 4),
        0x94u8 => pre.alu(post, r, AluOp::Sub, Src::R(Reg8::H), 4),
        0x95u8 => pre.alu(post, r, AluOp::Sub, Src::R(Reg8::L), 4),
        0x96u8 => pre.alu(post, r, AluOp::Sub, Src::AtHL, 8),
        0x97u8 => pre.alu(post, r, AluOp::Sub, Src::R(Reg8::A), 4),
        0x98u8 => pre.alu(post, r, AluOp::Sbc, Src::R(Reg8::B), 4),
        0x99u8 => pre.alu(post, r, AluOp::Sbc, Src::R(Reg8::C), 4),
        0x9Au8 => pre.alu(post, r, AluOp::Sbc, Src::R(Reg8::D), 4),
        0x9Bu8 => pre.alu(post, r, AluOp::Sbc, Src::R(Reg8::E), 4),
        0x9Cu8 => pre.alu(post, r, AluOp::Sbc, Src::R(Reg8::H), 4),
        0x9Du8 => pre.alu(post, r, AluOp::Sbc, Src::R(Reg8::L), 4),
        0x9Eu8 => pre.alu(post, r, AluOp::Sbc, Src::AtHL, 8),
        0x9Fu8 => pre.alu(post, r, AluOp::Sbc, Src::R(Reg8::A), 4),
        0xA0u8 => pre.alu(post, r, AluOp::And, Src::R(Reg8::B), 4),
        0xA1u8 => pre.alu(post, r, AluOp::And, Src::R(Reg8::C), 4),
        0xA2u8 => pre.alu(post, r, AluOp::And, Src::R(Reg8::D), 4),
        0xA3u8 => pre.alu(post, r, AluOp::And, Src::R(Reg8::E), 4),
        0xA4u8 => pre.alu(post, r, AluOp::And, Src::R(Reg8::H), 4),
        0xA5u8 => pre.alu(post, r, AluOp::And, Src::R(Reg8::L), 4),
        0xA6u8 => pre.alu(post, r, AluOp::And, Src::AtHL, 8),
        0xA7u8 => pre.alu(post, r, AluOp::And, Src::R(Reg8::A), 4),
        0xA8u8 => pre.alu(post, r, AluOp::Xor, Src::R(Reg8::B), 4),
        0xA9u8 => pre.alu(post, r, AluOp::Xor, Src::R(Reg8::C), 4),
        0xAAu8 => pre.alu(post, r, AluOp::Xor, Src::R(Reg8::D), 4),
        0xABu8 => pre.alu(post, r, AluOp::Xor, Src::R(Reg8::E), 4),
        0xACu8 => pre.alu(post, r, AluOp::Xor, Src::R(Reg8::H), 4),
        0xADu8 => pre.alu(post, r, AluOp::Xor, Src::R(Reg8::L), 4),
        0xAEu8 => pre.alu(post, r, AluOp::Xor, Src::AtHL, 8),
        0xAFu8 => pre.alu(post, r, AluOp::Xor, Src::R(Reg8::A), 4),
        0xB0u8 => pre.alu(post, r, AluOp::Or, Src::R(Reg8::B), 4),
        0xB1u8 => pre.alu(post, r, AluOp::Or, Src::R(Reg8::C), 4),
        0xB2u8 => pre.alu(post, r, AluOp::Or, Src::R(Reg8::D), 4),
        0xB3u8 => pre.alu(post, r, AluOp::Or, Src::R(Reg8::E), 4),
        0xB4u8 => pre.alu(post, r, AluOp::Or, Src::R(Reg8::H), 4),
        0xB5u8 => pre.alu(post, r, AluOp::Or, Src::R(Reg8::L), 4),
        0xB6u8 => pre.alu(post, r, AluOp::Or, Src::AtHL, 8),
        0xB7u8 => pre.alu(post, r, AluOp::Or, Src::R(Reg8::A), 4),
        0xB8u8 => pre.alu(post, r, AluOp::Cp, Src::R(Reg8::B), 4),
        0xB9u8 => pre.alu(post, r, AluOp::Cp, Src::R(Reg8::C), 4),
        0xBAu8 => pre.alu(post, r, AluOp::Cp, Src::R(Reg8::D), 4),
        0xBBu8 => pre.alu(post, r, AluOp::Cp, Src::R(Reg8::E), 4),
        0xBCu8 => pre.alu(post, r, AluOp::Cp, Src::R(Reg8::H), 4),
        0xBDu8 => pre.alu(post, r, AluOp::Cp, Src::R(Reg8::L), 4),
        0xBEu8 => pre.alu(post, r, AluOp::Cp, Src::AtHL, 8),
        0xBFu8 => pre.alu(post, r, AluOp::Cp, Src::R(Reg8::A), 4),
        0xC0u8 => pre.ret(post, r, Cond::NZ, 20, false),
        0xC1u8 => pre.pop_op(post, r, Reg16::BC),
        0xC2u8 => pre.jp(post, r, Cond::NZ),
        0xC3u8 => pre.jp(post, r, Cond::Always),
        0xC4u8 => pre.call(post, r, Cond::NZ),
        0xC5u8 => pre.push_op(post, r, Reg16::BC),
        0xC6u8 => pre.alu(post, r, AluOp::Add, Src::Imm, 8),
        0xC7u8 => pre.rst(post, r, 0x0000),
        0xC8u8 => pre.ret(post, r, Cond::Z, 20, false),
        0xC9u8 => pre.ret(post, r, Cond::Always, 16, false),
        0xCAu8 => pre.jp(post, r, Cond::Z),
        0xCBu8 => r == Ok::<u8, Fault>(4) && post == pre,
        0xCCu8 => pre.call(post, r, Cond::Z),
        0xCDu8 => pre.call(post, r, Cond::Always),
        0xCEu8 => pre.alu(post, r, AluOp::Adc, Src::Imm, 8),
        0xCFu8 => pre.rst(post, r, 0x0008),
        0xD0u8 => pre.ret(post, r, Cond::NC, 20, false),
        0xD1u8 => pre.pop_op(post, r, Reg16::DE),
        0xD2u8 => pre.jp(post, r, Cond::NC),
        0xD4u8 => pre.call(post, r, Cond::NC),
        0xD5u8 => pre.push_op(post, r, Reg16::DE),
        0xD6u8 => pre.alu(post, r, AluOp::Sub, Src::Imm, 8),
        0xD7u8 => pre.rst(post, r, 0x0010),
        0xD8u8 => pre.ret(post, r, Cond::C, 20, false),
        0xD9u8 => pre.ret(post, r, Cond::Always, 16, true),
        0xDAu8 => pre.jp(post, r, Cond::C),
        0xDCu8 => pre.call(post, r, Cond::C),
        0xDEu8 => pre.alu(post, r, AluOp::Sbc, Src::Imm, 8),
        0xDFu8 => pre.rst(post, r, 0x0018),
        0xE0u8 => pre.ld_a_to(post, r, Addr::HighImm, 12),
        0xE1u8 => pre.pop_op(post, r, Reg16::HL),
        0xE2u8 => pre.ld_a_to(post, r, Addr::HighC, 8),
        0xE5u8 => pre.push_op(post, r, Reg16::HL),
        0xE6u8 => pre.alu(post, r, AluOp::And, Src::Imm, 8),
        0xE7u8 => pre.rst(post, r, 0x0020),
        0xE8u8 => pre.sp_offset(post, r, false),
        0xE9u8 => r == Ok::<u8, Fault>(4) && post == pre.with_pc(pre.hl()),
        0xEAu8 => pre.ld_a_to(post, r, Addr::Abs, 16),
        0xEEu8 => pre.alu(post, r, AluOp::Xor, Src::Imm, 8),
        0xEFu8 => pre.rst(post, r, 0x0028),
        0xF0u8 => pre.ld_a_from(post, r, Addr::HighImm, 12),
        0xF1u8 => pre.pop_op(post, r, Reg16::AF),
        0xF2u8 => pre.ld_a_from(post, r, Addr::HighC, 8),
        0xF3u8 => r == Ok::<u8, Fault>(4) && post == (CPU { ime: false, ..pre }),
        0xF5u8 => pre.push_op(post, r, Reg16::AF),
        0xF6u8 => pre.alu(post, r, AluOp::Or, Src::Imm, 8),
        0xF7u8 => pre.rst(post, r, 0x0030),
        0xF8u8 => pre.sp_offset(post, r, true),
        0xF9u8 => r == Ok::<u8, Fault>(8) && post == pre.with_reg16(Reg16::SP, pre.hl()),
        0xFAu8 => pre.ld_a_from(post, r, Addr::Abs, 16),
        0xFBu8 => r == Ok::<u8, Fault>(4) && post == (CPU { ime: true, ..pre }),
        0xFEu8 => pre.alu(post, r, AluOp::Cp, Src::Imm, 8),
        0xFFu8 => pre.rst(post, r, 0x0038),
        _ => r == Err::<u8, Fault>(Fault::IllegalOpcode(op as u16)) && post == pre,
    }
}

impl CPU {

    /// NOP
    fn op_0000(&mut self) -> (r: Result<u8, Fault>)
        requires
            old(self).wf(),
        ensures
            final(self).wf(),
            r == Ok::<u8, Fault>(4) && *final(self) == (*old(self)),
            r is Ok ==> final(self).program_counter == old(self).program_counter,
            r is Err ==> final(self).stopped == old(self).stopped,
    {
        Ok(4)
    }

    /// LD BC,u16
    fn op_0001(&mut self) -> (r: Result<u8, Fault>)
        requires
            old(self).wf(),
        ensures
            final(self).wf(),
            (*old(self)).ld16_imm(*final(self), r, Reg16::BC),
            r is Ok ==> final(self).program_counter == old(self).program_counter,
            r is Err ==> final(self).stopped == old(self).stopped,
    {
        self.exec_ld16_imm(Reg16::BC)
    }

    /// LD (BC),A
    fn op_0002(&mut self) -> (r: Result<u8, Fault>)
        requires
            old(self).wf(),
        ensures
            final(self).wf(),
            (*old(self)).ld_a_to(*final(self), r, Addr::BC, 8),
            r is Ok ==> final(self).program_counter == old(self).program_counter,
            r is Err ==> final(self).stopped == old(self).stopped,
    {
        self.exec_ld_a_to(Addr::BC, 8)
    }

    /// INC BC
    fn op_0003(&mut self) -> (r: Result<u8, Fault>)
        requires
            old(self).wf(),
        ensures
            final(self).wf(),
            (*old(self)).step16(*final(self), r, Reg16::BC, 1),
            r is Ok ==> final(self).program_counter == old(self).program_counter,
            r is Err ==> final(self).stopped == old(self).stopped,
    {
        self.exec_inc16(Reg16::BC)
    }

    /// INC B
    fn op_0004(&mut self) -> (r: Result<u8, Fault>)
        requires
            old(self).wf(),
        ensures
            final(self).wf(),
            (*old(self)).rmw(*final(self), r, Unary::Inc, Dst::R(Reg8::B), 4),
            r is Ok ==> final(self).program_counter == old(self).program_counter,
            r is Err ==> final(self).stopped == old(self).stopped,
    {
        self.exec_rmw(Unary::Inc, Dst::R(Reg8::B), 4)
    }

    /// DEC B
    fn op_0005(&mut self) -> (r: Result<u8, Fault>)
        requires
            old(self).wf(),
        ensures
            final(self).wf(),
            (*old(self)).rmw(*final(self), r, Unary::Dec, Dst::R(Reg8::B), 4),
            r is Ok ==> final(self).program_counter == old(self).program_counter,
            r is Err ==> final(self).stopped == old(self).stopped,
    {
        self.exec_rmw(Unary::Dec, Dst::R(Reg8::B), 4)
    }

    /// LD B,u8
    fn op_0006(&mut self) -> (r: Result<u8, Fault>)
        requires
            old(self).wf(),
        ensures
            final(self).wf(),
            (*old(self)).ld8(*final(self), r, Dst::R(Reg8::B), Src::Imm, 8),
            r is Ok ==> final(self).program_counter == old(self).program_counter,
            r is Err ==> final(self).stopped == old(self).stopped,
    {
        self.exec_ld8(Dst::R(Reg8::B), Src::Imm, 8)
    }

    /// RLCA
    fn op_0007(&mut self) -> (r: Result<u8, Fault>)
        requires
            old(self).wf(),
        ensures
            final(self).wf(),
            (*old(self)).rot_a(*final(self), r, Unary::Rlc),
            r is Ok ==> final(self).program_counter == old(self).program_counter,
            r is Err ==> final(self).stopped == old(self).stopped,
    {
        self.exec_rot_a(Unary::Rlc)
    }

    /// LD (u16),SP
    fn op_0008(&mut self) -> (r: Result<u8, Fault>)
        requires
            old(self).wf(),
        ensures
            final(self).wf(),
            (*old(self)).store_sp(*final(self), r),
            r is Ok ==> final(self).program_counter == old(self).program_counter,
            r is Err ==> final(self).stopped == old(self).stopped,
    {
        self.exec_store_sp()
    }

    /// ADD HL,BC
    fn op_0009(&mut self) -> (r: Result<u8, Fault>)
        requires
            old(self).wf(),
        ensures
            final(self).wf(),
            (*old(self)).add_hl(*final(self), r, Reg16::BC),
            r is Ok ==> final(self).program_counter == old(self).program_counter,
            r is Err ==> final(self).stopped == old(self).stopped,
    {
        self.exec_add_hl(Reg16::BC)
    }

    /// LD A,(BC)
    fn op_000a(&mut self) -> (r: Result<u8, Fault>)
        requires
            old(self).wf(),
        ensures
            final(self).wf(),
            (*old(self)).ld_a_from(*final(self), r, Addr::BC, 8),
            r is Ok ==> final(self).program_counter == old(self).program_counter,
            r is Err ==> final(self).stopped == old(self).stopped,
    {
        self.exec_ld_a_from(Addr::BC, 8)
    }

    /// DEC BC
    fn op_000b(&mut self) -> (r: Result<u8, Fault>)
        requires
            old(self).wf(),
        ensures
            final(self).wf(),
            (*old(self)).step16(*final(self), r, Reg16::BC, -1),
            r is Ok ==> final(self).program_counter == old(self).program_counter,
            r is Err ==> final(self).stopped == old(self).stopped,
    {
        self.exec_dec16(Reg16::BC)
    }

    /// INC C
    fn op_000c(&mut self) -> (r: Result<u8, Fault>)
        requires
            old(self).wf(),
        ensures
            final(self).wf(),
            (*old(self)).rmw(*final(self), r, Unary::Inc, Dst::R(Reg8::C), 4),
            r is Ok ==> final(self).program_counter == old(self).program_counter,
            r is Err ==> final(self).stopped == old(self).stopped,
    {
        self.exec_rmw(Unary::Inc, Dst::R(Reg8::C), 4)
    }

    /// DEC C
    fn op_000d(&mut self) -> (r: Result<u8, Fault>)
        requires
            old(self).wf(),
        ensures
            final(self).wf(),
            (*old(self)).rmw(*final(self), r, Unary::Dec, Dst::R(Reg8::C), 4),
            r is Ok ==> final(self).program_counter == old(self).program_counter,
            r is Err ==> final(self).stopped == old(self).stopped,
    {
        self.exec_rmw(Unary::Dec, Dst::R(Reg8::C), 4)
    }

    /// LD C,u8
    fn op_000e(&mut self) -> (r: Result<u8, Fault>)
        requires
            old(self).wf(),
        ensures
            final(self).wf(),
            (*old(self)).ld8(*final(self), r, Dst::R(Reg8::C), Src::Imm, 8),
            r is Ok ==> final(self).program_counter == old(self).program_counter,
            r is Err ==> final(self).stopped == old(self).stopped,
    {
        self.exec_ld8(Dst::R(Reg8::C), Src::Imm, 8)
    }

    /// RRCA
    fn op_000f(&mut self) -> (r: Result<u8, Fault>)
        requires
            old(self).wf(),
        ensures
            final(self).wf(),
            (*old(self)).rot_a(*final(self), r, Unary::Rrc),
            r is Ok ==> final(self).program_counter == old(self).program_counter,
            r is Err ==> final(self).stopped == old(self).stopped,
    {
        self.exec_rot_a(Unary::Rrc)
    }

    /// STOP
    fn op_0010(&mut self) -> (r: Result<u8, Fault>)
        requires
            old(self).wf(),
        ensures
            final(self).wf(),
            r == Ok::<u8, Fault>(4) && *final(self) == (CPU { stopped: true, ..(*old(self)) }),
            r is Ok ==> final(self).program_counter == old(self).program_counter,
            r is Err ==> final(self).stopped == old(self).stopped,
    {
        self.stop();
        Ok(4)
    }

    /// LD DE,u16
    fn op_0011(&mut self) -> (r: Result<u8, Fault>)
        requires
            old(self).wf(),
        ensures
            final(self).wf(),
            (*old(self)).ld16_imm(*final(self), r, Reg16::DE),
            r is Ok ==> final(self).program_counter == old(self).program_counter,
            r is Err ==> final(self).stopped == old(self).stopped,
    {
        self.exec_ld16_imm(Reg16::DE)
    }

    /// LD (DE),A
    fn op_0012(&mut self) -> (r: Result<u8, Fault>)
        requires
            old(self).wf(),
        ensures
            final(self).wf(),
            (*old(self)).ld_a_to(*final(self), r, Addr::DE, 8),
            r is Ok ==> final(self).program_counter == old(self).program_counter,
            r is Err ==> final(self).stopped == old(self).stopped,
    {
        self.exec_ld_a_to(Addr::DE, 8)
    }

    /// INC DE
    fn op_0013(&mut self) -> (r: Result<u8, Fault>)
        requires
            old(self).wf(),
        ensures
            final(self).wf(),
            (*old(self)).step16(*final(self), r, Reg16::DE, 1),
            r is Ok ==> final(self).program_counter == old(self).program_counter,
            r is Err ==> final(self).stopped == old(self).stopped,
    {
        self.exec_inc16(Reg16::DE)
    }

    /// INC D
    fn op_0014(&mut self) -> (r: Result<u8, Fault>)
        requires
            old(self).wf(),
        ensures
            final(self).wf(),
            (*old(self)).rmw(*final(self), r, Unary::Inc, Dst::R(Reg8::D), 4),
            r is Ok ==> final(self).program_counter == old(self).program_counter,
            r is Err ==> final(self).stopped == old(self).stopped,
    {
        self.exec_rmw(Unary::Inc, Dst::R(Reg8::D), 4)
    }

    /// DEC D
    fn op_0015(&mut self) -> (r: Result<u8, Fault>)
        requires
            old(self).wf(),
        ensures
            final(self).wf(),
            (*old(self)).rmw(*final(self), r, Unary::Dec, Dst::R(Reg8::D), 4),
            r is Ok ==> final(self).program_counter == old(self).program_counter,
            r is Err ==> final(self).stopped == old(self).stopped,
    {
        self.exec_rmw(Unary::Dec, Dst::R(Reg8::D), 4)
    }

    /// LD D,u8
    fn op_0016(&mut self) -> (r: Result<u8, Fault>)
        requires
            old(self).wf(),
        ensures
            final(self).wf(),
            (*old(self)).ld8(*final(self), r, Dst::R(Reg8::D), Src::Imm, 8),
            r is Ok ==> final(self).program_counter == old(self).program_counter,
            r is Err ==> final(self).stopped == old(self).stopped,
    {
        self.exec_ld8(Dst::R(Reg8::D), Src::Imm, 8)
    }

    /// RLA
    fn op_0017(&mut self) -> (r: Result<u8, Fault>)
        requires
            old(self).wf(),
        ensures
            final(self).wf(),
            (*old(self)).rot_a(*final(self), r, Unary::Rl),
            r is Ok ==> final(self).program_counter == old(self).program_counter,
            r is Err ==> final(self).stopped == old(self).stopped,
    {
        self.exec_rot_a(Unary::Rl)
    }

    /// JR i8
    fn op_0018(&mut self) -> (r: Result<u8, Fault>)
        requires
            old(self).wf(),
        ensures
            final(self).wf(),
            (*old(self)).jr(*final(self), r, Cond::Always),
            r is Err ==> final(self).stopped == old(self).stopped,
    {
        self.cpu_jr(Cond::Always)
    }

    /// ADD HL,DE
    fn op_0019(&mut self) -> (r: Result<u8, Fault>)
        requires
            old(self).wf(),
        ensures
            final(self).wf(),
            (*old(self)).add_hl(*final(self), r, Reg16::DE),
            r is Ok ==> final(self).program_counter == old(self).program_counter,
            r is Err ==> final(self).stopped == old(self).stopped,
    {
        self.exec_add_hl(Reg16::DE)
    }

    /// LD A,(DE)
    fn op_001a(&mut self) -> (r: Result<u8, Fault>)
        requires
            old(self).wf(),
        ensures
            final(self).wf(),
            (*old(self)).ld_a_from(*final(self), r, Addr::DE, 8),
            r is Ok ==> final(self).program_counter == old(self).program_counter,
            r is Err ==> final(self).stopped == old(self).stopped,
    {
        self.exec_ld_a_from(Addr::DE, 8)
    }

    /// DEC DE
    fn op_001b(&mut self) -> (r: Result<u8, Fault>)
        requires
            old(self).wf(),
        ensures
            final(self).wf(),
            (*old(self)).step16(*final(self), r, Reg16::DE, -1),
            r is Ok ==> final(self).program_counter == old(self).program_counter,
            r is Err ==> final(self).stopped == old(self).stopped,
    {
        self.exec_dec16(Reg16::DE)
    }

    /// INC E
    fn op_001c(&mut self) -> (r: Result<u8, Fault>)
        requires
            old(self).wf(),
        ensures
            final(self).wf(),
            (*old(self)).rmw(*final(self), r, Unary::Inc, Dst::R(Reg8::E), 4),
            r is Ok ==> final(self).program_counter == old(self).program_counter,
            r is Err ==> final(self).stopped == old(self).stopped,
    {
        self.exec_rmw(Unary::Inc, Dst::R(Reg8::E), 4)
    }

    /// DEC E
    fn op_001d(&mut self) -> (r: Result<u8, Fault>)
        requires
            old(self).wf(),
        ensures
            final(self).wf(),
            (*old(self)).rmw(*final(self), r, Unary::Dec, Dst::R(Reg8::E), 4),
            r is Ok ==> final(self).program_counter == old(self).program_counter,
            r is Err ==> final(self).stopped == old(self).stopped,
    {
        self.exec_rmw(Unary::Dec, Dst::R(Reg8::E), 4)
    }

    /// LD E,u8
    fn op_001e(&mut self) -> (r: Result<u8, Fault>)
        requires
            old(self).wf(),
        ensures
            final(self).wf(),
            (*old(self)).ld8(*final(self), r, Dst::R(Reg8::E), Src::Imm, 8),
            r is Ok ==> final(self).program_counter == old(self).program_counter,
            r is Err ==> final(self).stopped == old(self).stopped,
    {
        self.exec_ld8(Dst::R(Reg8::E), Src::Imm, 8)
    }

    /// RRA
    fn op_001f(&mut self) -> (r: Result<u8, Fault>)
        requires
            old(self).wf(),
        ensures
            final(self).wf(),
            (*old(self)).rot_a(*final(self), r, Unary::Rr),
            r is Ok ==> final(self).program_counter == old(self).program_counter,
            r is Err ==> final(self).stopped == old(self).stopped,
    {
        self.exec_rot_a(Unary::Rr)
    }

    /// JR NZ,i8
    fn op_0020(&mut self) -> (r: Result<u8, Fault>)
        requires
            old(self).wf(),
        ensures
            final(self).wf(),
            (*old(self)).jr(*final(self), r, Cond::NZ),
            r is Err ==> final(self).stopped == old(self).stopped,
    {
        self.cpu_jr(Cond::NZ)
    }

    /// LD HL,u16
    fn op_0021(&mut self) -> (r: Result<u8, Fault>)
        requires
            old(self).wf(),
        ensures
            final(self).wf(),
            (*old(self)).ld16_imm(*final(self), r, Reg16::HL),
            r is Ok ==> final(self).program_counter == old(self).program_counter,
            r is Err ==> final(self).stopped == old(self).stopped,
    {
        self.exec_ld16_imm(Reg16::HL)
    }

    /// LD (HL+),A
    fn op_0022(&mut self) -> (r: Result<u8, Fault>)
        requires
            old(self).wf(),
        ensures
            final(self).wf(),
            (*old(self)).ld_a_to(*final(self), r, Addr::HLInc, 8),
            r is Ok ==> final(self).program_counter == old(self).program_counter,
            r is Err ==> final(self).stopped == old(self).stopped,
    {
        self.exec_ld_a_to(Addr::HLInc, 8)
    }

    /// INC HL
    fn op_0023(&mut self) -> (r: Result<u8, Fault>)
        requires
            old(self).wf(),
        ensures
            final(self).wf(),
            (*old(self)).step16(*final(self), r, Reg16::HL, 1),
            r is Ok ==> final(self).program_counter == old(self).program_counter,
            r is Err ==> final(self).stopped == old(self).stopped,
    {
        self.exec_inc16(Reg16::HL)
    }

    /// INC H
    fn op_0024(&mut self) -> (r: Result<u8, Fault>)
        requires
            old(self).wf(),
        ensures
            final(self).wf(),
            (*old(self)).rmw(*final(self), r, Unary::Inc, Dst::R(Reg8::H), 4),
            r is Ok ==> final(self).program_counter == old(self).program_counter,
            r is Err ==> final(self).stopped == old(self).stopped,
    {
        self.exec_rmw(Unary::Inc, Dst::R(Reg8::H), 4)
    }

    /// DEC H
    fn op_0025(&mut self) -> (r: Result<u8, Fault>)
        requires
            old(self).wf(),
        ensures
            final(self).wf(),
            (*old(self)).rmw(*final(self), r, Unary::Dec, Dst::R(Reg8::H), 4),
            r is Ok ==> final(self).program_counter == old(self).program_counter,
            r is Err ==> final(self).stopped == old(self).stopped,
    {
        self.exec_rmw(Unary::Dec, Dst::R(Reg8::H), 4)
    }

    /// LD H,u8
    fn op_0026(&mut self) -> (r: Result<u8, Fault>)
        requires
            old(self).wf(),
        ensures
            final(self).wf(),
            (*old(self)).ld8(*final(self), r, Dst::R(Reg8::H), Src::Imm, 8),
            r is Ok ==> final(self).program_counter == old(self).program_counter,
            r is Err ==> final(self).stopped == old(self).stopped,
    {
        self.exec_ld8(Dst::R(Reg8::H), Src::Imm, 8)
    }

    /// DAA
    fn op_0027(&mut self) -> (r: Result<u8, Fault>)
        requires
            old(self).wf(),
        ensures
            final(self).wf(),
            (*old(self)).rmw(*final(self), r, Unary::Daa, Dst::R(Reg8::A), 4),
            r is Ok ==> final(self).program_counter == old(self).program_counter,
            r is Err ==> final(self).stopped == old(self).stopped,
    {
        self.exec_rmw(Unary::Daa, Dst::R(Reg8::A), 4)
    }

    /// JR Z,i8
    fn op_0028(&mut self) -> (r: Result<u8, Fault>)
        requires
            old(self).wf(),
        ensures
            final(self).wf(),
            (*old(self)).jr(*final(self), r, Cond::Z),
            r is Err ==> final(self).stopped == old(self).stopped,
    {
        self.cpu_jr(Cond::Z)
    }

    /// ADD HL,HL
    fn op_0029(&mut self) -> (r: Result<u8, Fault>)
        requires
            old(self).wf(),
        ensures
            final(self).wf(),
            (*old(self)).add_hl(*final(self), r, Reg16::HL),
            r is Ok ==> final(self).program_counter == old(self).program_counter,
            r is Err ==> final(self).stopped == old(self).stopped,
    {
        self.exec_add_hl(Reg16::HL)
    }

    /// LD A,(HL+)
    fn op_002a(&mut self) -> (r: Result<u8, Fault>)
        requires
            old(self).wf(),
        ensures
            final(self).wf(),
            (*old(self)).ld_a_from(*final(self), r, Addr::HLInc, 8),
            r is Ok ==> final(self).program_counter == old(self).program_counter,
            r is Err ==> final(self).stopped == old(self).stopped,
    {
        self.exec_ld_a_from(Addr::HLInc, 8)
    }

    /// DEC HL
    fn op_002b(&mut self) -> (r: Result<u8, Fault>)
        requires
            old(self).wf(),
        ensures
            final(self).wf(),
            (*old(self)).step16(*final(self), r, Reg16::HL, -1),
            r is Ok ==> final(self).program_counter == old(self).program_counter,
            r is Err ==> final(self).stopped == old(self).stopped,
    {
        self.exec_dec16(Reg16::HL)
    }

    /// INC L
    fn op_002c(&mut self) -> (r: Result<u8, Fault>)
        requires
            old(self).wf(),
        ensures
            final(self).wf(),
            (*old(self)).rmw(*final(self), r, Unary::Inc, Dst::R(Reg8::L), 4),
            r is Ok ==> final(self).program_counter == old(self).program_counter,
            r is Err ==> final(self).stopped == old(self).stopped,
    {
        self.exec_rmw(Unary::Inc, Dst::R(Reg8::L), 4)
    }

    /// DEC L
    fn op_002d(&mut self) -> (r: Result<u8, Fault>)
        requires
            old(self).wf(),
        ensures
            final(self).wf(),
            (*old(self)).rmw(*final(self), r, Unary::Dec, Dst::R(Reg8::L), 4),
            r is Ok ==> final(self).program_counter == old(self).program_counter,
            r is Err ==> final(self).stopped == old(self).stopped,
    {
        self.exec_rmw(Unary::Dec, Dst::R(Reg8::L), 4)
    }

    /// LD L,u8
    fn op_002e(&mut self) -> (r: Result<u8, Fault>)
        requires
            old(self).wf(),
        ensures
            final(self).wf(),
            (*old(self)).ld8(*final(self), r, Dst::R(Reg8::L), Src::Imm, 8),
            r is Ok ==> final(self).program_counter == old(self).program_counter,
            r is Err ==> final(self).stopped == old(self).stopped,
    {
        self.exec_ld8(Dst::R(Reg8::L), Src::Imm, 8)
    }

    /// CPL
    fn op_002f(&mut self) -> (r: Result<u8, Fault>)
        requires
            old(self).wf(),
        ensures
            final(self).wf(),
            (*old(self)).rmw(*final(self), r, Unary::Cpl, Dst::R(Reg8::A), 4),
            r is Ok ==> final(self).program_counter == old(self).program_counter,
            r is Err ==> final(self).stopped == old(self).stopped,
    {
        self.exec_rmw(Unary::Cpl, Dst::R(Reg8::A), 4)
    }

    /// JR NC,i8
    fn op_0030(&mut self) -> (r: Result<u8, Fault>)
        requires
            old(self).wf(),
        ensures
            final(self).wf(),
            (*old(self)).jr(*final(self), r, Cond::NC),
            r is Err ==> final(self).stopped == old(self).stopped,
    {
        self.cpu_jr(Cond::NC)
    }

    /// LD SP,u16
    fn op_0031(&mut self) -> (r: Result<u8, Fault>)
        requires
            old(self).wf(),
        ensures
            final(self).wf(),
            (*old(self)).ld16_imm(*final(self), r, Reg16::SP),
            r is Ok ==> final(self).program_counter == old(self).program_counter,
            r is Err ==> final(self).stopped == old(self).stopped,
    {
        self.exec_ld16_imm(Reg16::SP)
    }

    /// LD (HL-),A
    fn op_0032(&mut self) -> (r: Result<u8, Fault>)
        requires
            old(self).wf(),
        ensures
            final(self).wf(),
            (*old(self)).ld_a_to(*final(self), r, Addr::HLDec, 8),
            r is Ok ==> final(self).program_counter == old(self).program_counter,
            r is Err ==> final(self).stopped == old(self).stopped,
    {
        self.exec_ld_a_to(Addr::HLDec, 8)
    }

    /// INC SP
    fn op_0033(&mut self) -> (r: Result<u8, Fault>)
        requires
            old(self).wf(),
        ensures
            final(self).wf(),
            (*old(self)).step16(*final(self), r, Reg16::SP, 1),
            r is Ok ==> final(self).program_counter == old(self).program_counter,
            r is Err ==> final(self).stopped == old(self).stopped,
    {
        self.exec_inc16(Reg16::SP)
    }

    /// INC (HL)
    fn op_0034(&mut self) -> (r: Result<u8, Fault>)
        requires
            old(self).wf(),
        ensures
            final(self).wf(),
            (*old(self)).rmw(*final(self), r, Unary::Inc, Dst::AtHL, 12),
            r is Ok ==> final(self).program_counter == old(self).program_counter,
            r is Err ==> final(self).stopped == old(self).stopped,
    {
        self.exec_rmw(Unary::Inc, Dst::AtHL, 12)
    }

    /// DEC (HL)
    fn op_0035(&mut self) -> (r: Result<u8, Fault>)
        requires
            old(self).wf(),
        ensures
            final(self).wf(),
            (*old(self)).rmw(*final(self), r, Unary::Dec, Dst::AtHL, 12),
            r is Ok ==> final(self).program_counter == old(self).program_counter,
            r is Err ==> final(self).stopped == old(self).stopped,
    {
        self.exec_rmw(Unary::Dec, Dst::AtHL, 12)
    }

    /// LD (HL),u8
    fn op_0036(&mut self) -> (r: Result<u8, Fault>)
        requires
            old(self).wf(),
        ensures
            final(self).wf(),
            (*old(self)).ld8(*final(self), r, Dst::AtHL, Src::Imm, 12),
            r is Ok ==> final(self).program_counter == old(self).program_counter,
            r is Err ==> final(self).stopped == old(self).stopped,
    {
        self.exec_ld8(Dst::AtHL, Src::Imm, 12)
    }

    /// SCF
    fn op_0037(&mut self) -> (r: Result<u8, Fault>)
        requires
            old(self).wf(),
        ensures
            final(self).wf(),
            (*old(self)).rmw(*final(self), r, Unary::Scf, Dst::R(Reg8::A), 4),
            r is Ok ==> final(self).program_counter == old(self).program_counter,
            r is Err ==> final(self).stopped == old(self).stopped,
    {
        self.exec_rmw(Unary::Scf, Dst::R(Reg8::A), 4)
    }

    /// JR C,i8
    fn op_0038(&mut self) -> (r: Result<u8, Fault>)
        requires
            old(self).wf(),
        ensures
            final(self).wf(),
            (*old(self)).jr(*final(self), r, Cond::C),
            r is Err ==> final(self).stopped == old(self).stopped,
    {
        self.cpu_jr(Cond::C)
    }

    /// ADD HL,SP
    fn op_0039(&mut self) -> (r: Result<u8, Fault>)
        requires
            old(self).wf(),
        ensures
            final(self).wf(),
            (*old(self)).add_hl(*final(self), r, Reg16::SP),
            r is Ok ==> final(self).program_counter == old(self).program_counter,
            r is Err ==> final(self).stopped == old(self).stopped,
    {
        self.exec_add_hl(Reg16::SP)
    }

    /// LD A,(HL-)
    fn op_003a(&mut self) -> (r: Result<u8, Fault>)
        requires
            old(self).wf(),
        ensures
            final(self).wf(),
            (*old(self)).ld_a_from(*final(self), r, Addr::HLDec, 8),
            r is Ok ==> final(self).program_counter == old(self).program_counter,
            r is Err ==> final(self).stopped == old(self).stopped,
    {
        self.exec_ld_a_from(Addr::HLDec, 8)
    }

    /// DEC SP
    fn op_003b(&mut self) -> (r: Result<u8, Fault>)
        requires
            old(self).wf(),
        ensures
            final(self).wf(),
            (*old(self)).step16(*final(self), r, Reg16::SP, -1),
            r is Ok ==> final(self).program_counter == old(self).program_counter,
            r is Err ==> final(self).stopped == old(self).stopped,
    {
        self.exec_dec16(Reg16::SP)
    }

    /// INC A
    fn op_003c(&mut self) -> (r: Result<u8, Fault>)
        requires
            old(self).wf(),
        ensures
            final(self).wf(),
            (*old(self)).rmw(*final(self), r, Unary::Inc, Dst::R(Reg8::A), 4),
            r is Ok ==> final(self).program_counter == old(self).program_counter,
            r is Err ==> final(self).stopped == old(self).stopped,
    {
        self.exec_rmw(Unary::Inc, Dst::R(Reg8::A), 4)
    }

    /// DEC A
    fn op_003d(&mut self) -> (r: Result<u8, Fault>)
        requires
            old(self).wf(),
        ensures
            final(self).wf(),
            (*old(self)).rmw(*final(self), r, Unary::Dec, Dst::R(Reg8::A), 4),
            r is Ok ==> final(self).program_counter == old(self).program_counter,
            r is Err ==> final(self).stopped == old(self).stopped,
    {
        self.exec_rmw(Unary::Dec, Dst::R(Reg8::A), 4)
    }

    /// LD A,u8
    fn op_003e(&mut self) -> (r: Result<u8, Fault>)
        requires
            old(self).wf(),
        ensures
            final(self).wf(),
            (*old(self)).ld8(*final(self), r, Dst::R(Reg8::A), Src::Imm, 8),
            r is Ok ==> final(self).program_counter == old(self).program_counter,
            r is Err ==> final(self).stopped == old(self).stopped,
    {
        self.exec_ld8(Dst::R(Reg8::A), Src::Imm, 8)
    }

    /// CCF
    fn op_003f(&mut self) -> (r: Result<u8, Fault>)
        requires
            old(self).wf(),
        ensures
            final(self).wf(),
            (*old(self)).rmw(*final(self), r, Unary::Ccf, Dst::R(Reg8::A), 4),
            r is Ok ==> final(self).program_counter == old(self).program_counter,
            r is Err ==> final(self).stopped == old(self).stopped,
    {
        self.exec_rmw(Unary::Ccf, Dst::R(Reg8::A), 4)
    }

    /// LD B,B
    fn op_0040(&mut self) -> (r: Result<u8, Fault>)
        requires
            old(self).wf(),
        ensures
            final(self).wf(),
            (*old(self)).ld8(*final(self), r, Dst::R(Reg8::B), Src::R(Reg8::B), 4),
            r is Ok ==> final(self).program_counter == old(self).program_counter,
            r is Err ==> final(self).stopped == old(self).stopped,
    {
        self.exec_ld8(Dst::R(Reg8::B), Src::R(Reg8::B), 4)
    }

    /// LD B,C
    fn op_0041(&mut self) -> (r: Result<u8, Fault>)
        requires
            old(self).wf(),
        ensures
            final(self).wf(),
            (*old(self)).ld8(*final(self), r, Dst::R(Reg8::B), Src::R(Reg8::C), 4),
            r is Ok ==> final(self).program_counter == old(self).program_counter,
            r is Err ==> final(self).stopped == old(self).stopped,
    {
        self.exec_ld8(Dst::R(Reg8::B), Src::R(Reg8::C), 4)
    }

    /// LD B,D
    fn op_0042(&mut self) -> (r: Result<u8, Fault>)
        requires
            old(self).wf(),
        ensures
            final(self).wf(),
            (*old(self)).ld8(*final(self), r, Dst::R(Reg8::B), Src::R(Reg8::D), 4),
            r is Ok ==> final(self).program_counter == old(self).program_counter,
            r is Err ==> final(self).stopped == old(self).stopped,
    {
        self.exec_ld8(Dst::R(Reg8::B), Src::R(Reg8::D), 4)
    }

    /// LD B,E
    fn op_0043(&mut self) -> (r: Result<u8, Fault>)
        requires
            old(self).wf(),
        ensures
            final(self).wf(),
            (*old(self)).ld8(*final(self), r, Dst::R(Reg8::B), Src::R(Reg8::E), 4),
            r is Ok ==> final(self).program_counter == old(self).program_counter,
            r is Err ==> final(self).stopped == old(self).stopped,
    {
        self.exec_ld8(Dst::R(Reg8::B), Src::R(Reg8::E), 4)
    }

    /// LD B,H
    fn op_0044(&mut self) -> (r: Result<u8, Fault>)
        requires
            old(self).wf(),
        ensures
            final(self).wf(),
            (*old(self)).ld8(*final(self), r, Dst::R(Reg8::B), Src::R(Reg8::H), 4),
            r is Ok ==> final(self).program_counter == old(self).program_counter,
            r is Err ==> final(self).stopped == old(self).stopped,
    {
        self.exec_ld8(Dst::R(Reg8::B), Src::R(Reg8::H), 4)
    }

    /// LD B,L
    fn op_0045(&mut self) -> (r: Result<u8, Fault>)
        requires
            old(self).wf(),
        ensures
            final(self).wf(),
            (*old(self)).ld8(*final(self), r, Dst::R(Reg8::B), Src::R(Reg8::L), 4),
            r is Ok ==> final(self).program_counter == old(self).program_counter,
            r is Err ==> final(self).stopped == old(self).stopped,
    {
        self.exec_ld8(Dst::R(Reg8::B), Src::R(Reg8::L), 4)
    }

    /// LD B,(HL)
    fn op_0046(&mut self) -> (r: Result<u8, Fault>)
        requires
            old(self).wf(),
        ensures
            final(self).wf(),
            (*old(self)).ld8(*final(self), r, Dst::R(Reg8::B), Src::AtHL, 8),
            r is Ok ==> final(self).program_counter == old(self).program_counter,
            r is Err ==> final(self).stopped == old(self).stopped,
    {
        self.exec_ld8(Dst::R(Reg8::B), Src::AtHL, 8)
    }

    /// LD B,A
    fn op_0047(&mut self) -> (r: Result<u8, Fault>)
        requires
            old(self).wf(),
        ensures
            final(self).wf(),
            (*old(self)).ld8(*final(self), r, Dst::R(Reg8::B), Src::R(Reg8::A), 4),
            r is Ok ==> final(self).program_counter == old(self).program_counter,
            r is Err ==> final(self).stopped == old(self).stopped,
    {
        self.exec_ld8(Dst::R(Reg8::B), Src::R(Reg8::A), 4)
    }

    /// LD C,B
    fn op_0048(&mut self) -> (r: Result<u8, Fault>)
        requires
            old(self).wf(),
        ensures
            final(self).wf(),
            (*old(self)).ld8(*final(self), r, Dst::R(Reg8::C), Src::R(Reg8::B), 4),
            r is Ok ==> final(self).program_counter == old(self).program_counter,
            r is Err ==> final(self).stopped == old(self).stopped,
    {
        self.exec_ld8(Dst::R(Reg8::C), Src::R(Reg8::B), 4)
    }

    /// LD C,C
    fn op_0049(&mut self) -> (r: Result<u8, Fault>)
        requires
            old(self).wf(),
        ensures
            final(self).wf(),
            (*old(self)).ld8(*final(self), r, Dst::R(Reg8::C), Src::R(Reg8::C), 4),
            r is Ok ==> final(self).program_counter == old(self).program_counter,
            r is Err ==> final(self).stopped == old(self).stopped,
    {
        self.exec_ld8(Dst::R(Reg8::C), Src::R(Reg8::C), 4)
    }

    /// LD C,D
    fn op_004a(&mut self) -> (r: Result<u8, Fault>)
        requires
            old(self).wf(),
        ensures
            final(self).wf(),
            (*old(self)).ld8(*final(self), r, Dst::R(Reg8::C), Src::R(Reg8::D), 4),
            r is Ok ==> final(self).program_counter == old(self).program_counter,
            r is Err ==> final(self).stopped == old(self).stopped,
    {
        self.exec_ld8(Dst::R(Reg8::C), Src::R(Reg8::D), 4)
    }

    /// LD C,E
    fn op_004b(&mut self) -> (r: Result<u8, Fault>)
        requires
            old(self).wf(),
        ensures
            final(self).wf(),
            (*old(self)).ld8(*final(self), r, Dst::R(Reg8::C), Src::R(Reg8::E), 4),
            r is Ok ==> final(self).program_counter == old(self).program_counter,
            r is Err ==> final(self).stopped == old(self).stopped,
    {
        self.exec_ld8(Dst::R(Reg8::C), Src::R(Reg8::E), 4)
    }

    /// LD C,H
    fn op_004c(&mut self) -> (r: Result<u8, Fault>)
        requires
            old(self).wf(),
        ensures
            final(self).wf(),
            (*old(self)).ld8(*final(self), r, Dst::R(Reg8::C), Src::R(Reg8::H), 4),
            r is Ok ==> final(self).program_counter == old(self).program_counter,
            r is Err ==> final(self).stopped == old(self).stopped,
    {
        self.exec_ld8(Dst::R(Reg8::C), Src::R(Reg8::H), 4)
    }

    /// LD C,L
    fn op_004d(&mut self) -> (r: Result<u8, Fault>)
        requires
            old(self).wf(),
        ensures
            final(self).wf(),
            (*old(self)).ld8(*final(self), r, Dst::R(Reg8::C), Src::R(Reg8::L), 4),
            r is Ok ==> final(self).program_counter == old(self).program_counter,
            r is Err ==> final(self).stopped == old(self).stopped,
    {
        self.exec_ld8(Dst::R(Reg8::C), Src::R(Reg8::L), 4)
    }

    /// LD C,(HL)
    fn op_004e(&mut self) -> (r: Result<u8, Fault>)
        requires
            old(self).wf(),
        ensures
            final(self).wf(),
            (*old(self)).ld8(*final(self), r, Dst::R(Reg8::C), Src::AtHL, 8),
            r is Ok ==> final(self).program_counter == old(self).program_counter,
            r is Err ==> final(self).stopped == old(self).stopped,
    {
        self.exec_ld8(Dst::R(Reg8::C), Src::AtHL, 8)
    }

    /// LD C,A
    fn op_004f(&mut self) -> (r: Result<u8, Fault>)
        requires
            old(self).wf(),
        ensures
            final(self).wf(),
            (*old(self)).ld8(*final(self), r, Dst::R(Reg8::C), Src::R(Reg8::A), 4),
            r is Ok ==> final(self).program_counter == old(self).program_counter,
            r is Err ==> final(self).stopped == old(self).stopped,
    {
        self.exec_ld8(Dst::R(Reg8::C), Src::R(Reg8::A), 4)
    }

    /// LD D,B
    fn op_0050(&mut self) -> (r: Result<u8, Fault>)
        requires
            old(self).wf(),
        ensures
            final(self).wf(),
            (*old(self)).ld8(*final(self), r, Dst::R(Reg8::D), Src::R(Reg8::B), 4),
            r is Ok ==> final(self).program_counter == old(self).program_counter,
            r is Err ==> final(self).stopped == old(self).stopped,
    {
        self.exec_ld8(Dst::R(Reg8::D), Src::R(Reg8::B), 4)
    }

    /// LD D,C
    fn op_0051(&mut self) -> (r: Result<u8, Fault>)
        requires
            old(self).wf(),
        ensures
            final(self).wf(),
            (*old(self)).ld8(*final(self), r, Dst::R(Reg8::D), Src::R(Reg8::C), 4),
            r is Ok ==> final(self).program_counter == old(self).program_counter,
            r is Err ==> final(self).stopped == old(self).stopped,
    {
        self.exec_ld8(Dst::R(Reg8::D), Src::R(Reg8::C), 4)
    }

    /// LD D,D
    fn op_0052(&mut self) -> (r: Result<u8, Fault>)
        requires
            old(self).wf(),
        ensures
            final(self).wf(),
            (*old(self)).ld8(*final(self), r, Dst::R(Reg8::D), Src::R(Reg8::D), 4),
            r is Ok ==> final(self).program_counter == old(self).program_counter,
            r is Err ==> final(self).stopped == old(self).stopped,
    {
        self.exec_ld8(Dst::R(Reg8::D), Src::R(Reg8::D), 4)
    }

    /// LD D,E
    fn op_0053(&mut self) -> (r: Result<u8, Fault>)
        requires
            old(self).wf(),
        ensures
            final(self).wf(),
            (*old(self)).ld8(*final(self), r, Dst::R(Reg8::D), Src::R(Reg8::E), 4),
            r is Ok ==> final(self).program_counter == old(self).program_counter,
            r is Err ==> final(self).stopped == old(self).stopped,
    {
        self.exec_ld8(Dst::R(Reg8::D), Src::R(Reg8::E), 4)
    }

    /// LD D,H
    fn op_0054(&mut self) -> (r: Result<u8, Fault>)
        requires
            old(self).wf(),
        ensures
            final(self).wf(),
            (*old(self)).ld8(*final(self), r, Dst::R(Reg8::D), Src::R(Reg8::H), 4),
            r is Ok ==> final(self).program_counter == old(self).program_counter,
            r is Err ==> final(self).stopped == old(self).stopped,
    {
        self.exec_ld8(Dst::R(Reg8::D), Src::R(Reg8::H), 4)
    }

    /// LD D,L
    fn op_0055(&mut self) -> (r: Result<u8, Fault>)
        requires
            old(self).wf(),
        ensures
            final(self).wf(),
            (*old(self)).ld8(*final(self), r, Dst::R(Reg8::D), Src::R(Reg8::L), 4),
            r is Ok ==> final(self).program_counter == old(self).program_counter,
            r is Err ==> final(self).stopped == old(self).stopped,
    {
        self.exec_ld8(Dst::R(Reg8::D), Src::R(Reg8::L), 4)
    }

    /// LD D,(HL)
    fn op_0056(&mut self) -> (r: Result<u8, Fault>)
        requires
            old(self).wf(),
        ensures
            final(self).wf(),
            (*old(self)).ld8(*final(self), r, Dst::R(Reg8::D), Src::AtHL, 8),
            r is Ok ==> final(self).program_counter == old(self).program_counter,
            r is Err ==> final(self).stopped == old(self).stopped,
    {
        self.exec_ld8(Dst::R(Reg8::D), Src::AtHL, 8)
    }

    /// LD D,A
    fn op_0057(&mut self) -> (r: Result<u8, Fault>)
        requires
            old(self).wf(),
        ensures
            final(self).wf(),
            (*old(self)).ld8(*final(self), r, Dst::R(Reg8::D), Src::R(Reg8::A), 4),
            r is Ok ==> final(self).program_counter == old(self).program_counter,
            r is Err ==> final(self).stopped == old(self).stopped,
    {
        self.exec_ld8(Dst::R(Reg8::D), Src::R(Reg8::A), 4)
    }

    /// LD E,B
    fn op_0058(&mut self) -> (r: Result<u8, Fault>)
        requires
            old(self).wf(),
        ensures
            final(self).wf(),
            (*old(self)).ld8(*final(self), r, Dst::R(Reg8::E), Src::R(Reg8::B), 4),
            r is Ok ==> final(self).program_counter == old(self).program_counter,
            r is Err ==> final(self).stopped == old(self).stopped,
    {
        self.exec_ld8(Dst::R(Reg8::E), Src::R(Reg8::B), 4)
    }

    /// LD E,C
    fn op_0059(&mut self) -> (r: Result<u8, Fault>)
        requires
            old(self).wf(),
        ensures
            final(self).wf(),
            (*old(self)).ld8(*final(self), r, Dst::R(Reg8::E), Src::R(Reg8::C), 4),
            r is Ok ==> final(self).program_counter == old(self).program_counter,
            r is Err ==> final(self).stopped == old(self).stopped,
    {
        self.exec_ld8(Dst::R(Reg8::E), Src::R(Reg8::C), 4)
    }

    /// LD E,D
    fn op_005a(&mut self) -> (r: Result<u8, Fault>)
        requires
            old(self).wf(),
        ensures
            final(self).wf(),
            (*old(self)).ld8(*final(self), r, Dst::R(Reg8::E), Src::R(Reg8::D), 4),
            r is Ok ==> final(self).program_counter == old(self).program_counter,
            r is Err ==> final(self).stopped == old(self).stopped,
    {
        self.exec_ld8(Dst::R(Reg8::E), Src::R(Reg8::D), 4)
    }

    /// LD E,E
    fn op_005b(&mut self) -> (r: Result<u8, Fault>)
        requires
            old(self).wf(),
        ensures
            final(self).wf(),
            (*old(self)).ld8(*final(self), r, Dst::R(Reg8::E), Src::R(Reg8::E), 4),
            r is Ok ==> final(self).program_counter == old(self).program_counter,
            r is Err ==> final(self).stopped == old(self).stopped,
    {
        self.exec_ld8(Dst::R(Reg8::E), Src::R(Reg8::E), 4)
    }

    /// LD E,H
    fn op_005c(&mut self) -> (r: Result<u8, Fault>)
        requires
            old(self).wf(),
        ensures
            final(self).wf(),
            (*old(self)).ld8(*final(self), r, Dst::R(Reg8::E), Src::R(Reg8::H), 4),
            r is Ok ==> final(self).program_counter == old(self).program_counter,
            r is Err ==> final(self).stopped == old(self).stopped,
    {
        self.exec_ld8(Dst::R(Reg8::E), Src::R(Reg8::H), 4)
    }

    /// LD E,L
    fn op_005d(&mut self) -> (r: Result<u8, Fault>)
        requires
            old(self).wf(),
        ensures
            final(self).wf(),
            (*old(self)).ld8(*final(self), r, Dst::R(Reg8::E), Src::R(Reg8::L), 4),
            r is Ok ==> final(self).program_counter == old(self).program_counter,
            r is Err ==> final(self).stopped == old(self).stopped,
    {
        self.exec_ld8(Dst::R(Reg8::E), Src::R(Reg8::L), 4)
    }

    /// LD E,(HL)
    fn op_005e(&mut self) -> (r: Result<u8, Fault>)
        requires
            old(self).wf(),
        ensures
            final(self).wf(),
            (*old(self)).ld8(*final(self), r, Dst::R(Reg8::E), Src::AtHL, 8),
            r is Ok ==> final(self).program_counter == old(self).program_counter,
            r is Err ==> final(self).stopped == old(self).stopped,
    {
        self.exec_ld8(Dst::R(Reg8::E), Src::AtHL, 8)
    }

    /// LD E,A
    fn op_005f(&mut self) -> (r: Result<u8, Fault>)
        requires
            old(self).wf(),
        ensures
            final(self).wf(),
            (*old(self)).ld8(*final(self), r, Dst::R(Reg8::E), Src::R(Reg8::A), 4),
            r is Ok ==> final(self).program_counter == old(self).program_counter,
            r is Err ==> final(self).stopped == old(self).stopped,
    {
        self.exec_ld8(Dst::R(Reg8::E), Src::R(Reg8::A), 4)
    }

    /// LD H,B
    fn op_0060(&mut self) -> (r: Result<u8, Fault>)
        requires
            old(self).wf(),
        ensures
            final(self).wf(),
            (*old(self)).ld8(*final(self), r, Dst::R(Reg8::H), Src::R(Reg8::B), 4),
            r is Ok ==> final(self).program_counter == old(self).program_counter,
            r is Err ==> final(self).stopped == old(self).stopped,
    {
        self.exec_ld8(Dst::R(Reg8::H), Src::R(Reg8::B), 4)
    }

    /// LD H,C
    fn op_0061(&mut self) -> (r: Result<u8, Fault>)
        requires
            old(self).wf(),
        ensures
            final(self).wf(),
            (*old(self)).ld8(*final(self), r, Dst::R(Reg8::H), Src::R(Reg8::C), 4),
            r is Ok ==> final(self).program_counter == old(self).program_counter,
            r is Err ==> final(self).stopped == old(self).stopped,
    {
        self.exec_ld8(Dst::R(Reg8::H), Src::R(Reg8::C), 4)
    }

    /// LD H,D
    fn op_0062(&mut self) -> (r: Result<u8, Fault>)
        requires
            old(self).wf(),
        ensures
            final(self).wf(),
            (*old(self)).ld8(*final(self), r, Dst::R(Reg8::H), Src::R(Reg8::D), 4),
            r is Ok ==> final(self).program_counter == old(self).program_counter,
            r is Err ==> final(self).stopped == old(self).stopped,
    {
        self.exec_ld8(Dst::R(Reg8::H), Src::R(Reg8::D), 4)
    }

    /// LD H,E
    fn op_0063(&mut self) -> (r: Result<u8, Fault>)
        requires
            old(self).wf(),
        ensures
            final(self).wf(),
            (*old(self)).ld8(*final(self), r, Dst::R(Reg8::H), Src::R(Reg8::E), 4),
            r is Ok ==> final(self).program_counter == old(self).program_counter,
            r is Err ==> final(self).stopped == old(self).stopped,
    {
        self.exec_ld8(Dst::R(Reg8::H), Src::R(Reg8::E), 4)
    }

    /// LD H,H
    fn op_0064(&mut self) -> (r: Result<u8, Fault>)
        requires
            old(self).wf(),
        ensures
            final(self).wf(),
            (*old(self)).ld8(*final(self), r, Dst::R(Reg8::H), Src::R(Reg8::H), 4),
            r is Ok ==> final(self).program_counter == old(self).program_counter,
            r is Err ==> final(self).stopped == old(self).stopped,
    {
        self.exec_ld8(Dst::R(Reg8::H), Src::R(Reg8::H), 4)
    }

    /// LD H,L
    fn op_0065(&mut self) -> (r: Result<u8, Fault>)
        requires
            old(self).wf(),
        ensures
            final(self).wf(),
            (*old(self)).ld8(*final(self), r, Dst::R(Reg8::H), Src::R(Reg8::L), 4),
            r is Ok ==> final(self).program_counter == old(self).program_counter,
            r is Err ==> final(self).stopped == old(self).stopped,
    {
        self.exec_ld8(Dst::R(Reg8::H), Src::R(Reg8::L), 4)
    }

    /// LD H,(HL)
    fn op_0066(&mut self) -> (r: Result<u8, Fault>)
        requires
            old(self).wf(),
        ensures
            final(self).wf(),
            (*old(self)).ld8(*final(self), r, Dst::R(Reg8::H), Src::AtHL, 8),
            r is Ok ==> final(self).program_counter == old(self).program_counter,
            r is Err ==> final(self).stopped == old(self).stopped,
    {
        self.exec_ld8(Dst::R(Reg8::H), Src::AtHL, 8)
    }

    /// LD H,A
    fn op_0067(&mut self) -> (r: Result<u8, Fault>)
        requires
            old(self).wf(),
        ensures
            final(self).wf(),
            (*old(self)).ld8(*final(self), r, Dst::R(Reg8::H), Src::R(Reg8::A), 4),
            r is Ok ==> final(self).program_counter == old(self).program_counter,
            r is Err ==> final(self).stopped == old(self).stopped,
    {
        self.exec_ld8(Dst::R(Reg8::H), Src::R(Reg8::A), 4)
    }

    /// LD L,B
    fn op_0068(&mut self) -> (r: Result<u8, Fault>)
        requires
            old(self).wf(),
        ensures
            final(self).wf(),
            (*old(self)).ld8(*final(self), r, Dst::R(Reg8::L), Src::R(Reg8::B), 4),
            r is Ok ==> final(self).program_counter == old(self).program_counter,
            r is Err ==> final(self).stopped == old(self).stopped,
    {
        self.exec_ld8(Dst::R(Reg8::L), Src::R(Reg8::B), 4)
    }

    /// LD L,C
    fn op_0069(&mut self) -> (r: Result<u8, Fault>)
        requires
            old(self).wf(),
        ensures
            final(self).wf(),
            (*old(self)).ld8(*final(self), r, Dst::R(Reg8::L), Src::R(Reg8::C), 4),
            r is Ok ==> final(self).program_counter == old(self).program_counter,
            r is Err ==> final(self).stopped == old(self).stopped,
    {
        self.exec_ld8(Dst::R(Reg8::L), Src::R(Reg8::C), 4)
    }

    /// LD L,D
    fn op_006a(&mut self) -> (r: Result<u8, Fault>)
        requires
            old(self).wf(),
        ensures
            final(self).wf(),
            (*old(self)).ld8(*final(self), r, Dst::R(Reg8::L), Src::R(Reg8::D), 4),
            r is Ok ==> final(self).program_counter == old(self).program_counter,
            r is Err ==> final(self).stopped == old(self).stopped,
    {
        self.exec_ld8(Dst::R(Reg8::L), Src::R(Reg8::D), 4)
    }

    /// LD L,E
    fn op_006b(&mut self) -> (r: Result<u8, Fault>)
        requires
            old(self).wf(),
        ensures
            final(self).wf(),
            (*old(self)).ld8(*final(self), r, Dst::R(Reg8::L), Src::R(Reg8::E), 4),
            r is Ok ==> final(self).program_counter == old(self).program_counter,
            r is Err ==> final(self).stopped == old(self).stopped,
    {
        self.exec_ld8(Dst::R(Reg8::L), Src::R(Reg8::E), 4)
    }

    /// LD L,H
    fn op_006c(&mut self) -> (r: Result<u8, Fault>)
        requires
            old(self).wf(),
        ensures
            final(self).wf(),
            (*old(self)).ld8(*final(self), r, Dst::R(Reg8::L), Src::R(Reg8::H), 4),
            r is Ok ==> final(self).program_counter == old(self).program_counter,
            r is Err ==> final(self).stopped == old(self).stopped,
    {
        self.exec_ld8(Dst::R(Reg8::L), Src::R(Reg8::H), 4)
    }

    /// LD L,L
    fn op_006d(&mut self) -> (r: Result<u8, Fault>)
        requires
            old(self).wf(),
        ensures
            final(self).wf(),
            (*old(self)).ld8(*final(self), r, Dst::R(Reg8::L), Src::R(Reg8::L), 4),
            r is Ok ==> final(self).program_counter == old(self).program_counter,
            r is Err ==> final(self).stopped == old(self).stopped,
    {
        self.exec_ld8(Dst::R(Reg8::L), Src::R(Reg8::L), 4)
    }

    /// LD L,(HL)
    fn op_006e(&mut self) -> (r: Result<u8, Fault>)
        requires
            old(self).wf(),
        ensures
            final(self).wf(),
            (*old(self)).ld8(*final(self), r, Dst::R(Reg8::L), Src::AtHL, 8),
            r is Ok ==> final(self).program_counter == old(self).program_counter,
            r is Err ==> final(self).stopped == old(self).stopped,
    {
        self.exec_ld8(Dst::R(Reg8::L), Src::AtHL, 8)
    }

    /// LD L,A
    fn op_006f(&mut self) -> (r: Result<u8, Fault>)
        requires
            old(self).wf(),
        ensures
            final(self).wf(),
            (*old(self)).ld8(*final(self), r, Dst::R(Reg8::L), Src::R(Reg8::A), 4),
            r is Ok ==> final(self).program_counter == old(self).program_counter,
            r is Err ==> final(self).stopped == old(self).stopped,
    {
        self.exec_ld8(Dst::R(Reg8::L), Src::R(Reg8::A), 4)
    }

    /// LD (HL),B
    fn op_0070(&mut self) -> (r: Result<u8, Fault>)
        requires
            old(self).wf(),
        ensures
            final(self).wf(),
            (*old(self)).ld8(*final(self), r, Dst::AtHL, Src::R(Reg8::B), 8),
            r is Ok ==> final(self).program_counter == old(self).program_counter,
            r is Err ==> final(self).stopped == old(self).stopped,
    {
        self.exec_ld8(Dst::AtHL, Src::R(Reg8::B), 8)
    }

    /// LD (HL),C
    fn op_0071(&mut self) -> (r: Result<u8, Fault>)
        requires
            old(self).wf(),
        ensures
            final(self).wf(),
            (*old(self)).ld8(*final(self), r, Dst::AtHL, Src::R(Reg8::C), 8),
            r is Ok ==> final(self).program_counter == old(self).program_counter,
            r is Err ==> final(self).stopped == old(self).stopped,
    {
        self.exec_ld8(Dst::AtHL, Src::R(Reg8::C), 8)
    }

    /// LD (HL),D
    fn op_0072(&mut self) -> (r: Result<u8, Fault>)
        requires
            old(self).wf(),
        ensures
            final(self).wf(),
            (*old(self)).ld8(*final(self), r, Dst::AtHL, Src::R(Reg8::D), 8),
            r is Ok ==> final(self).program_counter == old(self).program_counter,
            r is Err ==> final(self).stopped == old(self).stopped,
    {
        self.exec_ld8(Dst::AtHL, Src::R(Reg8::D), 8)
    }

    /// LD (HL),E
    fn op_0073(&mut self) -> (r: Result<u8, Fault>)
        requires
            old(self).wf(),
        ensures
            final(self).wf(),
            (*old(self)).ld8(*final(self), r, Dst::AtHL, Src::R(Reg8::E), 8),
            r is Ok ==> final(self).program_counter == old(self).program_counter,
            r is Err ==> final(self).stopped == old(self).stopped,
    {
        self.exec_ld8(Dst::AtHL, Src::R(Reg8::E), 8)
    }

    /// LD (HL),H
    fn op_0074(&mut self) -> (r: Result<u8, Fault>)
        requires
            old(self).wf(),
        ensures
            final(self).wf(),
            (*old(self)).ld8(*final(self), r, Dst::AtHL, Src::R(Reg8::H), 8),
            r is Ok ==> final(self).program_counter == old(self).program_counter,
            r is Err ==> final(self).stopped == old(self).stopped,
    {
        self.exec_ld8(Dst::AtHL, Src::R(Reg8::H), 8)
    }

    /// LD (HL),L
    fn op_0075(&mut self) -> (r: Result<u8, Fault>)
        requires
            old(self).wf(),
        ensures
            final(self).wf(),
            (*old(self)).ld8(*final(self), r, Dst::AtHL, Src::R(Reg8::L), 8),
            r is Ok ==> final(self).program_counter == old(self).program_counter,
            r is Err ==> final(self).stopped == old(self).stopped,
    {
        self.exec_ld8(Dst::AtHL, Src::R(Reg8::L), 8)
    }

    /// HALT
    fn op_0076(&mut self) -> (r: Result<u8, Fault>)
        requires
            old(self).wf(),
        ensures
            final(self).wf(),
            r == Ok::<u8, Fault>(4) && *final(self) == (CPU { halted: true, ..(*old(self)) }),
            r is Ok ==> final(self).program_counter == old(self).program_counter,
            r is Err ==> final(self).stopped == old(self).stopped,
    {
        self.halt();
        Ok(4)
    }

    /// LD (HL),A
    fn op_0077(&mut self) -> (r: Result<u8, Fault>)
        requires
            old(self).wf(),
        ensures
            final(self).wf(),
            (*old(self)).ld8(*final(self), r, Dst::AtHL, Src::R(Reg8::A), 8),
            r is Ok ==> final(self).program_counter == old(self).program_counter,
            r is Err ==> final(self).stopped == old(self).stopped,
    {
        self.exec_ld8(Dst::AtHL, Src::R(Reg8::A), 8)
    }

    /// LD A,B
    fn op_0078(&mut self) -> (r: Result<u8, Fault>)
        requires
            old(self).wf(),
        ensures
            final(self).wf(),
            (*old(self)).ld8(*final(self), r, Dst::R(Reg8::A), Src::R(Reg8::B), 4),
            r is Ok ==> final(self).program_counter == old(self).program_counter,
            r is Err ==> final(self).stopped == old(self).stopped,
    {
        self.exec_ld8(Dst::R(Reg8::A), Src::R(Reg8::B), 4)
    }

    /// LD A,C
    fn op_0079(&mut self) -> (r: Result<u8, Fault>)
        requires
            old(self).wf(),
        ensures
            final(self).wf(),
            (*old(self)).ld8(*final(self), r, Dst::R(Reg8::A), Src::R(Reg8::C), 4),
            r is Ok ==> final(self).program_counter == old(self).program_counter,
            r is Err ==> final(self).stopped == old(self).stopped,
    {
        self.exec_ld8(Dst::R(Reg8::A), Src::R(Reg8::C), 4)
    }

    /// LD A,D
    fn op_007a(&mut self) -> (r: Result<u8, Fault>)
        requires
            old(self).wf(),
        ensures
            final(self).wf(),
            (*old(self)).ld8(*final(self), r, Dst::R(Reg8::A), Src::R(Reg8::D), 4),
            r is Ok ==> final(self).program_counter == old(self).program_counter,
            r is Err ==> final(self).stopped == old(self).stopped,
    {
        self.exec_ld8(Dst::R(Reg8::A), Src::R(Reg8::D), 4)
    }

    /// LD A,E
    fn op_007b(&mut self) -> (r: Result<u8, Fault>)
        requires
            old(self).wf(),
        ensures
            final(self).wf(),
            (*old(self)).ld8(*final(self), r, Dst::R(Reg8::A), Src::R(Reg8::E), 4),
            r is Ok ==> final(self).program_counter == old(self).program_counter,
            r is Err ==> final(self).stopped == old(self).stopped,
    {
        self.exec_ld8(Dst::R(Reg8::A), Src::R(Reg8::E), 4)
    }

    /// LD A,H
    fn op_007c(&mut self) -> (r: Result<u8, Fault>)
        requires
            old(self).wf(),
        ensures
            final(self).wf(),
            (*old(self)).ld8(*final(self), r, Dst::R(Reg8::A), Src::R(Reg8::H), 4),
            r is Ok ==> final(self).program_counter == old(self).program_counter,
            r is Err ==> final(self).stopped == old(self).stopped,
    {
        self.exec_ld8(Dst::R(Reg8::A), Src::R(Reg8::H), 4)
    }

    /// LD A,L
    fn op_007d(&mut self) -> (r: Result<u8, Fault>)
        requires
            old(self).wf(),
        ensures
            final(self).wf(),
            (*old(self)).ld8(*final(self), r, Dst::R(Reg8::A), Src::R(Reg8::L), 4),
            r is Ok ==> final(self).program_counter == old(self).program_counter,
            r is Err ==> final(self).stopped == old(self).stopped,
    {
        self.exec_ld8(Dst::R(Reg8::A), Src::R(Reg8::L), 4)
    }

    /// LD A,(HL)
    fn op_007e(&mut self) -> (r: Result<u8, Fault>)
        requires
            old(self).wf(),
        ensures
            final(self).wf(),
            (*old(self)).ld8(*final(self), r, Dst::R(Reg8::A), Src::AtHL, 8),
            r is Ok ==> final(self).program_counter == old(self).program_counter,
            r is Err ==> final(self).stopped == old(self).stopped,
    {
        self.exec_ld8(Dst::R(Reg8::A), Src::AtHL, 8)
    }

    /// LD A,A
    fn op_007f(&mut self) -> (r: Result<u8, Fault>)
        requires
            old(self).wf(),
        ensures
            final(self).wf(),
            (*old(self)).ld8(*final(self), r, Dst::R(Reg8::A), Src::R(Reg8::A), 4),
            r is Ok ==> final(self).program_counter == old(self).program_counter,
            r is Err ==> final(self).stopped == old(self).stopped,
    {
        self.exec_ld8(Dst::R(Reg8::A), Src::R(Reg8::A), 4)
    }

    /// ADD A,B
    fn op_0080(&mut self) -> (r: Result<u8, Fault>)
        requires
            old(self).wf(),
        ensures
            final(self).wf(),
            (*old(self)).alu(*final(self), r, AluOp::Add, Src::R(Reg8::B), 4),
            r is Ok ==> final(self).program_counter == old(self).program_counter,
            r is Err ==> final(self).stopped == old(self).stopped,
    {
        self.exec_alu(AluOp::Add, Src::R(Reg8::B), 4)
    }

    /// ADD A,C
    fn op_0081(&mut self) -> (r: Result<u8, Fault>)
        requires
            old(self).wf(),
        ensures
            final(self).wf(),
            (*old(self)).alu(*final(self), r, AluOp::Add, Src::R(Reg8::C), 4),
            r is Ok ==> final(self).program_counter == old(self).program_counter,
            r is Err ==> final(self).stopped == old(self).stopped,
    {
        self.exec_alu(AluOp::Add, Src::R(Reg8::C), 4)
    }

    /// ADD A,D
    fn op_0082(&mut self) -> (r: Result<u8, Fault>)
        requires
            old(self).wf(),
        ensures
            final(self).wf(),
            (*old(self)).alu(*final(self), r, AluOp::Add, Src::R(Reg8::D), 4),
            r is Ok ==> final(self).program_counter == old(self).program_counter,
            r is Err ==> final(self).stopped == old(self).stopped,
    {
        self.exec_alu(AluOp::Add, Src::R(Reg8::D), 4)
    }

    /// ADD A,E
    fn op_0083(&mut self) -> (r: Result<u8, Fault>)
        requires
            old(self).wf(),
        ensures
            final(self).wf(),
            (*old(self)).alu(*final(self), r, AluOp::Add, Src::R(Reg8::E), 4),
            r is Ok ==> final(self).program_counter == old(self).program_counter,
            r is Err ==> final(self).stopped == old(self).stopped,
    {
        self.exec_alu(AluOp::Add, Src::R(Reg8::E), 4)
    }

    /// ADD A,H
    fn op_0084(&mut self) -> (r: Result<u8, Fault>)
        requires
            old(self).wf(),
        ensures
            final(self).wf(),
            (*old(self)).alu(*final(self), r, AluOp::Add, Src::R(Reg8::H), 4),
            r is Ok ==> final(self).program_counter == old(self).program_counter,
            r is Err ==> final(self).stopped == old(self).stopped,
    {
        self.exec_alu(AluOp::Add, Src::R(Reg8::H), 4)
    }

    /// ADD A,L
    fn op_0085(&mut self) -> (r: Result<u8, Fault>)
        requires
            old(self).wf(),
        ensures
            final(self).wf(),
            (*old(self)).alu(*final(self), r, AluOp::Add, Src::R(Reg8::L), 4),
            r is Ok ==> final(self).program_counter == old(self).program_counter,
            r is Err ==> final(self).stopped == old(self).stopped,
    {
        self.exec_alu(AluOp::Add, Src::R(Reg8::L), 4)
    }

    /// ADD A,(HL)
    fn op_0086(&mut self) -> (r: Result<u8, Fault>)
        requires
            old(self).wf(),
        ensures
            final(self).wf(),
            (*old(self)).alu(*final(self), r, AluOp::Add, Src::AtHL, 8),
            r is Ok ==> final(self).program_counter == old(self).program_counter,
            r is Err ==> final(self).stopped == old(self).stopped,
    {
        self.exec_alu(AluOp::Add, Src::AtHL, 8)
    }

    /// ADD A,A
    fn op_0087(&mut self) -> (r: Result<u8, Fault>)
        requires
            old(self).wf(),
        ensures
            final(self).wf(),
            (*old(self)).alu(*final(self), r, AluOp::Add, Src::R(Reg8::A), 4),
            r is Ok ==> final(self).program_counter == old(self).program_counter,
            r is Err ==> final(self).stopped == old(self).stopped,
    {
        self.exec_alu(AluOp::Add, Src::R(Reg8::A), 4)
    }

    /// ADC A,B
    fn op_0088(&mut self) -> (r: Result<u8, Fault>)
        requires
            old(self).wf(),
        ensures
            final(self).wf(),
            (*old(self)).alu(*final(self), r, AluOp::Adc, Src::R(Reg8::B), 4),
            r is Ok ==> final(self).program_counter == old(self).program_counter,
            r is Err ==> final(self).stopped == old(self).stopped,
    {
        self.exec_alu(AluOp::Adc, Src::R(Reg8::B), 4)
    }

    /// ADC A,C
    fn op_0089(&mut self) -> (r: Result<u8, Fault>)
        requires
            old(self).wf(),
        ensures
            final(self).wf(),
            (*old(self)).alu(*final(self), r, AluOp::Adc, Src::R(Reg8::C), 4),
            r is Ok ==> final(self).program_counter == old(self).program_counter,
            r is Err ==> final(self).stopped == old(self).stopped,
    {
        self.exec_alu(AluOp::Adc, Src::R(Reg8::C), 4)
    }

    /// ADC A,D
    fn op_008a(&mut self) -> (r: Result<u8, Fault>)
        requires
            old(self).wf(),
        ensures
            final(self).wf(),
            (*old(self)).alu(*final(self), r, AluOp::Adc, Src::R(Reg8::D), 4),
            r is Ok ==> final(self).program_counter == old(self).program_counter,
            r is Err ==> final(self).stopped == old(self).stopped,
    {
        self.exec_alu(AluOp::Adc, Src::R(Reg8::D), 4)
    }

    /// ADC A,E
    fn op_008b(&mut self) -> (r: Result<u8, Fault>)
        requires
            old(self).wf(),
        ensures
            final(self).wf(),
            (*old(self)).alu(*final(self), r, AluOp::Adc, Src::R(Reg8::E), 4),
            r is Ok ==> final(self).program_counter == old(self).program_counter,
            r is Err ==> final(self).stopped == old(self).stopped,
    {
        self.exec_alu(AluOp::Adc, Src::R(Reg8::E), 4)
    }

    /// ADC A,H
    fn op_008c(&mut self) -> (r: Result<u8, Fault>)
        requires
            old(self).wf(),
        ensures
            final(self).wf(),
            (*old(self)).alu(*final(self), r, AluOp::Adc, Src::R(Reg8::H), 4),
            r is Ok ==> final(self).program_counter == old(self).program_counter,
            r is Err ==> final(self).stopped == old(self).stopped,
    {
        self.exec_alu(AluOp::Adc, Src::R(Reg8::H), 4)
    }

    /// ADC A,L
    fn op_008d(&mut self) -> (r: Result<u8, Fault>)
        requires
            old(self).wf(),
        ensures
            final(self).wf(),
            (*old(self)).alu(*final(self), r, AluOp::Adc, Src::R(Reg8::L), 4),
            r is Ok ==> final(self).program_counter == old(self).program_counter,
            r is Err ==> final(self).stopped == old(self).stopped,
    {
        self.exec_alu(AluOp::Adc, Src::R(Reg8::L), 4)
    }

    /// ADC A,(HL)
    fn op_008e(&mut self) -> (r: Result<u8, Fault>)
        requires
            old(self).wf(),
        ensures
            final(self).wf(),
            (*old(self)).alu(*final(self), r, AluOp::Adc, Src::AtHL, 8),
            r is Ok ==> final(self).program_counter == old(self).program_counter,
            r is Err ==> final(self).stopped == old(self).stopped,
    {
        self.exec_alu(AluOp::Adc, Src::AtHL, 8)
    }

    /// ADC A,A
    fn op_008f(&mut self) -> (r: Result<u8, Fault>)
        requires
            old(self).wf(),
        ensures
            final(self).wf(),
            (*old(self)).alu(*final(self), r, AluOp::Adc, Src::R(Reg8::A), 4),
            r is Ok ==> final(self).program_counter == old(self).program_counter,
            r is Err ==> final(self).stopped == old(self).stopped,
    {
        self.exec_alu(AluOp::Adc, Src::R(Reg8::A), 4)
    }

    /// SUB A,B
    fn op_0090(&mut self) -> (r: Result<u8, Fault>)
        requires
            old(self).wf(),
        ensures
            final(self).wf(),
            (*old(self)).alu(*final(self), r, AluOp::Sub, Src::R(Reg8::B), 4),
            r is Ok ==> final(self).program_counter == old(self).program_counter,
            r is Err ==> final(self).stopped == old(self).stopped,
    {
        self.exec_alu(AluOp::Sub, Src::R(Reg8::B), 4)
    }

    /// SUB A,C
    fn op_0091(&mut self) -> (r: Result<u8, Fault>)
        requires
            old(self).wf(),
        ensures
            final(self).wf(),
            (*old(self)).alu(*final(self), r, AluOp::Sub, Src::R(Reg8::C), 4),
            r is Ok ==> final(self).program_counter == old(self).program_counter,
            r is Err ==> final(self).stopped == old(self).stopped,
    {
        self.exec_alu(AluOp::Sub, Src::R(Reg8::C), 4)
    }

    /// SUB A,D
    fn op_0092(&mut self) -> (r: Result<u8, Fault>)
        requires
            old(self).wf(),
        ensures
            final(self).wf(),
            (*old(self)).alu(*final(self), r, AluOp::Sub, Src::R(Reg8::D), 4),
            r is Ok ==> final(self).program_counter == old(self).program_counter,
            r is Err ==> final(self).stopped == old(self).stopped,
    {
        self.exec_alu(AluOp::Sub, Src::R(Reg8::D), 4)
    }

    /// SUB A,E
    fn op_0093(&mut self) -> (r: Result<u8, Fault>)
        requires
            old(self).wf(),
        ensures
            final(self).wf(),
            (*old(self)).alu(*final(self), r, AluOp::Sub, Src::R(Reg8::E), 4),
            r is Ok ==> final(self).program_counter == old(self).program_counter,
            r is Err ==> final(self).stopped == old(self).stopped,
    {
        self.exec_alu(AluOp::Sub, Src::R(Reg8::E), 4)
    }

    /// SUB A,H
    fn op_0094(&mut self) -> (r: Result<u8, Fault>)
        requires
            old(self).wf(),
        ensures
            final(self).wf(),
            (*old(self)).alu(*final(self), r, AluOp::Sub, Src::R(Reg8::H), 4),
            r is Ok ==> final(self).program_counter == old(self).program_counter,
            r is Err ==> final(self).stopped == old(self).stopped,
    {
        self.exec_alu(AluOp::Sub, Src::R(Reg8::H), 4)
    }

    /// SUB A,L
    fn op_0095(&mut self) -> (r: Result<u8, Fault>)
        requires
            old(self).wf(),
        ensures
            final(self).wf(),
            (*old(self)).alu(*final(self), r, AluOp::Sub, Src::R(Reg8::L), 4),
            r is Ok ==> final(self).program_counter == old(self).program_counter,
            r is Err ==> final(self).stopped == old(self).stopped,
    {
        self.exec_alu(AluOp::Sub, Src::R(Reg8::L), 4)
    }

    /// SUB A,(HL)
    fn op_0096(&mut self) -> (r: Result<u8, Fault>)
        requires
            old(self).wf(),
        ensures
            final(self).wf(),
            (*old(self)).alu(*final(self), r, AluOp::Sub, Src::AtHL, 8),
            r is Ok ==> final(self).program_counter == old(self).program_counter,
            r is Err ==> final(self).stopped == old(self).stopped,
    {
        self.exec_alu(AluOp::Sub, Src::AtHL, 8)
    }

    /// SUB A,A
    fn op_0097(&mut self) -> (r: Result<u8, Fault>)
        requires
            old(self).wf(),
        ensures
            final(self).wf(),
            (*old(self)).alu(*final(self), r, AluOp::Sub, Src::R(Reg8::A), 4),
            r is Ok ==> final(self).program_counter == old(self).program_counter,
            r is Err ==> final(self).stopped == old(self).stopped,
    {
        self.exec_alu(AluOp::Sub, Src::R(Reg8::A), 4)
    }

    /// SBC A,B
    fn op_0098(&mut self) -> (r: Result<u8, Fault>)
        requires
            old(self).wf(),
        ensures
            final(self).wf(),
            (*old(self)).alu(*final(self), r, AluOp::Sbc, Src::R(Reg8::B), 4),
            r is Ok ==> final(self).program_counter == old(self).program_counter,
            r is Err ==> final(self).stopped == old(self).stopped,
    {
        self.exec_alu(AluOp::Sbc, Src::R(Reg8::B), 4)
    }

    /// SBC A,C
    fn op_0099(&mut self) -> (r: Result<u8, Fault>)
        requires
            old(self).wf(),
        ensures
            final(self).wf(),
            (*old(self)).alu(*final(self), r, AluOp::Sbc, Src::R(Reg8::C), 4),
            r is Ok ==> final(self).program_counter == old(self).program_counter,
            r is Err ==> final(self).stopped == old(self).stopped,
    {
        self.exec_alu(AluOp::Sbc, Src::R(Reg8::C), 4)
    }

    /// SBC A,D
    fn op_009a(&mut self) -> (r: Result<u8, Fault>)
        requires
            old(self).wf(),
        ensures
            final(self).wf(),
            (*old(self)).alu(*final(self), r, AluOp::Sbc, Src::R(Reg8::D), 4),
            r is Ok ==> final(self).program_counter == old(self).program_counter,
            r is Err ==> final(self).stopped == old(self).stopped,
    {
        self.exec_alu(AluOp::Sbc, Src::R(Reg8::D), 4)
    }

    /// SBC A,E
    fn op_009b(&mut self) -> (r: Result<u8, Fault>)
        requires
            old(self).wf(),
        ensures
            final(self).wf(),
            (*old(self)).alu(*final(self), r, AluOp::Sbc, Src::R(Reg8::E), 4),
            r is Ok ==> final(self).program_counter == old(self).program_counter,
            r is Err ==> final(self).stopped == old(self).stopped,
    {
        self.exec_alu(AluOp::Sbc, Src::R(Reg8::E), 4)
    }

    /// SBC A,H
    fn op_009c(&mut self) -> (r: Result<u8, Fault>)
        requires
            old(self).wf(),
        ensures
            final(self).wf(),
            (*old(self)).alu(*final(self), r, AluOp::Sbc, Src::R(Reg8::H), 4),
            r is Ok ==> final(self).program_counter == old(self).program_counter,
            r is Err ==> final(self).stopped == old(self).stopped,
    {
        self.exec_alu(AluOp::Sbc, Src::R(Reg8::H), 4)
    }

    /// SBC A,L
    fn op_009d(&mut self) -> (r: Result<u8, Fault>)
        requires
            old(self).wf(),
        ensures
            final(self).wf(),
            (*old(self)).alu(*final(self), r, AluOp::Sbc, Src::R(Reg8::L), 4),
            r is Ok ==> final(self).program_counter == old(self).program_counter,
            r is Err ==> final(self).stopped == old(self).stopped,
    {
        self.exec_alu(AluOp::Sbc, Src::R(Reg8::L), 4)
    }

    /// SBC A,(HL)
    fn op_009e(&mut self) -> (r: Result<u8, Fault>)
        requires
            old(self).wf(),
        ensures
            final(self).wf(),
            (*old(self)).alu(*final(self), r, AluOp::Sbc, Src::AtHL, 8),
            r is Ok ==> final(self).program_counter == old(self).program_counter,
            r is Err ==> final(self).stopped == old(self).stopped,
    {
        self.exec_alu(AluOp::Sbc, Src::AtHL, 8)
    }

    /// SBC A,A
    fn op_009f(&mut self) -> (r: Result<u8, Fault>)
        requires
            old(self).wf(),
        ensures
            final(self).wf(),
            (*old(self)).alu(*final(self), r, AluOp::Sbc, Src::R(Reg8::A), 4),
            r is Ok ==> final(self).program_counter == old(self).program_counter,
            r is Err ==> final(self).stopped == old(self).stopped,
    {
        self.exec_alu(AluOp::Sbc, Src::R(Reg8::A), 4)
    }

    /// AND A,B
    fn op_00a0(&mut self) -> (r: Result<u8, Fault>)
        requires
            old(self).wf(),
        ensures
            final(self).wf(),
            (*old(self)).alu(*final(self), r, AluOp::And, Src::R(Reg8::B), 4),
            r is Ok ==> final(self).program_counter == old(self).program_counter,
            r is Err ==> final(self).stopped == old(self).stopped,
    {
        self.exec_alu(AluOp::And, Src::R(Reg8::B), 4)
    }

    /// AND A,C
    fn op_00a1(&mut self) -> (r: Result<u8, Fault>)
        requires
            old(self).wf(),
        ensures
            final(self).wf(),
            (*old(self)).alu(*final(self), r, AluOp::And, Src::R(Reg8::C), 4),
            r is Ok ==> final(self).program_counter == old(self).program_counter,
            r is Err ==> final(self).stopped == old(self).stopped,
    {
        self.exec_alu(AluOp::And, Src::R(Reg8::C), 4)
    }

    /// AND A,D
    fn op_00a2(&mut self) -> (r: Result<u8, Fault>)
        requires
            old(self).wf(),
        ensures
            final(self).wf(),
            (*old(self)).alu(*final(self), r, AluOp::And, Src::R(Reg8::D), 4),
            r is Ok ==> final(self).program_counter == old(self).program_counter,
            r is Err ==> final(self).stopped == old(self).stopped,
    {
        self.exec_alu(AluOp::And, Src::R(Reg8::D), 4)
    }

    /// AND A,E
    fn op_00a3(&mut self) -> (r: Result<u8, Fault>)
        requires
            old(self).wf(),
        ensures
            final(self).wf(),
            (*old(self)).alu(*final(self), r, AluOp::And, Src::R(Reg8::E), 4),
            r is Ok ==> final(self).program_counter == old(self).program_counter,
            r is Err ==> final(self).stopped == old(self).stopped,
    {
        self.exec_alu(AluOp::And, Src::R(Reg8::E), 4)
    }

    /// AND A,H
    fn op_00a4(&mut self) -> (r: Result<u8, Fault>)
        requires
            old(self).wf(),
        ensures
            final(self).wf(),
            (*old(self)).alu(*final(self), r, AluOp::And, Src::R(Reg8::H), 4),
            r is Ok ==> final(self).program_counter == old(self).program_counter,
            r is Err ==> final(self).stopped == old(self).stopped,
    {
        self.exec_alu(AluOp::And, Src::R(Reg8::H), 4)
    }

    /// AND A,L
    fn op_00a5(&mut self) -> (r: Result<u8, Fault>)
        requires
            old(self).wf(),
        ensures
            final(self).wf(),
            (*old(self)).alu(*final(self), r, AluOp::And, Src::R(Reg8::L), 4),
            r is Ok ==> final(self).program_counter == old(self).program_counter,
            r is Err ==> final(self).stopped == old(self).stopped,
    {
        self.exec_alu(AluOp::And, Src::R(Reg8::L), 4)
    }

    /// AND A,(HL)
    fn op_00a6(&mut self) -> (r: Result<u8, Fault>)
        requires
            old(self).wf(),
        ensures
            final(self).wf(),
            (*old(self)).alu(*final(self), r, AluOp::And, Src::AtHL, 8),
            r is Ok ==> final(self).program_counter == old(self).program_counter,
            r is Err ==> final(self).stopped == old(self).stopped,
    {
        self.exec_alu(AluOp::And, Src::AtHL, 8)
    }

    /// AND A,A
    fn op_00a7(&mut self) -> (r: Result<u8, Fault>)
        requires
            old(self).wf(),
        ensures
            final(self).wf(),
            (*old(self)).alu(*final(self), r, AluOp::And, Src::R(Reg8::A), 4),
            r is Ok ==> final(self).program_counter == old(self).program_counter,
            r is Err ==> final(self).stopped == old(self).stopped,
    {
        self.exec_alu(AluOp::And, Src::R(Reg8::A), 4)
    }

    /// XOR A,B
    fn op_00a8(&mut self) -> (r: Result<u8, Fault>)
        requires
            old(self).wf(),
        ensures
            final(self).wf(),
            (*old(self)).alu(*final(self), r, AluOp::Xor, Src::R(Reg8::B), 4),
            r is Ok ==> final(self).program_counter == old(self).program_counter,
            r is Err ==> final(self).stopped == old(self).stopped,
    {
        self.exec_alu(AluOp::Xor, Src::R(Reg8::B), 4)
    }

    /// XOR A,C
    fn op_00a9(&mut self) -> (r: Result<u8, Fault>)
        requires
            old(self).wf(),
        ensures
            final(self).wf(),
            (*old(self)).alu(*final(self), r, AluOp::Xor, Src::R(Reg8::C), 4),
            r is Ok ==> final(self).program_counter == old(self).program_counter,
            r is Err ==> final(self).stopped == old(self).stopped,
    {
        self.exec_alu(AluOp::Xor, Src::R(Reg8::C), 4)
    }

    /// XOR A,D
    fn op_00aa(&mut self) -> (r: Result<u8, Fault>)
        requires
            old(self).wf(),
        ensures
            final(self).wf(),
            (*old(self)).alu(*final(self), r, AluOp::Xor, Src::R(Reg8::D), 4),
            r is Ok ==> final(self).program_counter == old(self).program_counter,
            r is Err ==> final(self).stopped == old(self).stopped,
    {
        self.exec_alu(AluOp::Xor, Src::R(Reg8::D), 4)
    }

    /// XOR A,E
    fn op_00ab(&mut self) -> (r: Result<u8, Fault>)
        requires
            old(self).wf(),
        ensures
            final(self).wf(),
            (*old(self)).alu(*final(self), r, AluOp::Xor, Src::R(Reg8::E), 4),
            r is Ok ==> final(self).program_counter == old(self).program_counter,
            r is Err ==> final(self).stopped == old(self).stopped,
    {
        self.exec_alu(AluOp::Xor, Src::R(Reg8::E), 4)
    }

    /// XOR A,H
    fn op_00ac(&mut self) -> (r: Result<u8, Fault>)
        requires
            old(self).wf(),
        ensures
            final(self).wf(),
            (*old(self)).alu(*final(self), r, AluOp::Xor, Src::R(Reg8::H), 4),
            r is Ok ==> final(self).program_counter == old(self).program_counter,
            r is Err ==> final(self).stopped == old(self).stopped,
    {
        self.exec_alu(AluOp::Xor, Src::R(Reg8::H), 4)
    }

    /// XOR A,L
    fn op_00ad(&mut self) -> (r: Result<u8, Fault>)
        requires
            old(self).wf(),
        ensures
            final(self).wf(),
            (*old(self)).alu(*final(self), r, AluOp::Xor, Src::R(Reg8::L), 4),
            r is Ok ==> final(self).program_counter == old(self).program_counter,
            r is Err ==> final(self).stopped == old(self).stopped,
    {
        self.exec_alu(AluOp::Xor, Src::R(Reg8::L), 4)
    }

    /// XOR A,(HL)
    fn op_00ae(&mut self) -> (r: Result<u8, Fault>)
        requires
            old(self).wf(),
        ensures
            final(self).wf(),
            (*old(self)).alu(*final(self), r, AluOp::Xor, Src::AtHL, 8),
            r is Ok ==> final(self).program_counter == old(self).program_counter,
            r is Err ==> final(self).stopped == old(self).stopped,
    {
        self.exec_alu(AluOp::Xor, Src::AtHL, 8)
    }

    /// XOR A,A
    fn op_00af(&mut self) -> (r: Result<u8, Fault>)
        requires
            old(self).wf(),
        ensures
            final(self).wf(),
            (*old(self)).alu(*final(self), r, AluOp::Xor, Src::R(Reg8::A), 4),
            r is Ok ==> final(self).program_counter == old(self).program_counter,
            r is Err ==> final(self).stopped == old(self).stopped,
    {
        self.exec_alu(AluOp::Xor, Src::R(Reg8::A), 4)
    }

    /// OR A,B
    fn op_00b0(&mut self) -> (r: Result<u8, Fault>)
        requires
            old(self).wf(),
        ensures
            final(self).wf(),
            (*old(self)).alu(*final(self), r, AluOp::Or, Src::R(Reg8::B), 4),
            r is Ok ==> final(self).program_counter == old(self).program_counter,
            r is Err ==> final(self).stopped == old(self).stopped,
    {
        self.exec_alu(AluOp::Or, Src::R(Reg8::B), 4)
    }

    /// OR A,C
    fn op_00b1(&mut self) -> (r: Result<u8, Fault>)
        requires
            old(self).wf(),
        ensures
            final(self).wf(),
            (*old(self)).alu(*final(self), r, AluOp::Or, Src::R(Reg8::C), 4),
            r is Ok ==> final(self).program_counter == old(self).program_counter,
            r is Err ==> final(self).stopped == old(self).stopped,
    {
        self.exec_alu(AluOp::Or, Src::R(Reg8::C), 4)
    }

    /// OR A,D
    fn op_00b2(&mut self) -> (r: Result<u8, Fault>)
        requires
            old(self).wf(),
        ensures
            final(self).wf(),
            (*old(self)).alu(*final(self), r, AluOp::Or, Src::R(Reg8::D), 4),
            r is Ok ==> final(self).program_counter == old(self).program_counter,
            r is Err ==> final(self).stopped == old(self).stopped,
    {
        self.exec_alu(AluOp::Or, Src::R(Reg8::D), 4)
    }

    /// OR A,E
    fn op_00b3(&mut self) -> (r: Result<u8, Fault>)
        requires
            old(self).wf(),
        ensures
            final(self).wf(),
            (*old(self)).alu(*final(self), r, AluOp::Or, Src::R(Reg8::E), 4),
            r is Ok ==> final(self).program_counter == old(self).program_counter,
            r is Err ==> final(self).stopped == old(self).stopped,
    {
        self.exec_alu(AluOp::Or, Src::R(Reg8::E), 4)
    }

    /// OR A,H
    fn op_00b4(&mut self) -> (r: Result<u8, Fault>)
        requires
            old(self).wf(),
        ensures
            final(self).wf(),
            (*old(self)).alu(*final(self), r, AluOp::Or, Src::R(Reg8::H), 4),
            r is Ok ==> final(self).program_counter == old(self).program_counter,
            r is Err ==> final(self).stopped == old(self).stopped,
    {
        self.exec_alu(AluOp::Or, Src::R(Reg8::H), 4)
    }

    /// OR A,L
    fn op_00b5(&mut self) -> (r: Result<u8, Fault>)
        requires
            old(self).wf(),
        ensures
            final(self).wf(),
            (*old(self)).alu(*final(self), r, AluOp::Or, Src::R(Reg8::L), 4),
            r is Ok ==> final(self).program_counter == old(self).program_counter,
            r is Err ==> final(self).stopped == old(self).stopped,
    {
        self.exec_alu(AluOp::Or, Src::R(Reg8::L), 4)
    }

    /// OR A,(HL)
    fn op_00b6(&mut self) -> (r: Result<u8, Fault>)
        requires
            old(self).wf(),
        ensures
            final(self).wf(),
            (*old(self)).alu(*final(self), r, AluOp::Or, Src::AtHL, 8),
            r is Ok ==> final(self).program_counter == old(self).program_counter,
            r is Err ==> final(self).stopped == old(self).stopped,
    {
        self.exec_alu(AluOp::Or, Src::AtHL, 8)
    }

    /// OR A,A
    fn op_00b7(&mut self) -> (r: Result<u8, Fault>)
        requires
            old(self).wf(),
        ensures
            final(self).wf(),
            (*old(self)).alu(*final(self), r, AluOp::Or, Src::R(Reg8::A), 4),
            r is Ok ==> final(self).program_counter == old(self).program_counter,
            r is Err ==> final(self).stopped == old(self).stopped,
    {
        self.exec_alu(AluOp::Or, Src::R(Reg8::A), 4)
    }

    /// CP A,B
    fn op_00b8(&mut self) -> (r: Result<u8, Fault>)
        requires
            old(self).wf(),
        ensures
            final(self).wf(),
            (*old(self)).alu(*final(self), r, AluOp::Cp, Src::R(Reg8::B), 4),
            r is Ok ==> final(self).program_counter == old(self).program_counter,
            r is Err ==> final(self).stopped == old(self).stopped,
    {
        self.exec_alu(AluOp::Cp, Src::R(Reg8::B), 4)
    }

    /// CP A,C
    fn op_00b9(&mut self) -> (r: Result<u8, Fault>)
        requires
            old(self).wf(),
        ensures
            final(self).wf(),
            (*old(self)).alu(*final(self), r, AluOp::Cp, Src::R(Reg8::C), 4),
            r is Ok ==> final(self).program_counter == old(self).program_counter,
            r is Err ==> final(self).stopped == old(self).stopped,
    {
        self.exec_alu(AluOp::Cp, Src::R(Reg8::C), 4)
    }

    /// CP A,D
    fn op_00ba(&mut self) -> (r: Result<u8, Fault>)
        requires
            old(self).wf(),
        ensures
            final(self).wf(),
            (*old(self)).alu(*final(self), r, AluOp::Cp, Src::R(Reg8::D), 4),
            r is Ok ==> final(self).program_counter == old(self).program_counter,
            r is Err ==> final(self).stopped == old(self).stopped,
    {
        self.exec_alu(AluOp::Cp, Src::R(Reg8::D), 4)
    }

    /// CP A,E
    fn op_00bb(&mut self) -> (r: Result<u8, Fault>)
        requires
            old(self).wf(),
        ensures
            final(self).wf(),
            (*old(self)).alu(*final(self), r, AluOp::Cp, Src::R(Reg8::E), 4),
            r is Ok ==> final(self).program_counter == old(self).program_counter,
            r is Err ==> final(self).stopped == old(self).stopped,
    {
        self.exec_alu(AluOp::Cp, Src::R(Reg8::E), 4)
    }

    /// CP A,H
    fn op_00bc(&mut self) -> (r: Result<u8, Fault>)
        requires
            old(self).wf(),
        ensures
            final(self).wf(),
            (*old(self)).alu(*final(self), r, AluOp::Cp, Src::R(Reg8::H), 4),
            r is Ok ==> final(self).program_counter == old(self).program_counter,
            r is Err ==> final(self).stopped == old(self).stopped,
    {
        self.exec_alu(AluOp::Cp, Src::R(Reg8::H), 4)
    }

    /// CP A,L
    fn op_00bd(&mut self) -> (r: Result<u8, Fault>)
        requires
            old(self).wf(),
        ensures
            final(self).wf(),
            (*old(self)).alu(*final(self), r, AluOp::Cp, Src::R(Reg8::L), 4),
            r is Ok ==> final(self).program_counter == old(self).program_counter,
            r is Err ==> final(self).stopped == old(self).stopped,
    {
        self.exec_alu(AluOp::Cp, Src::R(Reg8::L), 4)
    }

    /// CP A,(HL)
    fn op_00be(&mut self) -> (r: Result<u8, Fault>)
        requires
            old(self).wf(),
        ensures
            final(self).wf(),
            (*old(self)).alu(*final(self), r, AluOp::Cp, Src::AtHL, 8),
            r is Ok ==> final(self).program_counter == old(self).program_counter,
            r is Err ==> final(self).stopped == old(self).stopped,
    {
        self.exec_alu(AluOp::Cp, Src::AtHL, 8)
    }

    /// CP A,A
    fn op_00bf(&mut self) -> (r: Result<u8, Fault>)
        requires
            old(self).wf(),
        ensures
            final(self).wf(),
            (*old(self)).alu(*final(self), r, AluOp::Cp, Src::R(Reg8::A), 4),
            r is Ok ==> final(self).program_counter == old(self).program_counter,
            r is Err ==> final(self).stopped == old(self).stopped,
    {
        self.exec_alu(AluOp::Cp, Src::R(Reg8::A), 4)
    }

    /// RET NZ
    fn op_00c0(&mut self) -> (r: Result<u8, Fault>)
        requires
            old(self).wf(),
        ensures
            final(self).wf(),
            (*old(self)).ret(*final(self), r, Cond::NZ, 20, false),
            r is Err ==> final(self).stopped == old(self).stopped,
    {
        self.exec_ret(Cond::NZ, 20, false)
    }

    /// POP BC
    fn op_00c1(&mut self) -> (r: Result<u8, Fault>)
        requires
            old(self).wf(),
        ensures
            final(self).wf(),
            (*old(self)).pop_op(*final(self), r, Reg16::BC),
            r is Ok ==> final(self).program_counter == old(self).program_counter,
            r is Err ==> final(self).stopped == old(self).stopped,
    {
        self.exec_pop(Reg16::BC)
    }

    /// JP NZ,u16
    fn op_00c2(&mut self) -> (r: Result<u8, Fault>)
        requires
            old(self).wf(),
        ensures
            final(self).wf(),
            (*old(self)).jp(*final(self), r, Cond::NZ),
            r is Err ==> final(self).stopped == old(self).stopped,
    {
        self.exec_jp(Cond::NZ)
    }

    /// JP u16
    fn op_00c3(&mut self) -> (r: Result<u8, Fault>)
        requires
            old(self).wf(),
        ensures
            final(self).wf(),
            (*old(self)).jp(*final(self), r, Cond::Always),
            r is Err ==> final(self).stopped == old(self).stopped,
    {
        self.exec_jp(Cond::Always)
    }

    /// CALL NZ,u16
    fn op_00c4(&mut self) -> (r: Result<u8, Fault>)
        requires
            old(self).wf(),
        ensures
            final(self).wf(),
            (*old(self)).call(*final(self), r, Cond::NZ),
            r is Err ==> final(self).stopped == old(self).stopped,
    {
        self.exec_call(Cond::NZ)
    }

    /// PUSH BC
    fn op_00c5(&mut self) -> (r: Result<u8, Fault>)
        requires
            old(self).wf(),
        ensures
            final(self).wf(),
            (*old(self)).push_op(*final(self), r, Reg16::BC),
            r is Ok ==> final(self).program_counter == old(self).program_counter,
            r is Err ==> final(self).stopped == old(self).stopped,
    {
        self.exec_push(Reg16::BC)
    }

    /// ADD A,u8
    fn op_00c6(&mut self) -> (r: Result<u8, Fault>)
        requires
            old(self).wf(),
        ensures
            final(self).wf(),
            (*old(self)).alu(*final(self), r, AluOp::Add, Src::Imm, 8),
            r is Ok ==> final(self).program_counter == old(self).program_counter,
            r is Err ==> final(self).stopped == old(self).stopped,
    {
        self.exec_alu(AluOp::Add, Src::Imm, 8)
    }

    /// RST 00h
    fn op_00c7(&mut self) -> (r: Result<u8, Fault>)
        requires
            old(self).wf(),
        ensures
            final(self).wf(),
            (*old(self)).rst(*final(self), r, 0x0000),
            r is Err ==> final(self).stopped == old(self).stopped,
    {
        self.exec_rst(0x0000)
    }

    /// RET Z
    fn op_00c8(&mut self) -> (r: Result<u8, Fault>)
        requires
            old(self).wf(),
        ensures
            final(self).wf(),
            (*old(self)).ret(*final(self), r, Cond::Z, 20, false),
            r is Err ==> final(self).stopped == old(self).stopped,
    {
        self.exec_ret(Cond::Z, 20, false)
    }

    /// RET
    fn op_00c9(&mut self) -> (r: Result<u8, Fault>)
        requires
            old(self).wf(),
        ensures
            final(self).wf(),
            (*old(self)).ret(*final(self), r, Cond::Always, 16, false),
            r is Err ==> final(self).stopped == old(self).stopped,
    {
        self.exec_ret(Cond::Always, 16, false)
    }

    /// JP Z,u16
    fn op_00ca(&mut self) -> (r: Result<u8, Fault>)
        requires
            old(self).wf(),
        ensures
            final(self).wf(),
            (*old(self)).jp(*final(self), r, Cond::Z),
            r is Err ==> final(self).stopped == old(self).stopped,
    {
        self.exec_jp(Cond::Z)
    }

    /// PREFIX CB
    fn op_00cb(&mut self) -> (r: Result<u8, Fault>)
        requires
            old(self).wf(),
        ensures
            final(self).wf(),
            r == Ok::<u8, Fault>(4) && *final(self) == (*old(self)),
            r is Ok ==> final(self).program_counter == old(self).program_counter,
            r is Err ==> final(self).stopped == old(self).stopped,
    {
        Ok(4)
    }

    /// CALL Z,u16
    fn op_00cc(&mut self) -> (r: Result<u8, Fault>)
        requires
            old(self).wf(),
        ensures
            final(self).wf(),
            (*old(self)).call(*final(self), r, Cond::Z),
            r is Err ==> final(self).stopped == old(self).stopped,
    {
        self.exec_call(Cond::Z)
    }

    /// CALL u16
    fn op_00cd(&mut self) -> (r: Result<u8, Fault>)
        requires
            old(self).wf(),
        ensures
            final(self).wf(),
            (*old(self)).call(*final(self), r, Cond::Always),
            r is Err ==> final(self).stopped == old(self).stopped,
    {
        self.exec_call(Cond::Always)
    }

    /// ADC A,u8
    fn op_00ce(&mut self) -> (r: Result<u8, Fault>)
        requires
            old(self).wf(),
        ensures
            final(self).wf(),
            (*old(self)).alu(*final(self), r, AluOp::Adc, Src::Imm, 8),
            r is Ok ==> final(self).program_counter == old(self).program_counter,
            r is Err ==> final(self).stopped == old(self).stopped,
    {
        self.exec_alu(AluOp::Adc, Src::Imm, 8)
    }

    /// RST 08h
    fn op_00cf(&mut self) -> (r: Result<u8, Fault>)
        requires
            old(self).wf(),
        ensures
            final(self).wf(),
            (*old(self)).rst(*final(self), r, 0x0008),
            r is Err ==> final(self).stopped == old(self).stopped,
    {
        self.exec_rst(0x0008)
    }

    /// RET NC
    fn op_00d0(&mut self) -> (r: Result<u8, Fault>)
        requires
            old(self).wf(),
        ensures
            final(self).wf(),
            (*old(self)).ret(*final(self), r, Cond::NC, 20, false),
            r is Err ==> final(self).stopped == old(self).stopped,
    {
        self.exec_ret(Cond::NC, 20, false)
    }

    /// POP DE
    fn op_00d1(&mut self) -> (r: Result<u8, Fault>)
        requires
            old(self).wf(),
        ensures
            final(self).wf(),
            (*old(self)).pop_op(*final(self), r, Reg16::DE),
            r is Ok ==> final(self).program_counter == old(self).program_counter,
            r is Err ==> final(self).stopped == old(self).stopped,
    {
        self.exec_pop(Reg16::DE)
    }

    /// JP NC,u16
    fn op_00d2(&mut self) -> (r: Result<u8, Fault>)
        requires
            old(self).wf(),
        ensures
            final(self).wf(),
            (*old(self)).jp(*final(self), r, Cond::NC),
            r is Err ==> final(self).stopped == old(self).stopped,
    {
        self.exec_jp(Cond::NC)
    }

    /// CALL NC,u16
    fn op_00d4(&mut self) -> (r: Result<u8, Fault>)
        requires
            old(self).wf(),
        ensures
            final(self).wf(),
            (*old(self)).call(*final(self), r, Cond::NC),
            r is Err ==> final(self).stopped == old(self).stopped,
    {
        self.exec_call(Cond::NC)
    }

    /// PUSH DE
    fn op_00d5(&mut self) -> (r: Result<u8, Fault>)
        requires
            old(self).wf(),
        ensures
            final(self).wf(),
            (*old(self)).push_op(*final(self), r, Reg16::DE),
            r is Ok ==> final(self).program_counter == old(self).program_counter,
            r is Err ==> final(self).stopped == old(self).stopped,
    {
        self.exec_push(Reg16::DE)
    }

    /// SUB A,u8
    fn op_00d6(&mut self) -> (r: Result<u8, Fault>)
        requires
            old(self).wf(),
        ensures
            final(self).wf(),
            (*old(self)).alu(*final(self), r, AluOp::Sub, Src::Imm, 8),
            r is Ok ==> final(self).program_counter == old(self).program_counter,
            r is Err ==> final(self).stopped == old(self).stopped,
    {
        self.exec_alu(AluOp::Sub, Src::Imm, 8)
    }

    /// RST 10h
    fn op_00d7(&mut self) -> (r: Result<u8, Fault>)
        requires
            old(self).wf(),
        ensures
            final(self).wf(),
            (*old(self)).rst(*final(self), r, 0x0010),
            r is Err ==> final(self).stopped == old(self).stopped,
    {
        self.exec_rst(0x0010)
    }

    /// RET C
    fn op_00d8(&mut self) -> (r: Result<u8, Fault>)
        requires
            old(self).wf(),
        ensures
            final(self).wf(),
            (*old(self)).ret(*final(self), r, Cond::C, 20, false),
            r is Err ==> final(self).stopped == old(self).stopped,
    {
        self.exec_ret(Cond::C, 20, false)
    }

    /// RETI
    fn op_00d9(&mut self) -> (r: Result<u8, Fault>)
        requires
            old(self).wf(),
        ensures
            final(self).wf(),
            (*old(self)).ret(*final(self), r, Cond::Always, 16, true),
            r is Err ==> final(self).stopped == old(self).stopped,
    {
        self.exec_ret(Cond::Always, 16, true)
    }

    /// JP C,u16
    fn op_00da(&mut self) -> (r: Result<u8, Fault>)
        requires
            old(self).wf(),
        ensures
            final(self).wf(),
            (*old(self)).jp(*final(self), r, Cond::C),
            r is Err ==> final(self).stopped == old(self).stopped,
    {
        self.exec_jp(Cond::C)
    }

    /// CALL C,u16
    fn op_00dc(&mut self) -> (r: Result<u8, Fault>)
        requires
            old(self).wf(),
        ensures
            final(self).wf(),
            (*old(self)).call(*final(self), r, Cond::C),
            r is Err ==> final(self).stopped == old(self).stopped,
    {
        self.exec_call(Cond::C)
    }

    /// SBC A,u8
    fn op_00de(&mut self) -> (r: Result<u8, Fault>)
        requires
            old(self).wf(),
        ensures
            final(self).wf(),
            (*old(self)).alu(*final(self), r, AluOp::Sbc, Src::Imm, 8),
            r is Ok ==> final(self).program_counter == old(self).program_counter,
            r is Err ==> final(self).stopped == old(self).stopped,
    {
        self.exec_alu(AluOp::Sbc, Src::Imm, 8)
    }

    /// RST 18h
    fn op_00df(&mut self) -> (r: Result<u8, Fault>)
        requires
            old(self).wf(),
        ensures
            final(self).wf(),
            (*old(self)).rst(*final(self), r, 0x0018),
            r is Err ==> final(self).stopped == old(self).stopped,
    {
        self.exec_rst(0x0018)
    }

    /// LD (FF00+u8),A
    fn op_00e0(&mut self) -> (r: Result<u8, Fault>)
        requires
            old(self).wf(),
        ensures
            final(self).wf(),
            (*old(self)).ld_a_to(*final(self), r, Addr::HighImm, 12),
            r is Ok ==> final(self).program_counter == old(self).program_counter,
            r is Err ==> final(self).stopped == old(self).stopped,
    {
        self.exec_ld_a_to(Addr::HighImm, 12)
    }

    /// POP HL
    fn op_00e1(&mut self) -> (r: Result<u8, Fault>)
        requires
            old(self).wf(),
        ensures
            final(self).wf(),
            (*old(self)).pop_op(*final(self), r, Reg16::HL),
            r is Ok ==> final(self).program_counter == old(self).program_counter,
            r is Err ==> final(self).stopped == old(self).stopped,
    {
        self.exec_pop(Reg16::HL)
    }

    /// LD (FF00+C),A
    fn op_00e2(&mut self) -> (r: Result<u8, Fault>)
        requires
            old(self).wf(),
        ensures
            final(self).wf(),
            (*old(self)).ld_a_to(*final(self), r, Addr::HighC, 8),
            r is Ok ==> final(self).program_counter == old(self).program_counter,
            r is Err ==> final(self).stopped == old(self).stopped,
    {
        self.exec_ld_a_to(Addr::HighC, 8)
    }

    /// PUSH HL
    fn op_00e5(&mut self) -> (r: Result<u8, Fault>)
        requires
            old(self).wf(),
        ensures
            final(self).wf(),
            (*old(self)).push_op(*final(self), r, Reg16::HL),
            r is Ok ==> final(self).program_counter == old(self).program_counter,
            r is Err ==> final(self).stopped == old(self).stopped,
    {
        self.exec_push(Reg16::HL)
    }

    /// AND A,u8
    fn op_00e6(&mut self) -> (r: Result<u8, Fault>)
        requires
            old(self).wf(),
        ensures
            final(self).wf(),
            (*old(self)).alu(*final(self), r, AluOp::And, Src::Imm, 8),
            r is Ok ==> final(self).program_counter == old(self).program_counter,
            r is Err ==> final(self).stopped == old(self).stopped,
    {
        self.exec_alu(AluOp::And, Src::Imm, 8)
    }

    /// RST 20h
    fn op_00e7(&mut self) -> (r: Result<u8, Fault>)
        requires
            old(self).wf(),
        ensures
            final(self).wf(),
            (*old(self)).rst(*final(self), r, 0x0020),
            r is Err ==> final(self).stopped == old(self).stopped,
    {
        self.exec_rst(0x0020)
    }

    /// ADD SP,i8
    fn op_00e8(&mut self) -> (r: Result<u8, Fault>)
        requires
            old(self).wf(),
        ensures
            final(self).wf(),
            (*old(self)).sp_offset(*final(self), r, false),
            r is Ok ==> final(self).program_counter == old(self).program_counter,
            r is Err ==> final(self).stopped == old(self).stopped,
    {
        self.exec_sp_offset(false)
    }

    /// JP HL
    fn op_00e9(&mut self) -> (r: Result<u8, Fault>)
        requires
            old(self).wf(),
        ensures
            final(self).wf(),
            r == Ok::<u8, Fault>(4) && *final(self) == (*old(self)).with_pc((*old(self)).hl()),
            r is Err ==> final(self).stopped == old(self).stopped,
    {
        self.program_counter = self.get_hl();
        Ok(4)
    }

    /// LD (u16),A
    fn op_00ea(&mut self) -> (r: Result<u8, Fault>)
        requires
            old(self).wf(),
        ensures
            final(self).wf(),
            (*old(self)).ld_a_to(*final(self), r, Addr::Abs, 16),
            r is Ok ==> final(self).program_counter == old(self).program_counter,
            r is Err ==> final(self).stopped == old(self).stopped,
    {
        self.exec_ld_a_to(Addr::Abs, 16)
    }

    /// XOR A,u8
    fn op_00ee(&mut self) -> (r: Result<u8, Fault>)
        requires
            old(self).wf(),
        ensures
            final(self).wf(),
            (*old(self)).alu(*final(self), r, AluOp::Xor, Src::Imm, 8),
            r is Ok ==> final(self).program_counter == old(self).program_counter,
            r is Err ==> final(self).stopped == old(self).stopped,
    {
        self.exec_alu(AluOp::Xor, Src::Imm, 8)
    }

    /// RST 28h
    fn op_00ef(&mut self) -> (r: Result<u8, Fault>)
        requires
            old(self).wf(),
        ensures
            final(self).wf(),
            (*old(self)).rst(*final(self), r, 0x0028),
            r is Err ==> final(self).stopped == old(self).stopped,
    {
        self.exec_rst(0x0028)
    }

    /// LD A,(FF00+u8)
    fn op_00f0(&mut self) -> (r: Result<u8, Fault>)
        requires
            old(self).wf(),
        ensures
            final(self).wf(),
            (*old(self)).ld_a_from(*final(self), r, Addr::HighImm, 12),
            r is Ok ==> final(self).program_counter == old(self).program_counter,
            r is Err ==> final(self).stopped == old(self).stopped,
    {
        self.exec_ld_a_from(Addr::HighImm, 12)
    }

    /// POP AF
    fn op_00f1(&mut self) -> (r: Result<u8, Fault>)
        requires
            old(self).wf(),
        ensures
            final(self).wf(),
            (*old(self)).pop_op(*final(self), r, Reg16::AF),
            r is Ok ==> final(self).program_counter == old(self).program_counter,
            r is Err ==> final(self).stopped == old(self).stopped,
    {
        self.exec_pop(Reg16::AF)
    }

    /// LD A,(FF00+C)
    fn op_00f2(&mut self) -> (r: Result<u8, Fault>)
        requires
            old(self).wf(),
        ensures
            final(self).wf(),
            (*old(self)).ld_a_from(*final(self), r, Addr::HighC, 8),
            r is Ok ==> final(self).program_counter == old(self).program_counter,
            r is Err ==> final(self).stopped == old(self).stopped,
    {
        self.exec_ld_a_from(Addr::HighC, 8)
    }

    /// DI
    fn op_00f3(&mut self) -> (r: Result<u8, Fault>)
        requires
            old(self).wf(),
        ensures
            final(self).wf(),
            r == Ok::<u8, Fault>(4) && *final(self) == (CPU { ime: false, ..(*old(self)) }),
            r is Ok ==> final(self).program_counter == old(self).program_counter,
            r is Err ==> final(self).stopped == old(self).stopped,
    {
        self.disable_interrupt();
        Ok(4)
    }

    /// PUSH AF
    fn op_00f5(&mut self) -> (r: Result<u8, Fault>)
        requires
            old(self).wf(),
        ensures
            final(self).wf(),
            (*old(self)).push_op(*final(self), r, Reg16::AF),
            r is Ok ==> final(self).program_counter == old(self).program_counter,
            r is Err ==> final(self).stopped == old(self).stopped,
    {
        self.exec_push(Reg16::AF)
    }

    /// OR A,u8
    fn op_00f6(&mut self) -> (r: Result<u8, Fault>)
        requires
            old(self).wf(),
        ensures
            final(self).wf(),
            (*old(self)).alu(*final(self), r, AluOp::Or, Src::Imm, 8),
            r is Ok ==> final(self).program_counter == old(self).program_counter,
            r is Err ==> final(self).stopped == old(self).stopped,
    {
        self.exec_alu(AluOp::Or, Src::Imm, 8)
    }

    /// RST 30h
    fn op_00f7(&mut self) -> (r: Result<u8, Fault>)
        requires
            old(self).wf(),
        ensures
            final(self).wf(),
            (*old(self)).rst(*final(self), r, 0x0030),
            r is Err ==> final(self).stopped == old(self).stopped,
    {
        self.exec_rst(0x0030)
    }

    /// LD HL,SP+i8
    fn op_00f8(&mut self) -> (r: Result<u8, Fault>)
        requires
            old(self).wf(),
        ensures
            final(self).wf(),
            (*old(self)).sp_offset(*final(self), r, true),
            r is Ok ==> final(self).program_counter == old(self).program_counter,
            r is Err ==> final(self).stopped == old(self).stopped,
    {
        self.exec_sp_offset(true)
    }

    /// LD SP,HL
    fn op_00f9(&mut self) -> (r: Result<u8, Fault>)
        requires
            old(self).wf(),
        ensures
            final(self).wf(),
            r == Ok::<u8, Fault>(8) && *final(self) == (*old(self)).with_reg16(Reg16::SP, (*old(self)).hl()),
            r is Ok ==> final(self).program_counter == old(self).program_counter,
            r is Err ==> final(self).stopped == old(self).stopped,
    {
        let hl = self.get_hl();
        self.set_sp(hl);
        Ok(8)
    }

    /// LD A,(u16)
    fn op_00fa(&mut self) -> (r: Result<u8, Fault>)
        requires
            old(self).wf(),
        ensures
            final(self).wf(),
            (*old(self)).ld_a_from(*final(self), r, Addr::Abs, 16),
            r is Ok ==> final(self).program_counter == old(self).program_counter,
            r is Err ==> final(self).stopped == old(self).stopped,
    {
        self.exec_ld_a_from(Addr::Abs, 16)
    }

    /// EI
    fn op_00fb(&mut self) -> (r: Result<u8, Fault>)
        requires
            old(self).wf(),
        ensures
            final(self).wf(),
            r == Ok::<u8, Fault>(4) && *final(self) == (CPU { ime: true, ..(*old(self)) }),
            r is Ok ==> final(self).program_counter == old(self).program_counter,
            r is Err ==> final(self).stopped == old(self).stopped,
    {
        self.enable_interrupt();
        Ok(4)
    }

    /// CP A,u8
    fn op_00fe(&mut self) -> (r: Result<u8, Fault>)
        requires
            old(self).wf(),
        ensures
            final(self).wf(),
            (*old(self)).alu(*final(self), r, AluOp::Cp, Src::Imm, 8),
            r is Ok ==> final(self).program_counter == old(self).program_counter,
            r is Err ==> final(self).stopped == old(self).stopped,
    {
        self.exec_alu(AluOp::Cp, Src::Imm, 8)
    }

    /// RST 38h
    fn op_00ff(&mut self) -> (r: Result<u8, Fault>)
        requires
            old(self).wf(),
        ensures
            final(self).wf(),
            (*old(self)).rst(*final(self), r, 0x0038),
            r is Err ==> final(self).stopped == old(self).stopped,
    {
        self.exec_rst(0x0038)
    }

    /// Runs the instruction `op` of the unprefixed page.
    pub fn decode_base(&mut self, op: u8) -> (r: Result<u8, Fault>)
        requires
            old(self).wf(),
        ensures
            final(self).wf(),
            executes_base(op, *old(self), *final(self), r),
            r is Ok && !is_control(op as u16) ==> final(self).program_counter == old(self).program_counter,
            r is Err ==> final(self).stopped == old(self).stopped,
    {
        proof {
            reveal(executes_base);
        }
        match op {
            0x00 => self.op_0000(),
            0x01 => self.op_0001(),
            0x02 => self.op_0002(),
            0x03 => self.op_0003(),
            0x04 => self.op_0004(),
            0x05 => self.op_0005(),
            0x06 => self.op_0006(),
            0x07 => self.op_0007(),
            0x08 => self.op_0008(),
            0x09 => self.op_0009(),
            0x0A => self.op_000a(),
            0x0B => self.op_000b(),
            0x0C => self.op_000c(),
            0x0D => self.op_000d(),
            0x0E => self.op_000e(),
            0x0F => self.op_000f(),
            0x10 => self.op_0010(),
            0x11 => self.op_0011(),
            0x12 => self.op_0012(),
            0x13 => self.op_0013(),
            0x14 => self.op_0014(),
            0x15 => self.op_0015(),
            0x16 => self.op_0016(),
            0x17 => self.op_0017(),
            0x18 => self.op_0018(),
            0x19 => self.op_0019(),
            0x1A => self.op_001a(),
            0x1B => self.op_001b(),
            0x1C => self.op_001c(),
            0x1D => self.op_001d(),
            0x1E => self.op_001e(),
            0x1F => self.op_001f(),
            0x20 => self.op_0020(),
            0x21 => self.op_0021(),
            0x22 => self.op_0022(),
            0x23 => self.op_0023(),
            0x24 => self.op_0024(),
            0x25 => self.op_0025(),
            0x26 => self.op_0026(),
            0x27 => self.op_0027(),
            0x28 => self.op_0028(),
            0x29 => self.op_0029(),
            0x2A => self.op_002a(),
            0x2B => self.op_002b(),
            0x2C => self.op_002c(),
            0x2D => self.op_002d(),
            0x2E => self.op_002e(),
            0x2F => self.op_002f(),
            0x30 => self.op_0030(),
            0x31 => self.op_0031(),
            0x32 => self.op_0032(),
            0x33 => self.op_0033(),
            0x34 => self.op_0034(),
            0x35 => self.op_0035(),
            0x36 => self.op_0036(),
            0x37 => self.op_0037(),
            0x38 => self.op_0038(),
            0x39 => self.op_0039(),
            0x3A => self.op_003a(),
            0x3B => self.op_003b(),
            0x3C => self.op_003c(),
            0x3D => self.op_003d(),
            0x3E => self.op_003e(),
            0x3F => self.op_003f(),
            0x40 => self.op_0040(),
            0x41 => self.op_0041(),
            0x42 => self.op_0042(),
            0x43 => self.op_0043(),
            0x44 => self.op_0044(),
            0x45 => self.op_0045(),
            0x46 => self.op_0046(),
            0x47 => self.op_0047(),
            0x48 => self.op_0048(),
            0x49 => self.op_0049(),
            0x4A => self.op_004a(),
            0x4B => self.op_004b(),
            0x4C => self.op_004c(),
            0x4D => self.op_004d(),
            0x4E => self.op_004e(),
            0x4F => self.op_004f(),
            0x50 => self.op_0050(),
            0x51 => self.op_0051(),
            0x52 => self.op_0052(),
            0x53 => self.op_0053(),
            0x54 => self.op_0054(),
            0x55 => self.op_0055(),
            0x56 => self.op_0056(),
            0x57 => self.op_0057(),
            0x58 => self.op_0058(),
            0x59 => self.op_0059(),
            0x5A => self.op_005a(),
            0x5B => self.op_005b(),
            0x5C => self.op_005c(),
            0x5D => self.op_005d(),
            0x5E => self.op_005e(),
            0x5F => self.op_005f(),
            0x60 => self.op_0060(),
            0x61 => self.op_0061(),
            0x62 => self.op_0062(),
            0x63 => self.op_0063(),
            0x64 => self.op_0064(),
            0x65 => self.op_0065(),
            0x66 => self.op_0066(),
            0x67 => self.op_0067(),
            0x68 => self.op_0068(),
            0x69 => self.op_0069(),
            0x6A => self.op_006a(),
            0x6B => self.op_006b(),
            0x6C => self.op_006c(),
            0x6D => self.op_006d(),
            0x6E => self.op_006e(),
            0x6F => self.op_006f(),
            0x70 => self.op_0070(),
            0x71 => self.op_0071(),
            0x72 => self.op_0072(),
            0x73 => self.op_0073(),
            0x74 => self.op_0074(),
            0x75 => self.op_0075(),
            0x76 => self.op_0076(),
            0x77 => self.op_0077(),
            0x78 => self.op_0078(),
            0x79 => self.op_0079(),
            0x7A => self.op_007a(),
            0x7B => self.op_007b(),
            0x7C => self.op_007c(),
            0x7D => self.op_007d(),
            0x7E => self.op_007e(),
            0x7F => self.op_007f(),
            0x80 => self.op_0080(),
            0x81 => self.op_0081(),
            0x82 => self.op_0082(),
            0x83 => self.op_0083(),
            0x84 => self.op_0084(),
            0x85 => self.op_0085(),
            0x86 => self.op_0086(),
            0x87 => self.op_0087(),
            0x88 => self.op_0088(),
            0x89 => self.op_0089(),
            0x8A => self.op_008a(),
            0x8B => self.op_008b(),
            0x8C => self.op_008c(),
            0x8D => self.op_008d(),
            0x8E => self.op_008e(),
            0x8F => self.op_008f(),
            0x90 => self.op_0090(),
            0x91 => self.op_0091(),
            0x92 => self.op_0092(),
            0x93 => self.op_0093(),
            0x94 => self.op_0094(),
            0x95 => self.op_0095(),
            0x96 => self.op_0096(),
            0x97 => self.op_0097(),
            0x98 => self.op_0098(),
            0x99 => self.op_0099(),
            0x9A => self.op_009a(),
            0x9B => self.op_009b(),
            0x9C => self.op_009c(),
            0x9D => self.op_009d(),
            0x9E => self.op_009e(),
            0x9F => self.op_009f(),
            0xA0 => self.op_00a0(),
            0xA1 => self.op_00a1(),
            0xA2 => self.op_00a2(),
            0xA3 => self.op_00a3(),
            0xA4 => self.op_00a4(),
            0xA5 => self.op_00a5(),
            0xA6 => self.op_00a6(),
            0xA7 => self.op_00a7(),
            0xA8 => self.op_00a8(),
            0xA9 => self.op_00a9(),
            0xAA => self.op_00aa(),
            0xAB => self.op_00ab(),
            0xAC => self.op_00ac(),
            0xAD => self.op_00ad(),
            0xAE => self.op_00ae(),
            0xAF => self.op_00af(),
            0xB0 => self.op_00b0(),
            0xB1 => self.op_00b1(),
            0xB2 => self.op_00b2(),
            0xB3 => self.op_00b3(),
            0xB4 => self.op_00b4(),
            0xB5 => self.op_00b5(),
            0xB6 => self.op_00b6(),
            0xB7 => self.op_00b7(),
            0xB8 => self.op_00b8(),
            0xB9 => self.op_00b9(),
            0xBA => self.op_00ba(),
            0xBB => self.op_00bb(),
            0xBC => self.op_00bc(),
            0xBD => self.op_00bd(),
            0xBE => self.op_00be(),
            0xBF => self.op_00bf(),
            0xC0 => self.op_00c0(),
            0xC1 => self.op_00c1(),
            0xC2 => self.op_00c2(),
            0xC3 => self.op_00c3(),
            0xC4 => self.op_00c4(),
            0xC5 => self.op_00c5(),
            0xC6 => self.op_00c6(),
            0xC7 => self.op_00c7(),
            0xC8 => self.op_00c8(),
            0xC9 => self.op_00c9(),
            0xCA => self.op_00ca(),
            0xCB => self.op_00cb(),
            0xCC => self.op_00cc(),
            0xCD => self.op_00cd(),
            0xCE => self.op_00ce(),
            0xCF => self.op_00cf(),
            0xD0 => self.op_00d0(),
            0xD1 => self.op_00d1(),
            0xD2 => self.op_00d2(),
            0xD4 => self.op_00d4(),
            0xD5 => self.op_00d5(),
            0xD6 => self.op_00d6(),
            0xD7 => self.op_00d7(),
            0xD8 => self.op_00d8(),
            0xD9 => self.op_00d9(),
            0xDA => self.op_00da(),
            0xDC => self.op_00dc(),
            0xDE => self.op_00de(),
            0xDF => self.op_00df(),
            0xE0 => self.op_00e0(),
            0xE1 => self.op_00e1(),
            0xE2 => self.op_00e2(),
            0xE5 => self.op_00e5(),
            0xE6 => self.op_00e6(),
            0xE7 => self.op_00e7(),
            0xE8 => self.op_00e8(),
            0xE9 => self.op_00e9(),
            0xEA => self.op_00ea(),
            0xEE => self.op_00ee(),
            0xEF => self.op_00ef(),
            0xF0 => self.op_00f0(),
            0xF1 => self.op_00f1(),
            0xF2 => self.op_00f2(),
            0xF3 => self.op_00f3(),
            0xF5 => self.op_00f5(),
            0xF6 => self.op_00f6(),
            0xF7 => self.op_00f7(),
            0xF8 => self.op_00f8(),
            0xF9 => self.op_00f9(),
            0xFA => self.op_00fa(),
            0xFB => self.op_00fb(),
            0xFE => self.op_00fe(),
            0xFF => self.op_00ff(),
            _ => Err(Fault::IllegalOpcode(op as u16)),
        }
    }

}

} // verus!
