//! The opcode table, and the fetch-decode-execute engine built on it.
use crate::cpu::{wrap16, Fault, CPU};
use crate::extended::executes_extended;
use crate::instructions::executes_base;
use crate::cartridge::mbc0::MBC0;
use crate::cartridge::MBC;
use crate::mmu::MMU;
use vstd::prelude::*;

verus! {

/// The byte that selects the extended opcode page.
pub const PREFIX: u8 = 0xCB;

/// Steps that `load_and_run` allows a program before giving up.
pub const STEP_BUDGET: u64 = 1_000_000;

/// One legal instruction: its code (`0xCBxx` on the extended page), its
/// mnemonic, and its length in bytes.
pub struct Opcode {
    pub code: u16,
    pub mnemonic: &'static str,
    pub bytes: u8,
}

impl Opcode {
    pub fn new(code: u16, mnemonic: &'static str, bytes: u8) -> (r: Self)
        ensures
            r.code == code,
            r.mnemonic == mnemonic,
            r.bytes == bytes,
    {
        Opcode { code, mnemonic, bytes }
    }
}

/// Length in bytes of the unprefixed instruction `op`; 0 where `op` names none.
#[verifier::opaque]
pub open spec fn base_len(op: u8) -> u8 {
    match op {
        0x00u8 => 1,
        0x01u8 => 3,
        0x02u8 => 1,
        0x03u8 => 1,
        0x04u8 => 1,
        0x05u8 => 1,
        0x06u8 => 2,
        0x07u8 => 1,
        0x08u8 => 3,
        0x09u8 => 1,
        0x0Au8 => 1,
        0x0Bu8 => 1,
        0x0Cu8 => 1,
        0x0Du8 => 1,
        0x0Eu8 => 2,
        0x0Fu8 => 1,
        0x10u8 => 1,
        0x11u8 => 3,
        0x12u8 => 1,
        0x13u8 => 1,
        0x14u8 => 1,
        0x15u8 => 1,
        0x16u8 => 2,
        0x17u8 => 1,
        0x18u8 => 2,
        0x19u8 => 1,
        0x1Au8 => 1,
        0x1Bu8 => 1,
        0x1Cu8 => 1,
        0x1Du8 => 1,
        0x1Eu8 => 2,
        0x1Fu8 => 1,
        0x20u8 => 2,
        0x21u8 => 3,
        0x22u8 => 1,
        0x23u8 => 1,
        0x24u8 => 1,
        0x25u8 => 1,
        0x26u8 => 2,
        0x27u8 => 1,
        0x28u8 => 2,
        0x29u8 => 1,
        0x2Au8 => 1,
        0x2Bu8 => 1,
        0x2Cu8 => 1,
        0x2Du8 => 1,
        0x2Eu8 => 2,
        0x2Fu8 => 1,
        0x30u8 => 2,
        0x31u8 => 3,
        0x32u8 => 1,
        0x33u8 => 1,
        0x34u8 => 1,
        0x35u8 => 1,
        0x36u8 => 2,
        0x37u8 => 1,
        0x38u8 => 2,
        0x39u8 => 1,
        0x3Au8 => 1,
        0x3Bu8 => 1,
        0x3Cu8 => 1,
        0x3Du8 => 1,
        0x3Eu8 => 2,
        0x3Fu8 => 1,
        0x40u8 => 1,
        0x41u8 => 1,
        0x42u8 => 1,
        0x43u8 => 1,
        0x44u8 => 1,
        0x45u8 => 1,
        0x46u8 => 1,
        0x47u8 => 1,
        0x48u8 => 1,
        0x49u8 => 1,
        0x4Au8 => 1,
        0x4Bu8 => 1,
        0x4Cu8 => 1,
        0x4Du8 => 1,
        0x4Eu8 => 1,
        0x4Fu8 => 1,
        0x50u8 => 1,
        0x51u8 => 1,
        0x52u8 => 1,
        0x53u8 => 1,
        0x54u8 => 1,
        0x55u8 => 1,
        0x56u8 => 1,
        0x57u8 => 1,
        0x58u8 => 1,
        0x59u8 => 1,
        0x5Au8 => 1,
        0x5Bu8 => 1,
        0x5Cu8 => 1,
        0x5Du8 => 1,
        0x5Eu8 => 1,
        0x5Fu8 => 1,
        0x60u8 => 1,
        0x61u8 => 1,
        0x62u8 => 1,
        0x63u8 => 1,
        0x64u8 => 1,
        0x65u8 => 1,
        0x66u8 => 1,
        0x67u8 => 1,
        0x68u8 => 1,
        0x69u8 => 1,
        0x6Au8 => 1,
        0x6Bu8 => 1,
        0x6Cu8 => 1,
        0x6Du8 => 1,
        0x6Eu8 => 1,
        0x6Fu8 => 1,
        0x70u8 => 1,
        0x71u8 => 1,
        0x72u8 => 1,
        0x73u8 => 1,
        0x74u8 => 1,
        0x75u8 => 1,
        0x76u8 => 1,
        0x77u8 => 1,
        0x78u8 => 1,
        0x79u8 => 1,
        0x7Au8 => 1,
        0x7Bu8 => 1,
        0x7Cu8 => 1,
        0x7Du8 => 1,
        0x7Eu8 => 1,
        0x7Fu8 => 1,
        0x80u8 => 1,
        0x81u8 => 1,
        0x82u8 => 1,
        0x83u8 => 1,
        0x84u8 => 1,
        0x85u8 => 1,
        0x86u8 => 1,
        0x87u8 => 1,
        0x88u8 => 1,
        0x89u8 => 1,
        0x8Au8 => 1,
        0x8Bu8 => 1,
        0x8Cu8 => 1,
        0x8Du8 => 1,
        0x8Eu8 => 1,
        0x8Fu8 => 1,
        0x90u8 => 1,
        0x91u8 => 1,
        0x92u8 => 1,
        0x93u8 => 1,
        0x94u8 => 1,
        0x95u8 => 1,
        0x96u8 => 1,
        0x97u8 => 1,
        0x98u8 => 1,
        0x99u8 => 1,
        0x9Au8 => 1,
        0x9Bu8 => 1,
        0x9Cu8 => 1,
        0x9Du8 => 1,
        0x9Eu8 => 1,
        0x9Fu8 => 1,
        0xA0u8 => 1,
        0xA1u8 => 1,
        0xA2u8 => 1,
        0xA3u8 => 1,
        0xA4u8 => 1,
        0xA5u8 => 1,
        0xA6u8 => 1,
        0xA7u8 => 1,
        0xA8u8 => 1,
        0xA9u8 => 1,
        0xAAu8 => 1,
        0xABu8 => 1,
        0xACu8 => 1,
        0xADu8 => 1,
        0xAEu8 => 1,
        0xAFu8 => 1,
        0xB0u8 => 1,
        0xB1u8 => 1,
        0xB2u8 => 1,
        0xB3u8 => 1,
        0xB4u8 => 1,
        0xB5u8 => 1,
        0xB6u8 => 1,
        0xB7u8 => 1,
        0xB8u8 => 1,
        0xB9u8 => 1,
        0xBAu8 => 1,
        0xBBu8 => 1,
        0xBCu8 => 1,
        0xBDu8 => 1,
        0xBEu8 => 1,
        0xBFu8 => 1,
        0xC0u8 => 1,
        0xC1u8 => 1,
        0xC2u8 => 3,
        0xC3u8 => 3,
        0xC4u8 => 3,
        0xC5u8 => 1,
        0xC6u8 => 2,
        0xC7u8 => 1,
        0xC8u8 => 1,
        0xC9u8 => 1,
        0xCAu8 => 3,
        0xCBu8 => 1,
        0xCCu8 => 3,
        0xCDu8 => 3,
        0xCEu8 => 2,
        0xCFu8 => 1,
        0xD0u8 => 1,
        0xD1u8 => 1,
        0xD2u8 => 3,
        0xD4u8 => 3,
        0xD5u8 => 1,
        0xD6u8 => 2,
        0xD7u8 => 1,
        0xD8u8 => 1,
        0xD9u8 => 1,
        0xDAu8 => 3,
        0xDCu8 => 3,
        0xDEu8 => 2,
        0xDFu8 => 1,
        0xE0u8 => 2,
        0xE1u8 => 1,
        0xE2u8 => 1,
        0xE5u8 => 1,
        0xE6u8 => 2,
        0xE7u8 => 1,
        0xE8u8 => 2,
        0xE9u8 => 1,
        0xEAu8 => 3,
        0xEEu8 => 2,
        0xEFu8 => 1,
        0xF0u8 => 2,
        0xF1u8 => 1,
        0xF2u8 => 1,
        0xF3u8 => 1,
        0xF5u8 => 1,
        0xF6u8 => 2,
        0xF7u8 => 1,
        0xF8u8 => 2,
        0xF9u8 => 1,
        0xFAu8 => 3,
        0xFBu8 => 1,
        0xFEu8 => 2,
        0xFFu8 => 1,
        _ => 0,
    }
}

/// Length in bytes of the instruction `code`; 0 where `code` names none.
pub open spec fn instr_len(code: u16) -> u8 {
    if 0xCB00 <= code <= 0xCBFF {
        2
    } else if code <= 0xFF {
        base_len(code as u8)
    } else {
        0
    }
}

/// The instructions that set the program counter themselves: jumps, calls,
/// returns and restarts.
pub open spec fn is_control(code: u16) -> bool {
    code == 0x18 || code == 0x20 || code == 0x28 || code == 0x30 || code == 0x38 || code == 0xC0 || code == 0xC2 || code == 0xC3 || code == 0xC4 || code == 0xC7 || code == 0xC8 || code == 0xC9 || code == 0xCA || code == 0xCC || code == 0xCD || code == 0xCF || code == 0xD0 || code == 0xD2 || code == 0xD4 || code == 0xD7 || code == 0xD8 || code == 0xD9 || code == 0xDA || code == 0xDC || code == 0xDF || code == 0xE7 || code == 0xE9 || code == 0xEF || code == 0xF7 || code == 0xFF
}

/// What the instruction `code` does (see the two pages' relations).
pub open spec fn executes(code: u16, pre: CPU, post: CPU, r: Result<u8, Fault>) -> bool {
    if 0xCB00 <= code <= 0xCBFF {
        executes_extended((code - 0xCB00) as u8, pre, post, r)
    } else if code <= 0xFF {
        executes_base(code as u8, pre, post, r)
    } else {
        r == Err::<u8, Fault>(Fault::IllegalOpcode(code)) && post == pre
    }
}

/// The descriptor of `code`, or none where `code` names no instruction.
pub fn lookup(code: u16) -> (r: Option<Opcode>)
    ensures
        r is Some <==> instr_len(code) > 0,
        r is Some ==> r.unwrap().code == code && r.unwrap().bytes == instr_len(code),
{
    reveal(base_len);
    match code {
        0x0000 => Some(Opcode::new(0x0000, "NOP", 1)),
        0x0001 => Some(Opcode::new(0x0001, "LD BC,u16", 3)),
        0x0002 => Some(Opcode::new(0x0002, "LD (BC),A", 1)),
        0x0003 => Some(Opcode::new(0x0003, "INC BC", 1)),
        0x0004 => Some(Opcode::new(0x0004, "INC B", 1)),
        0x0005 => Some(Opcode::new(0x0005, "DEC B", 1)),
        0x0006 => Some(Opcode::new(0x0006, "LD B,u8", 2)),
        0x0007 => Some(Opcode::new(0x0007, "RLCA", 1)),
        0x0008 => Some(Opcode::new(0x0008, "LD (u16),SP", 3)),
        0x0009 => Some(Opcode::new(0x0009, "ADD HL,BC", 1)),
        0x000A => Some(Opcode::new(0x000A, "LD A,(BC)", 1)),
        0x000B => Some(Opcode::new(0x000B, "DEC BC", 1)),
        0x000C => Some(Opcode::new(0x000C, "INC C", 1)),
        0x000D => Some(Opcode::new(0x000D, "DEC C", 1)),
        0x000E => Some(Opcode::new(0x000E, "LD C,u8", 2)),
        0x000F => Some(Opcode::new(0x000F, "RRCA", 1)),
        0x0010 => Some(Opcode::new(0x0010, "STOP", 1)),
        0x0011 => Some(Opcode::new(0x0011, "LD DE,u16", 3)),
        0x0012 => Some(Opcode::new(0x0012, "LD (DE),A", 1)),
        0x0013 => Some(Opcode::new(0x0013, "INC DE", 1)),
        0x0014 => Some(Opcode::new(0x0014, "INC D", 1)),
        0x0015 => Some(Opcode::new(0x0015, "DEC D", 1)),
        0x0016 => Some(Opcode::new(0x0016, "LD D,u8", 2)),
        0x0017 => Some(Opcode::new(0x0017, "RLA", 1)),
        0x0018 => Some(Opcode::new(0x0018, "JR i8", 2)),
        0x0019 => Some(Opcode::new(0x0019, "ADD HL,DE", 1)),
        0x001A => Some(Opcode::new(0x001A, "LD A,(DE)", 1)),
        0x001B => Some(Opcode::new(0x001B, "DEC DE", 1)),
        0x001C => Some(Opcode::new(0x001C, "INC E", 1)),
        0x001D => Some(Opcode::new(0x001D, "DEC E", 1)),
        0x001E => Some(Opcode::new(0x001E, "LD E,u8", 2)),
        0x001F => Some(Opcode::new(0x001F, "RRA", 1)),
        0x0020 => Some(Opcode::new(0x0020, "JR NZ,i8", 2)),
        0x0021 => Some(Opcode::new(0x0021, "LD HL,u16", 3)),
        0x0022 => Some(Opcode::new(0x0022, "LD (HL+),A", 1)),
        0x0023 => Some(Opcode::new(0x0023, "INC HL", 1)),
        0x0024 => Some(Opcode::new(0x0024, "INC H", 1)),
        0x0025 => Some(Opcode::new(0x0025, "DEC H", 1)),
        0x0026 => Some(Opcode::new(0x0026, "LD H,u8", 2)),
        0x0027 => Some(Opcode::new(0x0027, "DAA", 1)),
        0x0028 => Some(Opcode::new(0x0028, "JR Z,i8", 2)),
        0x0029 => Some(Opcode::new(0x0029, "ADD HL,HL", 1)),
        0x002A => Some(Opcode::new(0x002A, "LD A,(HL+)", 1)),
        0x002B => Some(Opcode::new(0x002B, "DEC HL", 1)),
        0x002C => Some(Opcode::new(0x002C, "INC L", 1)),
        0x002D => Some(Opcode::new(0x002D, "DEC L", 1)),
        0x002E => Some(Opcode::new(0x002E, "LD L,u8", 2)),
        0x002F => Some(Opcode::new(0x002F, "CPL", 1)),
        0x0030 => Some(Opcode::new(0x0030, "JR NC,i8", 2)),
        0x0031 => Some(Opcode::new(0x0031, "LD SP,u16", 3)),
        0x0032 => Some(Opcode::new(0x0032, "LD (HL-),A", 1)),
        0x0033 => Some(Opcode::new(0x0033, "INC SP", 1)),
        0x0034 => Some(Opcode::new(0x0034, "INC (HL)", 1)),
        0x0035 => Some(Opcode::new(0x0035, "DEC (HL)", 1)),
        0x0036 => Some(Opcode::new(0x0036, "LD (HL),u8", 2)),
        0x0037 => Some(Opcode::new(0x0037, "SCF", 1)),
        0x0038 => Some(Opcode::new(0x0038, "JR C,i8", 2)),
        0x0039 => Some(Opcode::new(0x0039, "ADD HL,SP", 1)),
        0x003A => Some(Opcode::new(0x003A, "LD A,(HL-)", 1)),
        0x003B => Some(Opcode::new(0x003B, "DEC SP", 1)),
        0x003C => Some(Opcode::new(0x003C, "INC A", 1)),
        0x003D => Some(Opcode::new(0x003D, "DEC A", 1)),
        0x003E => Some(Opcode::new(0x003E, "LD A,u8", 2)),
        0x003F => Some(Opcode::new(0x003F, "CCF", 1)),
        0x0040 => Some(Opcode::new(0x0040, "LD B,B", 1)),
        0x0041 => Some(Opcode::new(0x0041, "LD B,C", 1)),
        0x0042 => Some(Opcode::new(0x0042, "LD B,D", 1)),
        0x0043 => Some(Opcode::new(0x0043, "LD B,E", 1)),
        0x0044 => Some(Opcode::new(0x0044, "LD B,H", 1)),
        0x0045 => Some(Opcode::new(0x0045, "LD B,L", 1)),
        0x0046 => Some(Opcode::new(0x0046, "LD B,(HL)", 1)),
        0x0047 => Some(Opcode::new(0x0047, "LD B,A", 1)),
        0x0048 => Some(Opcode::new(0x0048, "LD C,B", 1)),
        0x0049 => Some(Opcode::new(0x0049, "LD C,C", 1)),
        0x004A => Some(Opcode::new(0x004A, "LD C,D", 1)),
        0x004B => Some(Opcode::new(0x004B, "LD C,E", 1)),
        0x004C => Some(Opcode::new(0x004C, "LD C,H", 1)),
        0x004D => Some(Opcode::new(0x004D, "LD C,L", 1)),
        0x004E => Some(Opcode::new(0x004E, "LD C,(HL)", 1)),
        0x004F => Some(Opcode::new(0x004F, "LD C,A", 1)),
        0x0050 => Some(Opcode::new(0x0050, "LD D,B", 1)),
        0x0051 => Some(Opcode::new(0x0051, "LD D,C", 1)),
        0x0052 => Some(Opcode::new(0x0052, "LD D,D", 1)),
        0x0053 => Some(Opcode::new(0x0053, "LD D,E", 1)),
        0x0054 => Some(Opcode::new(0x0054, "LD D,H", 1)),
        0x0055 => Some(Opcode::new(0x0055, "LD D,L", 1)),
        0x0056 => Some(Opcode::new(0x0056, "LD D,(HL)", 1)),
        0x0057 => Some(Opcode::new(0x0057, "LD D,A", 1)),
        0x0058 => Some(Opcode::new(0x0058, "LD E,B", 1)),
        0x0059 => Some(Opcode::new(0x0059, "LD E,C", 1)),
        0x005A => Some(Opcode::new(0x005A, "LD E,D", 1)),
        0x005B => Some(Opcode::new(0x005B, "LD E,E", 1)),
        0x005C => Some(Opcode::new(0x005C, "LD E,H", 1)),
        0x005D => Some(Opcode::new(0x005D, "LD E,L", 1)),
        0x005E => Some(Opcode::new(0x005E, "LD E,(HL)", 1)),
        0x005F => Some(Opcode::new(0x005F, "LD E,A", 1)),
        0x0060 => Some(Opcode::new(0x0060, "LD H,B", 1)),
        0x0061 => Some(Opcode::new(0x0061, "LD H,C", 1)),
        0x0062 => Some(Opcode::new(0x0062, "LD H,D", 1)),
        0x0063 => Some(Opcode::new(0x0063, "LD H,E", 1)),
        0x0064 => Some(Opcode::new(0x0064, "LD H,H", 1)),
        0x0065 => Some(Opcode::new(0x0065, "LD H,L", 1)),
        0x0066 => Some(Opcode::new(0x0066, "LD H,(HL)", 1)),
        0x0067 => Some(Opcode::new(0x0067, "LD H,A", 1)),
        0x0068 => Some(Opcode::new(0x0068, "LD L,B", 1)),
        0x0069 => Some(Opcode::new(0x0069, "LD L,C", 1)),
        0x006A => Some(Opcode::new(0x006A, "LD L,D", 1)),
        0x006B => Some(Opcode::new(0x006B, "LD L,E", 1)),
        0x006C => Some(Opcode::new(0x006C, "LD L,H", 1)),
        0x006D => Some(Opcode::new(0x006D, "LD L,L", 1)),
        0x006E => Some(Opcode::new(0x006E, "LD L,(HL)", 1)),
        0x006F => Some(Opcode::new(0x006F, "LD L,A", 1)),
        0x0070 => Some(Opcode::new(0x0070, "LD (HL),B", 1)),
        0x0071 => Some(Opcode::new(0x0071, "LD (HL),C", 1)),
        0x0072 => Some(Opcode::new(0x0072, "LD (HL),D", 1)),
        0x0073 => Some(Opcode::new(0x0073, "LD (HL),E", 1)),
        0x0074 => Some(Opcode::new(0x0074, "LD (HL),H", 1)),
        0x0075 => Some(Opcode::new(0x0075, "LD (HL),L", 1)),
        0x0076 => Some(Opcode::new(0x0076, "HALT", 1)),
        0x0077 => Some(Opcode::new(0x0077, "LD (HL),A", 1)),
        0x0078 => Some(Opcode::new(0x0078, "LD A,B", 1)),
        0x0079 => Some(Opcode::new(0x0079, "LD A,C", 1)),
        0x007A => Some(Opcode::new(0x007A, "LD A,D", 1)),
        0x007B => Some(Opcode::new(0x007B, "LD A,E", 1)),
        0x007C => Some(Opcode::new(0x007C, "LD A,H", 1)),
        0x007D => Some(Opcode::new(0x007D, "LD A,L", 1)),
        0x007E => Some(Opcode::new(0x007E, "LD A,(HL)", 1)),
        0x007F => Some(Opcode::new(0x007F, "LD A,A", 1)),
        0x0080 => Some(Opcode::new(0x0080, "ADD A,B", 1)),
        0x0081 => Some(Opcode::new(0x0081, "ADD A,C", 1)),
        0x0082 => Some(Opcode::new(0x0082, "ADD A,D", 1)),
        0x0083 => Some(Opcode::new(0x0083, "ADD A,E", 1)),
        0x0084 => Some(Opcode::new(0x0084, "ADD A,H", 1)),
        0x0085 => Some(Opcode::new(0x0085, "ADD A,L", 1)),
        0x0086 => Some(Opcode::new(0x0086, "ADD A,(HL)", 1)),
        0x0087 => Some(Opcode::new(0x0087, "ADD A,A", 1)),
        0x0088 => Some(Opcode::new(0x0088, "ADC A,B", 1)),
        0x0089 => Some(Opcode::new(0x0089, "ADC A,C", 1)),
        0x008A => Some(Opcode::new(0x008A, "ADC A,D", 1)),
        0x008B => Some(Opcode::new(0x008B, "ADC A,E", 1)),
        0x008C => Some(Opcode::new(0x008C, "ADC A,H", 1)),
        0x008D => Some(Opcode::new(0x008D, "ADC A,L", 1)),
        0x008E => Some(Opcode::new(0x008E, "ADC A,(HL)", 1)),
        0x008F => Some(Opcode::new(0x008F, "ADC A,A", 1)),
        0x0090 => Some(Opcode::new(0x0090, "SUB A,B", 1)),
        0x0091 => Some(Opcode::new(0x0091, "SUB A,C", 1)),
        0x0092 => Some(Opcode::new(0x0092, "SUB A,D", 1)),
        0x0093 => Some(Opcode::new(0x0093, "SUB A,E", 1)),
        0x0094 => Some(Opcode::new(0x0094, "SUB A,H", 1)),
        0x0095 => Some(Opcode::new(0x0095, "SUB A,L", 1)),
        0x0096 => Some(Opcode::new(0x0096, "SUB A,(HL)", 1)),
        0x0097 => Some(Opcode::new(0x0097, "SUB A,A", 1)),
        0x0098 => Some(Opcode::new(0x0098, "SBC A,B", 1)),
        0x0099 => Some(Opcode::new(0x0099, "SBC A,C", 1)),
        0x009A => Some(Opcode::new(0x009A, "SBC A,D", 1)),
        0x009B => Some(Opcode::new(0x009B, "SBC A,E", 1)),
        0x009C => Some(Opcode::new(0x009C, "SBC A,H", 1)),
        0x009D => Some(Opcode::new(0x009D, "SBC A,L", 1)),
        0x009E => Some(Opcode::new(0x009E, "SBC A,(HL)", 1)),
        0x009F => Some(Opcode::new(0x009F, "SBC A,A", 1)),
        0x00A0 => Some(Opcode::new(0x00A0, "AND A,B", 1)),
        0x00A1 => Some(Opcode::new(0x00A1, "AND A,C", 1)),
        0x00A2 => Some(Opcode::new(0x00A2, "AND A,D", 1)),
        0x00A3 => Some(Opcode::new(0x00A3, "AND A,E", 1)),
        0x00A4 => Some(Opcode::new(0x00A4, "AND A,H", 1)),
        0x00A5 => Some(Opcode::new(0x00A5, "AND A,L", 1)),
        0x00A6 => Some(Opcode::new(0x00A6, "AND A,(HL)", 1)),
        0x00A7 => Some(Opcode::new(0x00A7, "AND A,A", 1)),
        0x00A8 => Some(Opcode::new(0x00A8, "XOR A,B", 1)),
        0x00A9 => Some(Opcode::new(0x00A9, "XOR A,C", 1)),
        0x00AA => Some(Opcode::new(0x00AA, "XOR A,D", 1)),
        0x00AB => Some(Opcode::new(0x00AB, "XOR A,E", 1)),
        0x00AC => Some(Opcode::new(0x00AC, "XOR A,H", 1)),
        0x00AD => Some(Opcode::new(0x00AD, "XOR A,L", 1)),
        0x00AE => Some(Opcode::new(0x00AE, "XOR A,(HL)", 1)),
        0x00AF => Some(Opcode::new(0x00AF, "XOR A,A", 1)),
        0x00B0 => Some(Opcode::new(0x00B0, "OR A,B", 1)),
        0x00B1 => Some(Opcode::new(0x00B1, "OR A,C", 1)),
        0x00B2 => Some(Opcode::new(0x00B2, "OR A,D", 1)),
        0x00B3 => Some(Opcode::new(0x00B3, "OR A,E", 1)),
        0x00B4 => Some(Opcode::new(0x00B4, "OR A,H", 1)),
        0x00B5 => Some(Opcode::new(0x00B5, "OR A,L", 1)),
        0x00B6 => Some(Opcode::new(0x00B6, "OR A,(HL)", 1)),
        0x00B7 => Some(Opcode::new(0x00B7, "OR A,A", 1)),
        0x00B8 => Some(Opcode::new(0x00B8, "CP A,B", 1)),
        0x00B9 => Some(Opcode::new(0x00B9, "CP A,C", 1)),
        0x00BA => Some(Opcode::new(0x00BA, "CP A,D", 1)),
        0x00BB => Some(Opcode::new(0x00BB, "CP A,E", 1)),
        0x00BC => Some(Opcode::new(0x00BC, "CP A,H", 1)),
        0x00BD => Some(Opcode::new(0x00BD, "CP A,L", 1)),
        0x00BE => Some(Opcode::new(0x00BE, "CP A,(HL)", 1)),
        0x00BF => Some(Opcode::new(0x00BF, "CP A,A", 1)),
        0x00C0 => Some(Opcode::new(0x00C0, "RET NZ", 1)),
        0x00C1 => Some(Opcode::new(0x00C1, "POP BC", 1)),
        0x00C2 => Some(Opcode::new(0x00C2, "JP NZ,u16", 3)),
        0x00C3 => Some(Opcode::new(0x00C3, "JP u16", 3)),
        0x00C4 => Some(Opcode::new(0x00C4, "CALL NZ,u16", 3)),
        0x00C5 => Some(Opcode::new(0x00C5, "PUSH BC", 1)),
        0x00C6 => Some(Opcode::new(0x00C6, "ADD A,u8", 2)),
        0x00C7 => Some(Opcode::new(0x00C7, "RST 00h", 1)),
        0x00C8 => Some(Opcode::new(0x00C8, "RET Z", 1)),
        0x00C9 => Some(Opcode::new(0x00C9, "RET", 1)),
        0x00CA => Some(Opcode::new(0x00CA, "JP Z,u16", 3)),
        0x00CB => Some(Opcode::new(0x00CB, "PREFIX CB", 1)),
        0x00CC => Some(Opcode::new(0x00CC, "CALL Z,u16", 3)),
        0x00CD => Some(Opcode::new(0x00CD, "CALL u16", 3)),
        0x00CE => Some(Opcode::new(0x00CE, "ADC A,u8", 2)),
        0x00CF => Some(Opcode::new(0x00CF, "RST 08h", 1)),
        0x00D0 => Some(Opcode::new(0x00D0, "RET NC", 1)),
        0x00D1 => Some(Opcode::new(0x00D1, "POP DE", 1)),
        0x00D2 => Some(Opcode::new(0x00D2, "JP NC,u16", 3)),
        0x00D4 => Some(Opcode::new(0x00D4, "CALL NC,u16", 3)),
        0x00D5 => Some(Opcode::new(0x00D5, "PUSH DE", 1)),
        0x00D6 => Some(Opcode::new(0x00D6, "SUB A,u8", 2)),
        0x00D7 => Some(Opcode::new(0x00D7, "RST 10h", 1)),
        0x00D8 => Some(Opcode::new(0x00D8, "RET C", 1)),
        0x00D9 => Some(Opcode::new(0x00D9, "RETI", 1)),
        0x00DA => Some(Opcode::new(0x00DA, "JP C,u16", 3)),
        0x00DC => Some(Opcode::new(0x00DC, "CALL C,u16", 3)),
        0x00DE => Some(Opcode::new(0x00DE, "SBC A,u8", 2)),
        0x00DF => Some(Opcode::new(0x00DF, "RST 18h", 1)),
        0x00E0 => Some(Opcode::new(0x00E0, "LD (FF00+u8),A", 2)),
        0x00E1 => Some(Opcode::new(0x00E1, "POP HL", 1)),
        0x00E2 => Some(Opcode::new(0x00E2, "LD (FF00+C),A", 1)),
        0x00E5 => Some(Opcode::new(0x00E5, "PUSH HL", 1)),
        0x00E6 => Some(Opcode::new(0x00E6, "AND A,u8", 2)),
        0x00E7 => Some(Opcode::new(0x00E7, "RST 20h", 1)),
        0x00E8 => Some(Opcode::new(0x00E8, "ADD SP,i8", 2)),
        0x00E9 => Some(Opcode::new(0x00E9, "JP HL", 1)),
        0x00EA => Some(Opcode::new(0x00EA, "LD (u16),A", 3)),
        0x00EE => Some(Opcode::new(0x00EE, "XOR A,u8", 2)),
        0x00EF => Some(Opcode::new(0x00EF, "RST 28h", 1)),
        0x00F0 => Some(Opcode::new(0x00F0, "LD A,(FF00+u8)", 2)),
        0x00F1 => Some(Opcode::new(0x00F1, "POP AF", 1)),
        0x00F2 => Some(Opcode::new(0x00F2, "LD A,(FF00+C)", 1)),
        0x00F3 => Some(Opcode::new(0x00F3, "DI", 1)),
        0x00F5 => Some(Opcode::new(0x00F5, "PUSH AF", 1)),
        0x00F6 => Some(Opcode::new(0x00F6, "OR A,u8", 2)),
        0x00F7 => Some(Opcode::new(0x00F7, "RST 30h", 1)),
        0x00F8 => Some(Opcode::new(0x00F8, "LD HL,SP+i8", 2)),
        0x00F9 => Some(Opcode::new(0x00F9, "LD SP,HL", 1)),
        0x00FA => Some(Opcode::new(0x00FA, "LD A,(u16)", 3)),
        0x00FB => Some(Opcode::new(0x00FB, "EI", 1)),
        0x00FE => Some(Opcode::new(0x00FE, "CP A,u8", 2)),
        0x00FF => Some(Opcode::new(0x00FF, "RST 38h", 1)),
        0xCB00 => Some(Opcode::new(0xCB00, "RLC B", 2)),
        0xCB01 => Some(Opcode::new(0xCB01, "RLC C", 2)),
        0xCB02 => Some(Opcode::new(0xCB02, "RLC D", 2)),
        0xCB03 => Some(Opcode::new(0xCB03, "RLC E", 2)),
        0xCB04 => Some(Opcode::new(0xCB04, "RLC H", 2)),
        0xCB05 => Some(Opcode::new(0xCB05, "RLC L", 2)),
        0xCB06 => Some(Opcode::new(0xCB06, "RLC (HL)", 2)),
        0xCB07 => Some(Opcode::new(0xCB07, "RLC A", 2)),
        0xCB08 => Some(Opcode::new(0xCB08, "RRC B", 2)),
        0xCB09 => Some(Opcode::new(0xCB09, "RRC C", 2)),
        0xCB0A => Some(Opcode::new(0xCB0A, "RRC D", 2)),
        0xCB0B => Some(Opcode::new(0xCB0B, "RRC E", 2)),
        0xCB0C => Some(Opcode::new(0xCB0C, "RRC H", 2)),
        0xCB0D => Some(Opcode::new(0xCB0D, "RRC L", 2)),
        0xCB0E => Some(Opcode::new(0xCB0E, "RRC (HL)", 2)),
        0xCB0F => Some(Opcode::new(0xCB0F, "RRC A", 2)),
        0xCB10 => Some(Opcode::new(0xCB10, "RL B", 2)),
        0xCB11 => Some(Opcode::new(0xCB11, "RL C", 2)),
        0xCB12 => Some(Opcode::new(0xCB12, "RL D", 2)),
        0xCB13 => Some(Opcode::new(0xCB13, "RL E", 2)),
        0xCB14 => Some(Opcode::new(0xCB14, "RL H", 2)),
        0xCB15 => Some(Opcode::new(0xCB15, "RL L", 2)),
        0xCB16 => Some(Opcode::new(0xCB16, "RL (HL)", 2)),
        0xCB17 => Some(Opcode::new(0xCB17, "RL A", 2)),
        0xCB18 => Some(Opcode::new(0xCB18, "RR B", 2)),
        0xCB19 => Some(Opcode::new(0xCB19, "RR C", 2)),
        0xCB1A => Some(Opcode::new(0xCB1A, "RR D", 2)),
        0xCB1B => Some(Opcode::new(0xCB1B, "RR E", 2)),
        0xCB1C => Some(Opcode::new(0xCB1C, "RR H", 2)),
        0xCB1D => Some(Opcode::new(0xCB1D, "RR L", 2)),
        0xCB1E => Some(Opcode::new(0xCB1E, "RR (HL)", 2)),
        0xCB1F => Some(Opcode::new(0xCB1F, "RR A", 2)),
        0xCB20 => Some(Opcode::new(0xCB20, "SLA B", 2)),
        0xCB21 => Some(Opcode::new(0xCB21, "SLA C", 2)),
        0xCB22 => Some(Opcode::new(0xCB22, "SLA D", 2)),
        0xCB23 => Some(Opcode::new(0xCB23, "SLA E", 2)),
        0xCB24 => Some(Opcode::new(0xCB24, "SLA H", 2)),
        0xCB25 => Some(Opcode::new(0xCB25, "SLA L", 2)),
        0xCB26 => Some(Opcode::new(0xCB26, "SLA (HL)", 2)),
        0xCB27 => Some(Opcode::new(0xCB27, "SLA A", 2)),
        0xCB28 => Some(Opcode::new(0xCB28, "SRA B", 2)),
        0xCB29 => Some(Opcode::new(0xCB29, "SRA C", 2)),
        0xCB2A => Some(Opcode::new(0xCB2A, "SRA D", 2)),
        0xCB2B => Some(Opcode::new(0xCB2B, "SRA E", 2)),
        0xCB2C => Some(Opcode::new(0xCB2C, "SRA H", 2)),
        0xCB2D => Some(Opcode::new(0xCB2D, "SRA L", 2)),
        0xCB2E => Some(Opcode::new(0xCB2E, "SRA (HL)", 2)),
        0xCB2F => Some(Opcode::new(0xCB2F, "SRA A", 2)),
        0xCB30 => Some(Opcode::new(0xCB30, "SWAP B", 2)),
        0xCB31 => Some(Opcode::new(0xCB31, "SWAP C", 2)),
        0xCB32 => Some(Opcode::new(0xCB32, "SWAP D", 2)),
        0xCB33 => Some(Opcode::new(0xCB33, "SWAP E", 2)),
        0xCB34 => Some(Opcode::new(0xCB34, "SWAP H", 2)),
        0xCB35 => Some(Opcode::new(0xCB35, "SWAP L", 2)),
        0xCB36 => Some(Opcode::new(0xCB36, "SWAP (HL)", 2)),
        0xCB37 => Some(Opcode::new(0xCB37, "SWAP A", 2)),
        0xCB38 => Some(Opcode::new(0xCB38, "SRL B", 2)),
        0xCB39 => Some(Opcode::new(0xCB39, "SRL C", 2)),
        0xCB3A => Some(Opcode::new(0xCB3A, "SRL D", 2)),
        0xCB3B => Some(Opcode::new(0xCB3B, "SRL E", 2)),
        0xCB3C => Some(Opcode::new(0xCB3C, "SRL H", 2)),
        0xCB3D => Some(Opcode::new(0xCB3D, "SRL L", 2)),
        0xCB3E => Some(Opcode::new(0xCB3E, "SRL (HL)", 2)),
        0xCB3F => Some(Opcode::new(0xCB3F, "SRL A", 2)),
        0xCB40 => Some(Opcode::new(0xCB40, "BIT 0,B", 2)),
        0xCB41 => Some(Opcode::new(0xCB41, "BIT 0,C", 2)),
        0xCB42 => Some(Opcode::new(0xCB42, "BIT 0,D", 2)),
        0xCB43 => Some(Opcode::new(0xCB43, "BIT 0,E", 2)),
        0xCB44 => Some(Opcode::new(0xCB44, "BIT 0,H", 2)),
        0xCB45 => Some(Opcode::new(0xCB45, "BIT 0,L", 2)),
        0xCB46 => Some(Opcode::new(0xCB46, "BIT 0,(HL)", 2)),
        0xCB47 => Some(Opcode::new(0xCB47, "BIT 0,A", 2)),
        0xCB48 => Some(Opcode::new(0xCB48, "BIT 1,B", 2)),
        0xCB49 => Some(Opcode::new(0xCB49, "BIT 1,C", 2)),
        0xCB4A => Some(Opcode::new(0xCB4A, "BIT 1,D", 2)),
        0xCB4B => Some(Opcode::new(0xCB4B, "BIT 1,E", 2)),
        0xCB4C => Some(Opcode::new(0xCB4C, "BIT 1,H", 2)),
        0xCB4D => Some(Opcode::new(0xCB4D, "BIT 1,L", 2)),
        0xCB4E => Some(Opcode::new(0xCB4E, "BIT 1,(HL)", 2)),
        0xCB4F => Some(Opcode::new(0xCB4F, "BIT 1,A", 2)),
        0xCB50 => Some(Opcode::new(0xCB50, "BIT 2,B", 2)),
        0xCB51 => Some(Opcode::new(0xCB51, "BIT 2,C", 2)),
        0xCB52 => Some(Opcode::new(0xCB52, "BIT 2,D", 2)),
        0xCB53 => Some(Opcode::new(0xCB53, "BIT 2,E", 2)),
        0xCB54 => Some(Opcode::new(0xCB54, "BIT 2,H", 2)),
        0xCB55 => Some(Opcode::new(0xCB55, "BIT 2,L", 2)),
        0xCB56 => Some(Opcode::new(0xCB56, "BIT 2,(HL)", 2)),
        0xCB57 => Some(Opcode::new(0xCB57, "BIT 2,A", 2)),
        0xCB58 => Some(Opcode::new(0xCB58, "BIT 3,B", 2)),
        0xCB59 => Some(Opcode::new(0xCB59, "BIT 3,C", 2)),
        0xCB5A => Some(Opcode::new(0xCB5A, "BIT 3,D", 2)),
        0xCB5B => Some(Opcode::new(0xCB5B, "BIT 3,E", 2)),
        0xCB5C => Some(Opcode::new(0xCB5C, "BIT 3,H", 2)),
        0xCB5D => Some(Opcode::new(0xCB5D, "BIT 3,L", 2)),
        0xCB5E => Some(Opcode::new(0xCB5E, "BIT 3,(HL)", 2)),
        0xCB5F => Some(Opcode::new(0xCB5F, "BIT 3,A", 2)),
        0xCB60 => Some(Opcode::new(0xCB60, "BIT 4,B", 2)),
        0xCB61 => Some(Opcode::new(0xCB61, "BIT 4,C", 2)),
        0xCB62 => Some(Opcode::new(0xCB62, "BIT 4,D", 2)),
        0xCB63 => Some(Opcode::new(0xCB63, "BIT 4,E", 2)),
        0xCB64 => Some(Opcode::new(0xCB64, "BIT 4,H", 2)),
        0xCB65 => Some(Opcode::new(0xCB65, "BIT 4,L", 2)),
        0xCB66 => Some(Opcode::new(0xCB66, "BIT 4,(HL)", 2)),
        0xCB67 => Some(Opcode::new(0xCB67, "BIT 4,A", 2)),
        0xCB68 => Some(Opcode::new(0xCB68, "BIT 5,B", 2)),
        0xCB69 => Some(Opcode::new(0xCB69, "BIT 5,C", 2)),
        0xCB6A => Some(Opcode::new(0xCB6A, "BIT 5,D", 2)),
        0xCB6B => Some(Opcode::new(0xCB6B, "BIT 5,E", 2)),
        0xCB6C => Some(Opcode::new(0xCB6C, "BIT 5,H", 2)),
        0xCB6D => Some(Opcode::new(0xCB6D, "BIT 5,L", 2)),
        0xCB6E => Some(Opcode::new(0xCB6E, "BIT 5,(HL)", 2)),
        0xCB6F => Some(Opcode::new(0xCB6F, "BIT 5,A", 2)),
        0xCB70 => Some(Opcode::new(0xCB70, "BIT 6,B", 2)),
        0xCB71 => Some(Opcode::new(0xCB71, "BIT 6,C", 2)),
        0xCB72 => Some(Opcode::new(0xCB72, "BIT 6,D", 2)),
        0xCB73 => Some(Opcode::new(0xCB73, "BIT 6,E", 2)),
        0xCB74 => Some(Opcode::new(0xCB74, "BIT 6,H", 2)),
        0xCB75 => Some(Opcode::new(0xCB75, "BIT 6,L", 2)),
        0xCB76 => Some(Opcode::new(0xCB76, "BIT 6,(HL)", 2)),
        0xCB77 => Some(Opcode::new(0xCB77, "BIT 6,A", 2)),
        0xCB78 => Some(Opcode::new(0xCB78, "BIT 7,B", 2)),
        0xCB79 => Some(Opcode::new(0xCB79, "BIT 7,C", 2)),
        0xCB7A => Some(Opcode::new(0xCB7A, "BIT 7,D", 2)),
        0xCB7B => Some(Opcode::new(0xCB7B, "BIT 7,E", 2)),
        0xCB7C => Some(Opcode::new(0xCB7C, "BIT 7,H", 2)),
        0xCB7D => Some(Opcode::new(0xCB7D, "BIT 7,L", 2)),
        0xCB7E => Some(Opcode::new(0xCB7E, "BIT 7,(HL)", 2)),
        0xCB7F => Some(Opcode::new(0xCB7F, "BIT 7,A", 2)),
        0xCB80 => Some(Opcode::new(0xCB80, "RES 0,B", 2)),
        0xCB81 => Some(Opcode::new(0xCB81, "RES 0,C", 2)),
        0xCB82 => Some(Opcode::new(0xCB82, "RES 0,D", 2)),
        0xCB83 => Some(Opcode::new(0xCB83, "RES 0,E", 2)),
        0xCB84 => Some(Opcode::new(0xCB84, "RES 0,H", 2)),
        0xCB85 => Some(Opcode::new(0xCB85, "RES 0,L", 2)),
        0xCB86 => Some(Opcode::new(0xCB86, "RES 0,(HL)", 2)),
        0xCB87 => Some(Opcode::new(0xCB87, "RES 0,A", 2)),
        0xCB88 => Some(Opcode::new(0xCB88, "RES 1,B", 2)),
        0xCB89 => Some(Opcode::new(0xCB89, "RES 1,C", 2)),
        0xCB8A => Some(Opcode::new(0xCB8A, "RES 1,D", 2)),
        0xCB8B => Some(Opcode::new(0xCB8B, "RES 1,E", 2)),
        0xCB8C => Some(Opcode::new(0xCB8C, "RES 1,H", 2)),
        0xCB8D => Some(Opcode::new(0xCB8D, "RES 1,L", 2)),
        0xCB8E => Some(Opcode::new(0xCB8E, "RES 1,(HL)", 2)),
        0xCB8F => Some(Opcode::new(0xCB8F, "RES 1,A", 2)),
        0xCB90 => Some(Opcode::new(0xCB90, "RES 2,B", 2)),
        0xCB91 => Some(Opcode::new(0xCB91, "RES 2,C", 2)),
        0xCB92 => Some(Opcode::new(0xCB92, "RES 2,D", 2)),
        0xCB93 => Some(Opcode::new(0xCB93, "RES 2,E", 2)),
        0xCB94 => Some(Opcode::new(0xCB94, "RES 2,H", 2)),
        0xCB95 => Some(Opcode::new(0xCB95, "RES 2,L", 2)),
        0xCB96 => Some(Opcode::new(0xCB96, "RES 2,(HL)", 2)),
        0xCB97 => Some(Opcode::new(0xCB97, "RES 2,A", 2)),
        0xCB98 => Some(Opcode::new(0xCB98, "RES 3,B", 2)),
        0xCB99 => Some(Opcode::new(0xCB99, "RES 3,C", 2)),
        0xCB9A => Some(Opcode::new(0xCB9A, "RES 3,D", 2)),
        0xCB9B => Some(Opcode::new(0xCB9B, "RES 3,E", 2)),
        0xCB9C => Some(Opcode::new(0xCB9C, "RES 3,H", 2)),
        0xCB9D => Some(Opcode::new(0xCB9D, "RES 3,L", 2)),
        0xCB9E => Some(Opcode::new(0xCB9E, "RES 3,(HL)", 2)),
        0xCB9F => Some(Opcode::new(0xCB9F, "RES 3,A", 2)),
        0xCBA0 => Some(Opcode::new(0xCBA0, "RES 4,B", 2)),
        0xCBA1 => Some(Opcode::new(0xCBA1, "RES 4,C", 2)),
        0xCBA2 => Some(Opcode::new(0xCBA2, "RES 4,D", 2)),
        0xCBA3 => Some(Opcode::new(0xCBA3, "RES 4,E", 2)),
        0xCBA4 => Some(Opcode::new(0xCBA4, "RES 4,H", 2)),
        0xCBA5 => Some(Opcode::new(0xCBA5, "RES 4,L", 2)),
        0xCBA6 => Some(Opcode::new(0xCBA6, "RES 4,(HL)", 2)),
        0xCBA7 => Some(Opcode::new(0xCBA7, "RES 4,A", 2)),
        0xCBA8 => Some(Opcode::new(0xCBA8, "RES 5,B", 2)),
        0xCBA9 => Some(Opcode::new(0xCBA9, "RES 5,C", 2)),
        0xCBAA => Some(Opcode::new(0xCBAA, "RES 5,D", 2)),
        0xCBAB => Some(Opcode::new(0xCBAB, "RES 5,E", 2)),
        0xCBAC => Some(Opcode::new(0xCBAC, "RES 5,H", 2)),
        0xCBAD => Some(Opcode::new(0xCBAD, "RES 5,L", 2)),
        0xCBAE => Some(Opcode::new(0xCBAE, "RES 5,(HL)", 2)),
        0xCBAF => Some(Opcode::new(0xCBAF, "RES 5,A", 2)),
        0xCBB0 => Some(Opcode::new(0xCBB0, "RES 6,B", 2)),
        0xCBB1 => Some(Opcode::new(0xCBB1, "RES 6,C", 2)),
        0xCBB2 => Some(Opcode::new(0xCBB2, "RES 6,D", 2)),
        0xCBB3 => Some(Opcode::new(0xCBB3, "RES 6,E", 2)),
        0xCBB4 => Some(Opcode::new(0xCBB4, "RES 6,H", 2)),
        0xCBB5 => Some(Opcode::new(0xCBB5, "RES 6,L", 2)),
        0xCBB6 => Some(Opcode::new(0xCBB6, "RES 6,(HL)", 2)),
        0xCBB7 => Some(Opcode::new(0xCBB7, "RES 6,A", 2)),
        0xCBB8 => Some(Opcode::new(0xCBB8, "RES 7,B", 2)),
        0xCBB9 => Some(Opcode::new(0xCBB9, "RES 7,C", 2)),
        0xCBBA => Some(Opcode::new(0xCBBA, "RES 7,D", 2)),
        0xCBBB => Some(Opcode::new(0xCBBB, "RES 7,E", 2)),
        0xCBBC => Some(Opcode::new(0xCBBC, "RES 7,H", 2)),
        0xCBBD => Some(Opcode::new(0xCBBD, "RES 7,L", 2)),
        0xCBBE => Some(Opcode::new(0xCBBE, "RES 7,(HL)", 2)),
        0xCBBF => Some(Opcode::new(0xCBBF, "RES 7,A", 2)),
        0xCBC0 => Some(Opcode::new(0xCBC0, "SET 0,B", 2)),
        0xCBC1 => Some(Opcode::new(0xCBC1, "SET 0,C", 2)),
        0xCBC2 => Some(Opcode::new(0xCBC2, "SET 0,D", 2)),
        0xCBC3 => Some(Opcode::new(0xCBC3, "SET 0,E", 2)),
        0xCBC4 => Some(Opcode::new(0xCBC4, "SET 0,H", 2)),
        0xCBC5 => Some(Opcode::new(0xCBC5, "SET 0,L", 2)),
        0xCBC6 => Some(Opcode::new(0xCBC6, "SET 0,(HL)", 2)),
        0xCBC7 => Some(Opcode::new(0xCBC7, "SET 0,A", 2)),
        0xCBC8 => Some(Opcode::new(0xCBC8, "SET 1,B", 2)),
        0xCBC9 => Some(Opcode::new(0xCBC9, "SET 1,C", 2)),
        0xCBCA => Some(Opcode::new(0xCBCA, "SET 1,D", 2)),
        0xCBCB => Some(Opcode::new(0xCBCB, "SET 1,E", 2)),
        0xCBCC => Some(Opcode::new(0xCBCC, "SET 1,H", 2)),
        0xCBCD => Some(Opcode::new(0xCBCD, "SET 1,L", 2)),
        0xCBCE => Some(Opcode::new(0xCBCE, "SET 1,(HL)", 2)),
        0xCBCF => Some(Opcode::new(0xCBCF, "SET 1,A", 2)),
        0xCBD0 => Some(Opcode::new(0xCBD0, "SET 2,B", 2)),
        0xCBD1 => Some(Opcode::new(0xCBD1, "SET 2,C", 2)),
        0xCBD2 => Some(Opcode::new(0xCBD2, "SET 2,D", 2)),
        0xCBD3 => Some(Opcode::new(0xCBD3, "SET 2,E", 2)),
        0xCBD4 => Some(Opcode::new(0xCBD4, "SET 2,H", 2)),
        0xCBD5 => Some(Opcode::new(0xCBD5, "SET 2,L", 2)),
        0xCBD6 => Some(Opcode::new(0xCBD6, "SET 2,(HL)", 2)),
        0xCBD7 => Some(Opcode::new(0xCBD7, "SET 2,A", 2)),
        0xCBD8 => Some(Opcode::new(0xCBD8, "SET 3,B", 2)),
        0xCBD9 => Some(Opcode::new(0xCBD9, "SET 3,C", 2)),
        0xCBDA => Some(Opcode::new(0xCBDA, "SET 3,D", 2)),
        0xCBDB => Some(Opcode::new(0xCBDB, "SET 3,E", 2)),
        0xCBDC => Some(Opcode::new(0xCBDC, "SET 3,H", 2)),
        0xCBDD => Some(Opcode::new(0xCBDD, "SET 3,L", 2)),
        0xCBDE => Some(Opcode::new(0xCBDE, "SET 3,(HL)", 2)),
        0xCBDF => Some(Opcode::new(0xCBDF, "SET 3,A", 2)),
        0xCBE0 => Some(Opcode::new(0xCBE0, "SET 4,B", 2)),
        0xCBE1 => Some(Opcode::new(0xCBE1, "SET 4,C", 2)),
        0xCBE2 => Some(Opcode::new(0xCBE2, "SET 4,D", 2)),
        0xCBE3 => Some(Opcode::new(0xCBE3, "SET 4,E", 2)),
        0xCBE4 => Some(Opcode::new(0xCBE4, "SET 4,H", 2)),
        0xCBE5 => Some(Opcode::new(0xCBE5, "SET 4,L", 2)),
        0xCBE6 => Some(Opcode::new(0xCBE6, "SET 4,(HL)", 2)),
        0xCBE7 => Some(Opcode::new(0xCBE7, "SET 4,A", 2)),
        0xCBE8 => Some(Opcode::new(0xCBE8, "SET 5,B", 2)),
        0xCBE9 => Some(Opcode::new(0xCBE9, "SET 5,C", 2)),
        0xCBEA => Some(Opcode::new(0xCBEA, "SET 5,D", 2)),
        0xCBEB => Some(Opcode::new(0xCBEB, "SET 5,E", 2)),
        0xCBEC => Some(Opcode::new(0xCBEC, "SET 5,H", 2)),
        0xCBED => Some(Opcode::new(0xCBED, "SET 5,L", 2)),
        0xCBEE => Some(Opcode::new(0xCBEE, "SET 5,(HL)", 2)),
        0xCBEF => Some(Opcode::new(0xCBEF, "SET 5,A", 2)),
        0xCBF0 => Some(Opcode::new(0xCBF0, "SET 6,B", 2)),
        0xCBF1 => Some(Opcode::new(0xCBF1, "SET 6,C", 2)),
        0xCBF2 => Some(Opcode::new(0xCBF2, "SET 6,D", 2)),
        0xCBF3 => Some(Opcode::new(0xCBF3, "SET 6,E", 2)),
        0xCBF4 => Some(Opcode::new(0xCBF4, "SET 6,H", 2)),
        0xCBF5 => Some(Opcode::new(0xCBF5, "SET 6,L", 2)),
        0xCBF6 => Some(Opcode::new(0xCBF6, "SET 6,(HL)", 2)),
        0xCBF7 => Some(Opcode::new(0xCBF7, "SET 6,A", 2)),
        0xCBF8 => Some(Opcode::new(0xCBF8, "SET 7,B", 2)),
        0xCBF9 => Some(Opcode::new(0xCBF9, "SET 7,C", 2)),
        0xCBFA => Some(Opcode::new(0xCBFA, "SET 7,D", 2)),
        0xCBFB => Some(Opcode::new(0xCBFB, "SET 7,E", 2)),
        0xCBFC => Some(Opcode::new(0xCBFC, "SET 7,H", 2)),
        0xCBFD => Some(Opcode::new(0xCBFD, "SET 7,L", 2)),
        0xCBFE => Some(Opcode::new(0xCBFE, "SET 7,(HL)", 2)),
        0xCBFF => Some(Opcode::new(0xCBFF, "SET 7,A", 2)),
        _ => None,
    }
}

pub fn redirects(code: u16) -> (r: bool)
    ensures
        r == is_control(code),
{
    match code {
        0x18 | 0x20 | 0x28 | 0x30 | 0x38 | 0xC0 | 0xC2 | 0xC3 | 0xC4 | 0xC7 | 0xC8 | 0xC9 | 0xCA | 0xCC | 0xCD | 0xCF | 0xD0 | 0xD2 | 0xD4 | 0xD7 | 0xD8 | 0xD9 | 0xDA | 0xDC | 0xDF | 0xE7 | 0xE9 | 0xEF | 0xF7 | 0xFF => true,
        _ => false,
    }
}

impl CPU {
    /// The code at the program counter: one byte, or the prefix and the byte after it.
    pub open spec fn fetched(&self) -> Result<u16, Fault> {
        match self.load(self.program_counter) {
            Err(e) => Err(e),
            Ok(b) => if b == PREFIX {
                match self.load(wrap16(self.program_counter as int, 1)) {
                    Err(e) => Err(e),
                    Ok(b2) => Ok((0xCB00 + b2) as u16),
                }
            } else {
                Ok(b as u16)
            },
        }
    }

    /// `self` is the machine after an instruction `code` that started at
    /// `start`, left `mid` and took `cycles`: the program counter moved past
    /// the instruction unless the instruction set it, and the timer advanced
    /// by the cycles.
    pub open spec fn finished(self, mid: CPU, code: u16, start: u16, cycles: u8) -> bool {
        &&& self.mmu.timer.ticked(mid.mmu.timer, cycles as u32)
        &&& self == CPU {
            program_counter: if is_control(code) {
                mid.program_counter
            } else {
                wrap16(start as int, instr_len(code) as int)
            },
            mmu: MMU { timer: self.mmu.timer, ..mid.mmu },
            ..mid
        }
    }

    /// `post` and `r` are what one step gives from `self`: the fault of the
    /// fetch, the fault of an unknown code, or the instruction's effect
    /// followed by the move of the program counter and the timer advance.
    pub open spec fn stepped(self, post: CPU, r: Result<u8, Fault>) -> bool {
        &&& r is Err ==> post.stopped == self.stopped
        &&& match self.fetched() {
            Err(e) => r == Err::<u8, Fault>(e) && post == self,
            Ok(code) => if instr_len(code) == 0 {
                r == Err::<u8, Fault>(Fault::IllegalOpcode(code)) && post == self
            } else {
                &&& exists|mid: CPU|
                    #[trigger] executes(
                        code,
                        self.with_pc(wrap16(self.program_counter as int, 1)),
                        mid,
                        r,
                    ) && (r is Err ==> post == mid) && (r is Ok ==> post.finished(
                        mid,
                        code,
                        self.program_counter,
                        r.unwrap(),
                    ))
                &&& r is Ok && !is_control(code) ==> post.program_counter == wrap16(
                    self.program_counter as int,
                    instr_len(code) as int,
                )
            },
        }
    }

    /// `post` and `r` are what running from `self` with `budget` steps left
    /// gives: stop at once when stopped, give up when the budget is spent,
    /// else one step, and either its fault or the run from there.
    pub open spec fn ran(self, post: CPU, budget: nat, r: Result<(), Fault>) -> bool
        decreases budget,
    {
        if self.stopped {
            post == self && r == Ok::<(), Fault>(())
        } else if budget == 0 {
            post == self && r == Err::<(), Fault>(Fault::StepLimit)
        } else {
            exists|mid: CPU, s: Result<u8, Fault>|
                #[trigger] self.stepped(mid, s) && match s {
                    Err(e) => post == mid && r == Err::<(), Fault>(e),
                    Ok(_) => mid.ran(post, (budget - 1) as nat, r),
                }
        }
    }

    /// The machine that `load_and_run(program)` starts from.
    pub open spec fn loaded(self, program: Vec<u8>) -> CPU {
        CPU {
            mmu: MMU { mbc: MBC::Plain(MBC0 { rom: program }), ..self.mmu },
            stopped: false,
            ..self
        }
    }

    pub fn fetch_opcode(&self) -> (r: Result<u16, Fault>)
        requires
            self.wf(),
        ensures
            r == self.fetched(),
    {
        let op = match self.mem_read_u8(self.program_counter) {
            Ok(op) => op,
            Err(e) => return Err(e),
        };
        if op != PREFIX {
            Ok(op as u16)
        } else {
            match self.mem_read_u8(self.program_counter.wrapping_add(1)) {
                Ok(second) => Ok(0xCB00 + second as u16),
                Err(e) => Err(e),
            }
        }
    }

    /// Runs the instruction that `opcode` describes; the program counter
    /// stands after the opcode byte.
    pub fn decode(&mut self, opcode: &Opcode) -> (r: Result<u8, Fault>)
        requires
            old(self).wf(),
        ensures
            final(self).wf(),
            executes(opcode.code, *old(self), *final(self), r),
            r is Ok && !is_control(opcode.code) ==> final(self).program_counter == old(self).program_counter,
            r is Err ==> final(self).stopped == old(self).stopped,
    {
        let code = opcode.code;
        if 0xCB00 <= code && code <= 0xCBFF {
            self.decode_extended((code - 0xCB00) as u8)
        } else if code <= 0xFF {
            self.decode_base(code as u8)
        } else {
            Err(Fault::IllegalOpcode(code))
        }
    }

    /// Fetches, decodes and runs one instruction, then advances the timer by
    /// its cycles; returns the cycles.
    #[verifier::rlimit(60)]
    pub fn step(&mut self) -> (r: Result<u8, Fault>)
        requires
            old(self).wf(),
        ensures
            final(self).wf(),
            old(self).stepped(*final(self), r),
    {
        let start = self.program_counter;
        let code = match self.fetch_opcode() {
            Ok(c) => c,
            Err(e) => return Err(e),
        };
        let opcode = match lookup(code) {
            Some(o) => o,
            None => return Err(Fault::IllegalOpcode(code)),
        };
        self.program_counter = start.wrapping_add(1);
        let ghost before = *self;
        let r = self.decode(&opcode);
        let ghost mid = *self;
        let cycles = match r {
            Ok(c) => c,
            Err(e) => {
                assert(executes(code, before, mid, r));
                return Err(e);
            },
        };
        if !redirects(code) {
            self.program_counter = start.wrapping_add(opcode.bytes as u16);
        }
        self.mmu.execute_cycle(cycles as u32);
        assert(executes(code, before, mid, r));
        Ok(cycles)
    }

    /// Steps until a stop instruction, a fault, or `max_steps` steps; `Ok`
    /// exactly when the machine stopped.
    pub fn run(&mut self, max_steps: u64) -> (r: Result<(), Fault>)
        requires
            old(self).wf(),
        ensures
            final(self).wf(),
            old(self).ran(*final(self), max_steps as nat, r),
            r is Ok <==> final(self).stopped,
            old(self).stopped ==> r is Ok && *final(self) == *old(self),
    {
        let mut budget = max_steps;
        while !self.stopped
            invariant
                self.wf(),
                old(self).stopped ==> *self == *old(self),
                forall|post: CPU, rr: Result<(), Fault>|
                    #[trigger] self.ran(post, budget as nat, rr) ==> old(self).ran(
                        post,
                        max_steps as nat,
                        rr,
                    ),
            decreases budget,
        {
            if budget == 0 {
                assert(self.ran(*self, 0, Err(Fault::StepLimit)));
                return Err(Fault::StepLimit);
            }
            let ghost prev = *self;
            let ghost prev_budget = budget;
            let s = self.step();
            assert(prev.stepped(*self, s));
            match s {
                Ok(_) => {},
                Err(e) => {
                    assert(prev.ran(*self, budget as nat, Err(e)));
                    return Err(e);
                },
            }
            budget = budget - 1;
            assert forall|post: CPU, rr: Result<(), Fault>|
                #[trigger] self.ran(post, budget as nat, rr) implies old(self).ran(
                    post,
                    max_steps as nat,
                    rr,
                ) by {
                assert(prev.stepped(*self, s));
                assert(prev.ran(post, prev_budget as nat, rr));
            }
        }
        assert(self.ran(*self, budget as nat, Ok(())));
        Ok(())
    }

    /// Places `program` at address 0 and runs it from the current program
    /// counter until its stop instruction; `Ok` exactly when it got there.
    pub fn load_and_run(&mut self, program: Vec<u8>) -> (r: Result<(), Fault>)
        requires
            old(self).wf(),
        ensures
            final(self).wf(),
            old(self).loaded(program).ran(*final(self), STEP_BUDGET as nat, r),
            r is Ok <==> final(self).stopped,
    {
        self.mmu.load_program(program);
        self.stopped = false;
        self.run(STEP_BUDGET)
    }
}

} // verus!
