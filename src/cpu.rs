//! The register file, the status flags, the memory helpers and the stack.
use crate::cartridge::mbc0::MBC0;
use crate::cartridge::{LoadError, MBC};
use crate::mmu::{prohibited, MMU};
use vstd::prelude::*;

verus! {

/// The four status flags, kept in the high nibble of the flag register
/// (Z bit 7, N bit 6, H bit 5, C bit 4); the low nibble always reads 0.
#[derive(PartialEq, Eq, Structural, Clone, Copy, Debug)]
pub struct StatusFlags {
    pub z: bool,
    pub n: bool,
    pub h: bool,
    pub c: bool,
}

pub open spec fn flag_bit(f: bool, weight: int) -> int {
    if f {
        weight
    } else {
        0
    }
}

impl StatusFlags {
    pub open spec fn spec_bits(self) -> u8 {
        (flag_bit(self.z, 0x80) + flag_bit(self.n, 0x40) + flag_bit(self.h, 0x20) + flag_bit(
            self.c,
            0x10,
        )) as u8
    }

    /// The flags that a flag register byte holds; its low nibble is dropped.
    pub open spec fn spec_from_bits(b: u8) -> StatusFlags {
        StatusFlags {
            z: (b / 0x80) % 2 == 1,
            n: (b / 0x40) % 2 == 1,
            h: (b / 0x20) % 2 == 1,
            c: (b / 0x10) % 2 == 1,
        }
    }

    pub fn empty() -> (r: Self)
        ensures
            r == (StatusFlags { z: false, n: false, h: false, c: false }),
    {
        StatusFlags { z: false, n: false, h: false, c: false }
    }

    pub fn bits(&self) -> (r: u8)
        ensures
            r == self.spec_bits(),
    {
        let mut r: u8 = 0;
        if self.z {
            r = r + 0x80;
        }
        if self.n {
            r = r + 0x40;
        }
        if self.h {
            r = r + 0x20;
        }
        if self.c {
            r = r + 0x10;
        }
        r
    }

    pub fn from_bits_truncate(b: u8) -> (r: Self)
        ensures
            r == Self::spec_from_bits(b),
    {
        assert((b & 0x80 != 0) == ((b / 0x80) % 2 == 1)) by (bit_vector);
        assert((b & 0x40 != 0) == ((b / 0x40) % 2 == 1)) by (bit_vector);
        assert((b & 0x20 != 0) == ((b / 0x20) % 2 == 1)) by (bit_vector);
        assert((b & 0x10 != 0) == ((b / 0x10) % 2 == 1)) by (bit_vector);
        StatusFlags { z: b & 0x80 != 0, n: b & 0x40 != 0, h: b & 0x20 != 0, c: b & 0x10 != 0 }
    }
}

/// Conditions that stop the simulation: the program or the core is broken.
#[derive(PartialEq, Eq, Structural, Clone, Copy, Debug)]
pub enum Fault {
    /// An access to an address that has no backing storage.
    Prohibited(u16),
    /// A code that names no instruction.
    IllegalOpcode(u16),
    /// The stack pointer went below the high-RAM stack window.
    StackOverflow,
    /// The stack pointer went above the high-RAM stack window.
    StackUnderflow,
    /// A program run did not reach its stop instruction within its step budget.
    StepLimit,
}

/// The 8-bit registers.
#[derive(PartialEq, Eq, Structural, Clone, Copy, Debug)]
pub enum Reg8 {
    A,
    B,
    C,
    D,
    E,
    H,
    L,
}

/// The 16-bit registers: three pairs, the stack pointer, and A with the flags.
#[derive(PartialEq, Eq, Structural, Clone, Copy, Debug)]
pub enum Reg16 {
    BC,
    DE,
    HL,
    SP,
    AF,
}

/// Lowest address of the stack window.
pub const STACK_BOTTOM: u16 = 0xFF80;

/// Highest address of the stack window.
pub const STACK_TOP: u16 = 0xFFFE;

pub open spec fn pair(hi: u8, lo: u8) -> u16 {
    (hi * 256 + lo) as u16
}

pub open spec fn hi_byte(v: u16) -> u8 {
    (v / 256) as u8
}

pub open spec fn lo_byte(v: u16) -> u8 {
    (v % 256) as u8
}

/// `a + d`, wrapped to 16 bits.
pub open spec fn wrap16(a: int, d: int) -> u16 {
    ((a + d) % 0x10000) as u16
}

/// Whether a stack pointer lies in the stack window.
pub open spec fn stack_ok(sp: int) -> bool {
    STACK_BOTTOM <= sp <= STACK_TOP
}

/// What a stack pointer that left the window gives.
pub open spec fn stack_fault(sp: int) -> Fault {
    if sp > STACK_TOP {
        Fault::StackUnderflow
    } else {
        Fault::StackOverflow
    }
}

/// `post` is `pre` after a write of `v1` to `a1` and then of `v2` to `a2`.
pub open spec fn wrote_two(post: MMU, pre: MMU, a1: u16, v1: u8, a2: u16, v2: u8) -> bool {
    exists|mid: MMU| #[trigger] mid.wrote(pre, a1, v1) && post.wrote(mid, a2, v2)
}

/// Byte-addressed memory with little-endian 16-bit access.
pub trait Mem: Sized {
    /// The memory's own invariant.
    spec fn mem_ok(&self) -> bool;

    /// Whether `addr` has storage behind it.
    spec fn can_access(addr: u16) -> bool;

    /// The byte that a read of `addr` gives.
    spec fn peek(&self, addr: u16) -> u8;

    /// `self` is `pre` after a write of `data` to `addr`.
    spec fn written(&self, pre: Self, addr: u16, data: u8) -> bool;

    fn mem_read_u8(&self, addr: u16) -> (r: u8)
        requires
            self.mem_ok(),
            Self::can_access(addr),
        ensures
            r == self.peek(addr),
    ;

    fn mem_write_u8(&mut self, addr: u16, data: u8)
        requires
            old(self).mem_ok(),
            Self::can_access(addr),
        ensures
            final(self).mem_ok(),
            final(self).written(*old(self), addr, data),
    ;

    /// The byte at `addr` in the low half, the byte after it in the high half.
    fn mem_read_u16(&self, addr: u16) -> (r: u16)
        requires
            self.mem_ok(),
            Self::can_access(addr),
            Self::can_access(wrap16(addr as int, 1)),
        ensures
            r == pair(self.peek(wrap16(addr as int, 1)), self.peek(addr)),
    {
        let lo = self.mem_read_u8(addr);
        let hi = self.mem_read_u8(addr.wrapping_add(1));
        hi as u16 * 256 + lo as u16
    }

    /// Writes the low byte of `data` to `addr`, then the high byte after it.
    fn mem_write_u16(&mut self, addr: u16, data: u16)
        requires
            old(self).mem_ok(),
            Self::can_access(addr),
            Self::can_access(wrap16(addr as int, 1)),
        ensures
            final(self).mem_ok(),
            exists|mid: Self|
                #[trigger] mid.written(*old(self), addr, lo_byte(data)) && final(self).written(
                    mid,
                    wrap16(addr as int, 1),
                    hi_byte(data),
                ),
    {
        let ghost pre = *self;
        self.mem_write_u8(addr, (data % 256) as u8);
        let ghost mid = *self;
        self.mem_write_u8(addr.wrapping_add(1), (data / 256) as u8);
        assert(mid.written(pre, addr, lo_byte(data)));
    }
}

pub struct CPU {
    pub program_counter: u16,
    pub stack_pointer: u16,
    pub status: StatusFlags,
    pub a: u8,
    pub b: u8,
    pub c: u8,
    pub d: u8,
    pub e: u8,
    pub h: u8,
    pub l: u8,
    pub mmu: MMU,
    /// The interrupt master enable.
    pub ime: bool,
    pub halted: bool,
    pub stopped: bool,
}

impl CPU {
    pub open spec fn wf(&self) -> bool {
        self.mmu.wf()
    }

    pub open spec fn reg8(&self, r: Reg8) -> u8 {
        match r {
            Reg8::A => self.a,
            Reg8::B => self.b,
            Reg8::C => self.c,
            Reg8::D => self.d,
            Reg8::E => self.e,
            Reg8::H => self.h,
            Reg8::L => self.l,
        }
    }

    pub open spec fn with_reg8(self, r: Reg8, v: u8) -> CPU {
        match r {
            Reg8::A => CPU { a: v, ..self },
            Reg8::B => CPU { b: v, ..self },
            Reg8::C => CPU { c: v, ..self },
            Reg8::D => CPU { d: v, ..self },
            Reg8::E => CPU { e: v, ..self },
            Reg8::H => CPU { h: v, ..self },
            Reg8::L => CPU { l: v, ..self },
        }
    }

    pub open spec fn bc(&self) -> u16 {
        pair(self.b, self.c)
    }

    pub open spec fn de(&self) -> u16 {
        pair(self.d, self.e)
    }

    pub open spec fn hl(&self) -> u16 {
        pair(self.h, self.l)
    }

    pub open spec fn af(&self) -> u16 {
        pair(self.a, self.status.spec_bits())
    }

    pub open spec fn reg16(&self, r: Reg16) -> u16 {
        match r {
            Reg16::BC => self.bc(),
            Reg16::DE => self.de(),
            Reg16::HL => self.hl(),
            Reg16::SP => self.stack_pointer,
            Reg16::AF => self.af(),
        }
    }

    pub open spec fn with_reg16(self, r: Reg16, v: u16) -> CPU {
        match r {
            Reg16::BC => CPU { b: hi_byte(v), c: lo_byte(v), ..self },
            Reg16::DE => CPU { d: hi_byte(v), e: lo_byte(v), ..self },
            Reg16::HL => CPU { h: hi_byte(v), l: lo_byte(v), ..self },
            Reg16::SP => CPU { stack_pointer: v, ..self },
            Reg16::AF => CPU {
                a: hi_byte(v),
                status: StatusFlags::spec_from_bits(lo_byte(v)),
                ..self
            },
        }
    }

    pub open spec fn with_flags(self, z: bool, n: bool, h: bool, c: bool) -> CPU {
        CPU { status: StatusFlags { z, n, h, c }, ..self }
    }

    pub open spec fn with_pc(self, pc: u16) -> CPU {
        CPU { program_counter: pc, ..self }
    }

    /// `post` differs from `self` in memory alone.
    pub open spec fn same_but_memory(self, post: CPU) -> bool {
        post == CPU { mmu: post.mmu, ..self }
    }

    /// What a read of `addr` gives: the byte, or the fault of a prohibited address.
    pub open spec fn load(&self, addr: u16) -> Result<u8, Fault> {
        if prohibited(addr) {
            Err(Fault::Prohibited(addr))
        } else {
            Ok(self.mmu.read_spec(addr))
        }
    }

    /// A little-endian 16-bit read at `addr` and the address after it.
    pub open spec fn load16(&self, addr: u16) -> Result<u16, Fault> {
        let hi_addr = wrap16(addr as int, 1);
        match self.load(addr) {
            Err(e) => Err(e),
            Ok(lo) => match self.load(hi_addr) {
                Err(e) => Err(e),
                Ok(hi) => Ok(pair(hi, lo)),
            },
        }
    }

    /// `post` is `self` after a write of `v` to `addr`, with `r` its outcome.
    pub open spec fn stored(self, post: CPU, addr: u16, v: u8, r: Result<(), Fault>) -> bool {
        if prohibited(addr) {
            r == Err::<(), Fault>(Fault::Prohibited(addr)) && post == self
        } else {
            &&& r is Ok
            &&& post.mmu.wrote(self.mmu, addr, v)
            &&& self.same_but_memory(post)
        }
    }

    /// `post` is `self` after a little-endian write of `v` to `addr` and the
    /// address after it; nothing is written where either is prohibited.
    pub open spec fn stored16(self, post: CPU, addr: u16, v: u16, r: Result<(), Fault>) -> bool {
        let hi_addr = wrap16(addr as int, 1);
        if prohibited(addr) {
            r == Err::<(), Fault>(Fault::Prohibited(addr)) && post == self
        } else if prohibited(hi_addr) {
            r == Err::<(), Fault>(Fault::Prohibited(hi_addr)) && post == self
        } else {
            &&& r is Ok
            &&& wrote_two(post.mmu, self.mmu, addr, lo_byte(v), hi_addr, hi_byte(v))
            &&& self.same_but_memory(post)
        }
    }

    /// `post` is `self` after pushing `v`, with `r` the outcome.
    pub open spec fn pushed(self, post: CPU, v: u16, r: Result<(), Fault>) -> bool {
        let sp = wrap16(self.stack_pointer as int, -2);
        if !stack_ok(sp as int) {
            r == Err::<(), Fault>(stack_fault(sp as int)) && post == self
        } else {
            &&& r is Ok
            &&& post.stack_pointer == sp
            &&& wrote_two(post.mmu, self.mmu, sp, lo_byte(v), wrap16(sp as int, 1), hi_byte(v))
            &&& post == CPU { mmu: post.mmu, ..self.with_reg16(Reg16::SP, sp) }
        }
    }

    /// What popping gives: the value, or the fault of the read or of the
    /// stack pointer that results.
    pub open spec fn popped(&self) -> Result<u16, Fault> {
        let sp = self.stack_pointer + 2;
        match self.load16(self.stack_pointer) {
            Err(e) => Err(e),
            Ok(v) => if stack_ok(sp) {
                Ok(v)
            } else {
                Err(stack_fault(sp))
            },
        }
    }

    /// A CPU with cleared registers around the cartridge image `rom`, or why
    /// the image was refused.
    pub fn new(rom: Vec<u8>) -> (r: Result<Self, LoadError>)
        ensures
            match crate::cartridge::load_outcome(rom@) {
                Ok(k) => r is Ok && r.unwrap().wf() && r.unwrap().mmu.mbc.kind() == Some(k)
                    && r.unwrap().cleared() && r.unwrap().mmu.fresh(),
                Err(e) => r == Err::<CPU, LoadError>(e),
            },
    {
        match MMU::new(rom) {
            Ok(mmu) => Ok(CPU::with_mmu(mmu)),
            Err(e) => Err(e),
        }
    }

    /// Every register and flag is zero.
    pub open spec fn cleared(&self) -> bool {
        &&& self.a == 0 && self.b == 0 && self.c == 0 && self.d == 0
        &&& self.e == 0 && self.h == 0 && self.l == 0
        &&& self.program_counter == 0 && self.stack_pointer == 0
        &&& self.status == StatusFlags { z: false, n: false, h: false, c: false }
        &&& !self.ime && !self.halted && !self.stopped
    }

    fn with_mmu(mmu: MMU) -> (r: Self)
        ensures
            r.mmu == mmu,
            r.cleared(),
    {
        CPU {
            a: 0,
            b: 0,
            c: 0,
            d: 0,
            e: 0,
            h: 0,
            l: 0,
            status: StatusFlags::from_bits_truncate(0x00),
            program_counter: 0,
            stack_pointer: 0,
            mmu,
            ime: false,
            halted: false,
            stopped: false,
        }
    }

    /// A CPU with cleared registers and an empty plain cartridge, for running
    /// programs that `load_and_run` places at address 0.
    pub fn new_test() -> (r: Self)
        ensures
            r.wf(),
            r.cleared(),
            r.mmu.fresh(),
            match r.mmu.mbc {
                MBC::Plain(m) => m.rom@ == Seq::<u8>::empty(),
                _ => false,
            },
    {
        CPU::with_mmu(MMU::with_cartridge(MBC::Plain(MBC0 { rom: Vec::new() })))
    }

    pub fn get_a(&self) -> (r: u8)
        ensures
            r == self.a,
    {
        self.a
    }

    pub fn get_b(&self) -> (r: u8)
        ensures
            r == self.b,
    {
        self.b
    }

    pub fn get_c(&self) -> (r: u8)
        ensures
            r == self.c,
    {
        self.c
    }

    pub fn get_d(&self) -> (r: u8)
        ensures
            r == self.d,
    {
        self.d
    }

    pub fn get_e(&self) -> (r: u8)
        ensures
            r == self.e,
    {
        self.e
    }

    pub fn get_h(&self) -> (r: u8)
        ensures
            r == self.h,
    {
        self.h
    }

    pub fn get_l(&self) -> (r: u8)
        ensures
            r == self.l,
    {
        self.l
    }

    /// A in the high byte, the flag register in the low one.
    pub fn get_af(&self) -> (r: u16)
        ensures
            r == self.af(),
    {
        let f = self.status.bits();
        self.a as u16 * 256 + f as u16
    }

    /// B in the high byte, C in the low one.
    pub fn get_bc(&self) -> (r: u16)
        ensures
            r == self.bc(),
    {
        self.b as u16 * 256 + self.c as u16
    }

    /// D in the high byte, E in the low one.
    pub fn get_de(&self) -> (r: u16)
        ensures
            r == self.de(),
    {
        self.d as u16 * 256 + self.e as u16
    }

    /// H in the high byte, L in the low one.
    pub fn get_hl(&self) -> (r: u16)
        ensures
            r == self.hl(),
    {
        self.h as u16 * 256 + self.l as u16
    }

    pub fn get_zf(&self) -> (r: bool)
        ensures
            r == self.status.z,
    {
        self.status.z
    }

    pub fn get_nf(&self) -> (r: bool)
        ensures
            r == self.status.n,
    {
        self.status.n
    }

    pub fn get_hf(&self) -> (r: bool)
        ensures
            r == self.status.h,
    {
        self.status.h
    }

    pub fn get_cf(&self) -> (r: bool)
        ensures
            r == self.status.c,
    {
        self.status.c
    }

    pub fn get_sp(&self) -> (r: u16)
        ensures
            r == self.stack_pointer,
    {
        self.stack_pointer
    }

    pub fn get_reg8(&self, r: Reg8) -> (v: u8)
        ensures
            v == self.reg8(r),
    {
        match r {
            Reg8::A => self.a,
            Reg8::B => self.b,
            Reg8::C => self.c,
            Reg8::D => self.d,
            Reg8::E => self.e,
            Reg8::H => self.h,
            Reg8::L => self.l,
        }
    }

    pub fn set_reg8(&mut self, r: Reg8, v: u8)
        ensures
            *final(self) == old(self).with_reg8(r, v),
    {
        match r {
            Reg8::A => self.a = v,
            Reg8::B => self.b = v,
            Reg8::C => self.c = v,
            Reg8::D => self.d = v,
            Reg8::E => self.e = v,
            Reg8::H => self.h = v,
            Reg8::L => self.l = v,
        }
    }

    pub fn get_reg16(&self, r: Reg16) -> (v: u16)
        ensures
            v == self.reg16(r),
    {
        match r {
            Reg16::BC => self.get_bc(),
            Reg16::DE => self.get_de(),
            Reg16::HL => self.get_hl(),
            Reg16::SP => self.stack_pointer,
            Reg16::AF => self.get_af(),
        }
    }

    pub fn set_reg16(&mut self, r: Reg16, v: u16)
        ensures
            *final(self) == old(self).with_reg16(r, v),
    {
        match r {
            Reg16::BC => self.set_bc(v),
            Reg16::DE => self.set_de(v),
            Reg16::HL => self.set_hl(v),
            Reg16::SP => self.stack_pointer = v,
            Reg16::AF => self.set_af(v),
        }
    }

    pub fn set_a(&mut self, v: u8)
        ensures
            *final(self) == old(self).with_reg8(Reg8::A, v),
    {
        self.a = v;
    }

    pub fn set_b(&mut self, v: u8)
        ensures
            *final(self) == old(self).with_reg8(Reg8::B, v),
    {
        self.b = v;
    }

    pub fn set_c(&mut self, v: u8)
        ensures
            *final(self) == old(self).with_reg8(Reg8::C, v),
    {
        self.c = v;
    }

    pub fn set_d(&mut self, v: u8)
        ensures
            *final(self) == old(self).with_reg8(Reg8::D, v),
    {
        self.d = v;
    }

    pub fn set_e(&mut self, v: u8)
        ensures
            *final(self) == old(self).with_reg8(Reg8::E, v),
    {
        self.e = v;
    }

    pub fn set_h(&mut self, v: u8)
        ensures
            *final(self) == old(self).with_reg8(Reg8::H, v),
    {
        self.h = v;
    }

    pub fn set_l(&mut self, v: u8)
        ensures
            *final(self) == old(self).with_reg8(Reg8::L, v),
    {
        self.l = v;
    }

    /// B takes the high byte of `data`, C the low one.
    pub fn set_bc(&mut self, data: u16)
        ensures
            *final(self) == old(self).with_reg16(Reg16::BC, data),
    {
        self.b = (data / 256) as u8;
        self.c = (data % 256) as u8;
    }

    /// D takes the high byte of `data`, E the low one.
    pub fn set_de(&mut self, data: u16)
        ensures
            *final(self) == old(self).with_reg16(Reg16::DE, data),
    {
        self.d = (data / 256) as u8;
        self.e = (data % 256) as u8;
    }

    /// H takes the high byte of `data`, L the low one.
    pub fn set_hl(&mut self, data: u16)
        ensures
            *final(self) == old(self).with_reg16(Reg16::HL, data),
    {
        self.h = (data / 256) as u8;
        self.l = (data % 256) as u8;
    }

    /// A takes the high byte of `v`; the flags take the high nibble of the low byte.
    pub fn set_af(&mut self, v: u16)
        ensures
            *final(self) == old(self).with_reg16(Reg16::AF, v),
    {
        self.a = (v / 256) as u8;
        self.status = StatusFlags::from_bits_truncate((v % 256) as u8);
    }

    pub fn set_sp(&mut self, v: u16)
        ensures
            *final(self) == old(self).with_reg16(Reg16::SP, v),
    {
        self.stack_pointer = v;
    }

    pub fn set_flags(&mut self, z: bool, n: bool, h: bool, c: bool)
        ensures
            *final(self) == old(self).with_flags(z, n, h, c),
    {
        self.status = StatusFlags { z, n, h, c };
    }

    pub fn enable_interrupt(&mut self)
        ensures
            *final(self) == (CPU { ime: true, ..*old(self) }),
    {
        self.ime = true;
    }

    pub fn disable_interrupt(&mut self)
        ensures
            *final(self) == (CPU { ime: false, ..*old(self) }),
    {
        self.ime = false;
    }

    pub fn halt(&mut self)
        ensures
            *final(self) == (CPU { halted: true, ..*old(self) }),
    {
        self.halted = true;
    }

    pub fn stop(&mut self)
        ensures
            *final(self) == (CPU { stopped: true, ..*old(self) }),
    {
        self.stopped = true;
    }

    /// Reads the byte at `addr`; a prohibited address is a fault.
    pub fn mem_read_u8(&self, addr: u16) -> (r: Result<u8, Fault>)
        requires
            self.wf(),
        ensures
            r == self.load(addr),
    {
        if (0xE000 <= addr && addr <= 0xFDFF) || (0xFEA0 <= addr && addr <= 0xFEFF) {
            Err(Fault::Prohibited(addr))
        } else {
            Ok(self.mmu.mem_read_u8(addr))
        }
    }

    /// Writes `data` to `addr`; a prohibited address is a fault and nothing changes.
    pub fn mem_write_u8(&mut self, addr: u16, data: u8) -> (r: Result<(), Fault>)
        requires
            old(self).wf(),
        ensures
            final(self).wf(),
            old(self).stored(*final(self), addr, data, r),
    {
        if (0xE000 <= addr && addr <= 0xFDFF) || (0xFEA0 <= addr && addr <= 0xFEFF) {
            Err(Fault::Prohibited(addr))
        } else {
            self.mmu.mem_write_u8(addr, data);
            Ok(())
        }
    }

    /// Reads the little-endian 16-bit value at `addr` and the address after it.
    pub fn mem_read_u16(&self, addr: u16) -> (r: Result<u16, Fault>)
        requires
            self.wf(),
        ensures
            r == self.load16(addr),
    {
        let lo = match self.mem_read_u8(addr) {
            Ok(v) => v,
            Err(e) => return Err(e),
        };
        let hi = match self.mem_read_u8(addr.wrapping_add(1)) {
            Ok(v) => v,
            Err(e) => return Err(e),
        };
        Ok(hi as u16 * 256 + lo as u16)
    }

    /// Writes `data` little-endian at `addr` and the address after it.
    pub fn mem_write_u16(&mut self, addr: u16, data: u16) -> (r: Result<(), Fault>)
        requires
            old(self).wf(),
        ensures
            final(self).wf(),
            old(self).stored16(*final(self), addr, data, r),
    {
        let hi_addr = addr.wrapping_add(1);
        if (0xE000 <= addr && addr <= 0xFDFF) || (0xFEA0 <= addr && addr <= 0xFEFF) {
            return Err(Fault::Prohibited(addr));
        }
        if (0xE000 <= hi_addr && hi_addr <= 0xFDFF) || (0xFEA0 <= hi_addr && hi_addr <= 0xFEFF) {
            return Err(Fault::Prohibited(hi_addr));
        }
        let ghost pre = self.mmu;
        self.mmu.mem_write_u8(addr, (data % 256) as u8);
        let ghost mid = self.mmu;
        self.mmu.mem_write_u8(hi_addr, (data / 256) as u8);
        assert(mid.wrote(pre, addr, lo_byte(data)) && self.mmu.wrote(mid, hi_addr, hi_byte(data)));
        Ok(())
    }

    /// The fault for a stack pointer outside the stack window.
    fn validate_sp(sp: u32) -> (r: Result<(), Fault>)
        ensures
            stack_ok(sp as int) ==> r is Ok,
            !stack_ok(sp as int) ==> r == Err::<(), Fault>(stack_fault(sp as int)),
    {
        if sp > STACK_TOP as u32 {
            Err(Fault::StackUnderflow)
        } else if sp < STACK_BOTTOM as u32 {
            Err(Fault::StackOverflow)
        } else {
            Ok(())
        }
    }

    /// Moves the stack pointer down by 2 and stores `data` there.
    pub fn stack_push(&mut self, data: u16) -> (r: Result<(), Fault>)
        requires
            old(self).wf(),
        ensures
            final(self).wf(),
            old(self).pushed(*final(self), data, r),
    {
        let sp = self.stack_pointer.wrapping_sub(2);
        match CPU::validate_sp(sp as u32) {
            Ok(()) => {},
            Err(e) => return Err(e),
        }
        self.stack_pointer = sp;
        let ghost pre = self.mmu;
        self.mmu.mem_write_u8(sp, (data % 256) as u8);
        let ghost mid = self.mmu;
        self.mmu.mem_write_u8(sp + 1, (data / 256) as u8);
        assert(mid.wrote(pre, sp, lo_byte(data)) && self.mmu.wrote(
            mid,
            wrap16(sp as int, 1),
            hi_byte(data),
        ));
        Ok(())
    }

    /// Reads the 16-bit value at the stack pointer and moves the pointer up by 2.
    pub fn stack_pop(&mut self) -> (r: Result<u16, Fault>)
        requires
            old(self).wf(),
        ensures
            final(self).wf(),
            r == old(self).popped(),
            r is Ok ==> *final(self) == old(self).with_reg16(
                Reg16::SP,
                (old(self).stack_pointer + 2) as u16,
            ),
            r is Err ==> *final(self) == *old(self),
    {
        let res = match self.mem_read_u16(self.stack_pointer) {
            Ok(v) => v,
            Err(e) => return Err(e),
        };
        let sp = self.stack_pointer as u32 + 2;
        match CPU::validate_sp(sp) {
            Ok(()) => {},
            Err(e) => return Err(e),
        }
        self.stack_pointer = sp as u16;
        Ok(res)
    }
}

} // verus!
