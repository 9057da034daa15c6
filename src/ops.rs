//! The instruction families: for each, a relation that states what an
//! instruction of the family does to the machine, and the routine that does it.
use crate::alu::{add16, add16_signed, add8, add_u16, add_u16_signed, add_u8, sign_extend, signed, sub8, sub_u8};
use crate::cpu::{wrap16, Fault, Reg16, Reg8, StatusFlags, CPU};
use crate::mmu::prohibited;
use vstd::prelude::*;

verus! {

/// Where an 8-bit operand comes from: a register, the memory cell that HL
/// addresses, or the byte that follows the opcode.
#[derive(PartialEq, Eq, Structural, Clone, Copy, Debug)]
pub enum Src {
    R(Reg8),
    AtHL,
    Imm,
}

/// Where an 8-bit result goes: a register or the memory cell that HL addresses.
#[derive(PartialEq, Eq, Structural, Clone, Copy, Debug)]
pub enum Dst {
    R(Reg8),
    AtHL,
}

/// Operations of A with an 8-bit operand.
#[derive(PartialEq, Eq, Structural, Clone, Copy, Debug)]
pub enum AluOp {
    Add,
    Adc,
    Sub,
    Sbc,
    And,
    Xor,
    Or,
    Cp,
}

/// Operations that replace one 8-bit value and set flags.
#[derive(PartialEq, Eq, Structural, Clone, Copy, Debug)]
pub enum Unary {
    Inc,
    Dec,
    Rlc,
    Rrc,
    Rl,
    Rr,
    Sla,
    Sra,
    Swap,
    Srl,
    ResBit(u8),
    SetBit(u8),
    Daa,
    Cpl,
    Scf,
    Ccf,
}

/// Branch conditions.
#[derive(PartialEq, Eq, Structural, Clone, Copy, Debug)]
pub enum Cond {
    Always,
    NZ,
    Z,
    NC,
    C,
}

/// How the memory operand of a load to or from A is addressed.
#[derive(PartialEq, Eq, Structural, Clone, Copy, Debug)]
pub enum Addr {
    BC,
    DE,
    /// HL, which is then incremented.
    HLInc,
    /// HL, which is then decremented.
    HLDec,
    /// 0xFF00 plus the byte that follows the opcode.
    HighImm,
    /// 0xFF00 plus C.
    HighC,
    /// The 16-bit address that follows the opcode.
    Abs,
}

pub open spec fn dst_src(d: Dst) -> Src {
    match d {
        Dst::R(r) => Src::R(r),
        Dst::AtHL => Src::AtHL,
    }
}

pub open spec fn cond_holds(c: Cond, f: StatusFlags) -> bool {
    match c {
        Cond::Always => true,
        Cond::NZ => !f.z,
        Cond::Z => f.z,
        Cond::NC => !f.c,
        Cond::C => f.c,
    }
}

pub open spec fn flags(z: bool, n: bool, h: bool, c: bool) -> StatusFlags {
    StatusFlags { z, n, h, c }
}

/// The new A and flags of `op` on A = `a` and operand `v`; compare keeps A.
pub open spec fn alu_result(op: AluOp, a: u8, v: u8, f: StatusFlags) -> (u8, StatusFlags) {
    match op {
        AluOp::Add => {
            let (r, h, c, z) = add8(a, v, false);
            (r, flags(z, false, h, c))
        },
        AluOp::Adc => {
            let (r, h, c, z) = add8(a, v, f.c);
            (r, flags(z, false, h, c))
        },
        AluOp::Sub => {
            let (r, h, c, z) = sub8(a, v, false);
            (r, flags(z, true, h, c))
        },
        AluOp::Sbc => {
            let (r, h, c, z) = sub8(a, v, f.c);
            (r, flags(z, true, h, c))
        },
        AluOp::And => ((a & v), flags((a & v) == 0, false, true, false)),
        AluOp::Xor => ((a ^ v), flags((a ^ v) == 0, false, false, false)),
        AluOp::Or => ((a | v), flags((a | v) == 0, false, false, false)),
        AluOp::Cp => {
            let (r, h, c, z) = sub8(a, v, false);
            (a, flags(z, true, h, c))
        },
    }
}

pub open spec fn carry_in(c: bool) -> int {
    if c {
        1
    } else {
        0
    }
}

/// The decimal adjustment that DAA adds (or, after a subtraction, subtracts).
pub open spec fn daa_adjust(v: u8, f: StatusFlags) -> int {
    (if f.h || (!f.n && v % 16 > 9) {
        0x06int
    } else {
        0
    }) + (if f.c || (!f.n && v > 0x99) {
        0x60int
    } else {
        0
    })
}

/// The new value and flags of `op` on `v` with flags `f`.
pub open spec fn unary_result(op: Unary, v: u8, f: StatusFlags) -> (u8, StatusFlags) {
    match op {
        Unary::Inc => {
            let (r, h, c, z) = add8(v, 1, false);
            (r, flags(z, false, h, f.c))
        },
        Unary::Dec => {
            let (r, h, c, z) = sub8(v, 1, false);
            (r, flags(z, true, h, f.c))
        },
        Unary::Rlc => {
            let r = ((v * 2 + v / 128) % 256) as u8;
            (r, flags(r == 0, false, false, v >= 128))
        },
        Unary::Rrc => {
            let r = (v / 2 + (v % 2) * 128) as u8;
            (r, flags(r == 0, false, false, v % 2 == 1))
        },
        Unary::Rl => {
            let r = ((v * 2 + carry_in(f.c)) % 256) as u8;
            (r, flags(r == 0, false, false, v >= 128))
        },
        Unary::Rr => {
            let r = (v / 2 + carry_in(f.c) * 128) as u8;
            (r, flags(r == 0, false, false, v % 2 == 1))
        },
        Unary::Sla => {
            let r = ((v * 2) % 256) as u8;
            (r, flags(r == 0, false, false, v >= 128))
        },
        Unary::Sra => {
            let r = (v / 2 + (v / 128) * 128) as u8;
            (r, flags(r == 0, false, false, v % 2 == 1))
        },
        Unary::Swap => {
            let r = ((v % 16) * 16 + v / 16) as u8;
            (r, flags(r == 0, false, false, false))
        },
        Unary::Srl => {
            let r = (v / 2) as u8;
            (r, flags(r == 0, false, false, v % 2 == 1))
        },
        Unary::ResBit(b) => ((v & !(1u8 << b)), f),
        Unary::SetBit(b) => ((v | (1u8 << b)), f),
        Unary::Daa => {
            let r = (if f.n {
                (v - daa_adjust(v, f)) % 256
            } else {
                (v + daa_adjust(v, f)) % 256
            }) as u8;
            (r, flags(r == 0, f.n, false, f.c || (!f.n && v > 0x99)))
        },
        Unary::Cpl => ((255 - v) as u8, flags(f.z, true, true, f.c)),
        Unary::Scf => (v, flags(f.z, false, false, true)),
        Unary::Ccf => (v, flags(f.z, false, false, !f.c)),
    }
}

pub open spec fn unary_ok(op: Unary) -> bool {
    match op {
        Unary::ResBit(b) => b < 8,
        Unary::SetBit(b) => b < 8,
        _ => true,
    }
}

/// `Ok(())` for a success and the same fault for a failure.
pub open spec fn unit_of(r: Result<u8, Fault>) -> Result<(), Fault> {
    match r {
        Ok(_) => Ok(()),
        Err(e) => Err(e),
    }
}

pub fn alu_compute(op: AluOp, a: u8, v: u8, f: StatusFlags) -> (r: (u8, StatusFlags))
    ensures
        r == alu_result(op, a, v, f),
{
    match op {
        AluOp::Add => {
            let (r, h, c, z) = add_u8(a, v, false);
            (r, StatusFlags { z, n: false, h, c })
        },
        AluOp::Adc => {
            let (r, h, c, z) = add_u8(a, v, f.c);
            (r, StatusFlags { z, n: false, h, c })
        },
        AluOp::Sub => {
            let (r, h, c, z) = sub_u8(a, v, false);
            (r, StatusFlags { z, n: true, h, c })
        },
        AluOp::Sbc => {
            let (r, h, c, z) = sub_u8(a, v, f.c);
            (r, StatusFlags { z, n: true, h, c })
        },
        AluOp::And => {
            let r = a & v;
            (r, StatusFlags { z: r == 0, n: false, h: true, c: false })
        },
        AluOp::Xor => {
            let r = a ^ v;
            (r, StatusFlags { z: r == 0, n: false, h: false, c: false })
        },
        AluOp::Or => {
            let r = a | v;
            (r, StatusFlags { z: r == 0, n: false, h: false, c: false })
        },
        AluOp::Cp => {
            let (_, h, c, z) = sub_u8(a, v, false);
            (a, StatusFlags { z, n: true, h, c })
        },
    }
}

pub fn unary_compute(op: Unary, v: u8, f: StatusFlags) -> (r: (u8, StatusFlags))
    requires
        unary_ok(op),
    ensures
        r == unary_result(op, v, f),
{
    let w = v as u16;
    let cin: u16 = if f.c {
        1
    } else {
        0
    };
    match op {
        Unary::Inc => {
            let (r, h, _, z) = add_u8(v, 1, false);
            (r, StatusFlags { z, n: false, h, c: f.c })
        },
        Unary::Dec => {
            let (r, h, _, z) = sub_u8(v, 1, false);
            (r, StatusFlags { z, n: true, h, c: f.c })
        },
        Unary::Rlc => {
            let r = ((w * 2 + w / 128) % 256) as u8;
            (r, StatusFlags { z: r == 0, n: false, h: false, c: v >= 128 })
        },
        Unary::Rrc => {
            let r = (w / 2 + (w % 2) * 128) as u8;
            (r, StatusFlags { z: r == 0, n: false, h: false, c: v % 2 == 1 })
        },
        Unary::Rl => {
            let r = ((w * 2 + cin) % 256) as u8;
            (r, StatusFlags { z: r == 0, n: false, h: false, c: v >= 128 })
        },
        Unary::Rr => {
            let r = (w / 2 + cin * 128) as u8;
            (r, StatusFlags { z: r == 0, n: false, h: false, c: v % 2 == 1 })
        },
        Unary::Sla => {
            let r = ((w * 2) % 256) as u8;
            (r, StatusFlags { z: r == 0, n: false, h: false, c: v >= 128 })
        },
        Unary::Sra => {
            let r = (w / 2 + (w / 128) * 128) as u8;
            (r, StatusFlags { z: r == 0, n: false, h: false, c: v % 2 == 1 })
        },
        Unary::Swap => {
            let r = ((w % 16) * 16 + w / 16) as u8;
            (r, StatusFlags { z: r == 0, n: false, h: false, c: false })
        },
        Unary::Srl => {
            let r = (w / 2) as u8;
            (r, StatusFlags { z: r == 0, n: false, h: false, c: v % 2 == 1 })
        },
        Unary::ResBit(b) => (v & !(1u8 << b), f),
        Unary::SetBit(b) => (v | (1u8 << b), f),
        Unary::Daa => {
            let mut adj: u16 = 0;
            if f.h || (!f.n && v % 16 > 9) {
                adj = adj + 0x06;
            }
            let c = f.c || (!f.n && v > 0x99);
            if c {
                adj = adj + 0x60;
            }
            let r = if f.n {
                ((w + 256 - adj) % 256) as u8
            } else {
                ((w + adj) % 256) as u8
            };
            proof {
                assert(adj == daa_adjust(v, f));
                if f.n {
                    vstd::arithmetic::div_mod::lemma_mod_add_multiples_vanish(v - adj, 256);
                }
            }
            (r, StatusFlags { z: r == 0, n: f.n, h: false, c })
        },
        Unary::Cpl => (255 - v, StatusFlags { z: f.z, n: true, h: true, c: f.c }),
        Unary::Scf => (v, StatusFlags { z: f.z, n: false, h: false, c: true }),
        Unary::Ccf => (v, StatusFlags { z: f.z, n: false, h: false, c: !f.c }),
    }
}

pub fn cond_check(c: Cond, f: StatusFlags) -> (r: bool)
    ensures
        r == cond_holds(c, f),
{
    match c {
        Cond::Always => true,
        Cond::NZ => !f.z,
        Cond::Z => f.z,
        Cond::NC => !f.c,
        Cond::C => f.c,
    }
}

impl CPU {
    /// The value of an 8-bit operand, or the fault of reading it.
    pub open spec fn operand(&self, s: Src) -> Result<u8, Fault> {
        match s {
            Src::R(r) => Ok(self.reg8(r)),
            Src::AtHL => self.load(self.hl()),
            Src::Imm => self.load(self.program_counter),
        }
    }

    /// `post` is `self` with `v` written to `d`; `r` is `Ok(cycles)` or the fault.
    pub open spec fn put(self, post: CPU, d: Dst, v: u8, r: Result<u8, Fault>, cycles: u8) -> bool {
        match d {
            Dst::R(x) => r == Ok::<u8, Fault>(cycles) && post == self.with_reg8(x, v),
            Dst::AtHL => if prohibited(self.hl()) {
                r == Err::<u8, Fault>(Fault::Prohibited(self.hl())) && post == self
            } else {
                &&& r == Ok::<u8, Fault>(cycles)
                &&& post.mmu.wrote(self.mmu, self.hl(), v)
                &&& self.same_but_memory(post)
            },
        }
    }

    /// An 8-bit load from `s` into `d`; no flag changes.
    pub open spec fn ld8(self, post: CPU, r: Result<u8, Fault>, d: Dst, s: Src, cycles: u8) -> bool {
        match self.operand(s) {
            Err(e) => r == Err::<u8, Fault>(e) && post == self,
            Ok(v) => self.put(post, d, v, r, cycles),
        }
    }

    /// `op` of A with the operand `s`; the result goes to A (not for compare).
    pub open spec fn alu(self, post: CPU, r: Result<u8, Fault>, op: AluOp, s: Src, cycles: u8) -> bool {
        match self.operand(s) {
            Err(e) => r == Err::<u8, Fault>(e) && post == self,
            Ok(v) => {
                let (a, f) = alu_result(op, self.a, v, self.status);
                r == Ok::<u8, Fault>(cycles) && post == CPU { a, status: f, ..self }
            },
        }
    }

    /// `op` applied in place to the register or memory cell `d`.
    pub open spec fn rmw(self, post: CPU, r: Result<u8, Fault>, op: Unary, d: Dst, cycles: u8) -> bool {
        match self.operand(dst_src(d)) {
            Err(e) => r == Err::<u8, Fault>(e) && post == self,
            Ok(v) => {
                let (res, f) = unary_result(op, v, self.status);
                CPU { status: f, ..self }.put(post, d, res, r, cycles)
            },
        }
    }

    /// Bit `b` of the operand `s` into Z (set when the bit is clear); N
    /// cleared, H set, C kept.
    pub open spec fn bit_test(self, post: CPU, r: Result<u8, Fault>, b: u8, s: Src, cycles: u8) -> bool {
        match self.operand(s) {
            Err(e) => r == Err::<u8, Fault>(e) && post == self,
            Ok(v) => r == Ok::<u8, Fault>(cycles) && post == self.with_flags(
                (v & (1u8 << b)) == 0,
                false,
                true,
                self.status.c,
            ),
        }
    }

    /// A rotation of A: as the extended-page rotation, but Z is always cleared.
    pub open spec fn rot_a(self, post: CPU, r: Result<u8, Fault>, op: Unary) -> bool {
        let (res, f) = unary_result(op, self.a, self.status);
        r == Ok::<u8, Fault>(4) && post == self.with_reg8(Reg8::A, res).with_flags(
            false,
            false,
            false,
            f.c,
        )
    }

    /// The address that `m` names, or the fault of reading it.
    pub open spec fn address(&self, m: Addr) -> Result<u16, Fault> {
        match m {
            Addr::BC => Ok(self.bc()),
            Addr::DE => Ok(self.de()),
            Addr::HLInc => Ok(self.hl()),
            Addr::HLDec => Ok(self.hl()),
            Addr::HighImm => match self.load(self.program_counter) {
                Err(e) => Err(e),
                Ok(v) => Ok((0xFF00 + v) as u16),
            },
            Addr::HighC => Ok((0xFF00 + self.c) as u16),
            Addr::Abs => self.load16(self.program_counter),
        }
    }

    /// `self` after the change to HL that `m` makes.
    pub open spec fn after_addr(self, m: Addr) -> CPU {
        match m {
            Addr::HLInc => self.with_reg16(Reg16::HL, wrap16(self.hl() as int, 1)),
            Addr::HLDec => self.with_reg16(Reg16::HL, wrap16(self.hl() as int, -1)),
            _ => self,
        }
    }

    /// A load of A from the memory cell that `m` addresses.
    pub open spec fn ld_a_from(self, post: CPU, r: Result<u8, Fault>, m: Addr, cycles: u8) -> bool {
        match self.address(m) {
            Err(e) => r == Err::<u8, Fault>(e) && post == self,
            Ok(a) => match self.load(a) {
                Err(e) => r == Err::<u8, Fault>(e) && post == self,
                Ok(v) => r == Ok::<u8, Fault>(cycles) && post == self.after_addr(m).with_reg8(
                    Reg8::A,
                    v,
                ),
            },
        }
    }

    /// A store of A to the memory cell that `m` addresses.
    pub open spec fn ld_a_to(self, post: CPU, r: Result<u8, Fault>, m: Addr, cycles: u8) -> bool {
        match self.address(m) {
            Err(e) => r == Err::<u8, Fault>(e) && post == self,
            Ok(a) => if prohibited(a) {
                r == Err::<u8, Fault>(Fault::Prohibited(a)) && post == self
            } else {
                &&& r == Ok::<u8, Fault>(cycles)
                &&& post.mmu.wrote(self.mmu, a, self.a)
                &&& self.after_addr(m).same_but_memory(post)
            },
        }
    }

    /// A 16-bit register loaded from the two bytes that follow the opcode.
    pub open spec fn ld16_imm(self, post: CPU, r: Result<u8, Fault>, rr: Reg16) -> bool {
        match self.load16(self.program_counter) {
            Err(e) => r == Err::<u8, Fault>(e) && post == self,
            Ok(v) => r == Ok::<u8, Fault>(12) && post == self.with_reg16(rr, v),
        }
    }

    /// A 16-bit register moved by `delta` (1 or -1), wrapping; no flag changes.
    pub open spec fn step16(self, post: CPU, r: Result<u8, Fault>, rr: Reg16, delta: int) -> bool {
        r == Ok::<u8, Fault>(8) && post == self.with_reg16(rr, wrap16(self.reg16(rr) as int, delta))
    }

    /// HL plus a 16-bit register; Z kept, N cleared, H and C from bits 11 and 15.
    pub open spec fn add_hl(self, post: CPU, r: Result<u8, Fault>, rr: Reg16) -> bool {
        let (res, h, c, _) = add16(self.hl(), self.reg16(rr), false);
        r == Ok::<u8, Fault>(8) && post == self.with_reg16(Reg16::HL, res).with_flags(
            self.status.z,
            false,
            h,
            c,
        )
    }

    /// SP stored at the 16-bit address that follows the opcode.
    pub open spec fn store_sp(self, post: CPU, r: Result<u8, Fault>) -> bool {
        match self.load16(self.program_counter) {
            Err(e) => r == Err::<u8, Fault>(e) && post == self,
            Ok(a) => self.stored16(post, a, self.stack_pointer, unit_of(r)) && (r is Ok ==> r
                == Ok::<u8, Fault>(20)),
        }
    }

    /// SP plus the signed byte that follows the opcode, into HL (`to_hl`) or
    /// SP; Z and N cleared, H and C from the low nibble and the low byte.
    pub open spec fn sp_offset(self, post: CPU, r: Result<u8, Fault>, to_hl: bool) -> bool {
        match self.load(self.program_counter) {
            Err(e) => r == Err::<u8, Fault>(e) && post == self,
            Ok(d) => {
                let (res, h, c, _) = add16_signed(self.stack_pointer, d, false);
                if to_hl {
                    r == Ok::<u8, Fault>(12) && post == self.with_reg16(Reg16::HL, res).with_flags(
                        false,
                        false,
                        h,
                        c,
                    )
                } else {
                    r == Ok::<u8, Fault>(16) && post == self.with_reg16(Reg16::SP, res).with_flags(
                        false,
                        false,
                        h,
                        c,
                    )
                }
            },
        }
    }

    /// A 16-bit register pushed on the stack.
    pub open spec fn push_op(self, post: CPU, r: Result<u8, Fault>, rr: Reg16) -> bool {
        self.pushed(post, self.reg16(rr), unit_of(r)) && (r is Ok ==> r == Ok::<u8, Fault>(16))
    }

    /// A 16-bit register popped from the stack.
    pub open spec fn pop_op(self, post: CPU, r: Result<u8, Fault>, rr: Reg16) -> bool {
        match self.popped() {
            Err(e) => r == Err::<u8, Fault>(e) && post == self,
            Ok(v) => r == Ok::<u8, Fault>(12) && post == self.with_reg16(
                Reg16::SP,
                (self.stack_pointer + 2) as u16,
            ).with_reg16(rr, v),
        }
    }

    /// A relative jump by the signed byte that follows the opcode, when `c` holds.
    pub open spec fn jr(self, post: CPU, r: Result<u8, Fault>, c: Cond) -> bool {
        match self.load(self.program_counter) {
            Err(e) => r == Err::<u8, Fault>(e) && post == self,
            Ok(d) => if cond_holds(c, self.status) {
                r == Ok::<u8, Fault>(12) && post == self.with_pc(
                    wrap16(self.program_counter + 1, sign_extend(d) as int),
                )
            } else {
                r == Ok::<u8, Fault>(8) && post == self.with_pc(wrap16(self.program_counter as int, 1))
            },
        }
    }

    /// A jump to the 16-bit address that follows the opcode, when `c` holds.
    pub open spec fn jp(self, post: CPU, r: Result<u8, Fault>, c: Cond) -> bool {
        match self.load16(self.program_counter) {
            Err(e) => r == Err::<u8, Fault>(e) && post == self,
            Ok(t) => if cond_holds(c, self.status) {
                r == Ok::<u8, Fault>(16) && post == self.with_pc(t)
            } else {
                r == Ok::<u8, Fault>(12) && post == self.with_pc(wrap16(self.program_counter as int, 2))
            },
        }
    }

    /// A call of the 16-bit address that follows the opcode, when `c` holds:
    /// the address after the instruction is pushed.
    pub open spec fn call(self, post: CPU, r: Result<u8, Fault>, c: Cond) -> bool {
        let next = wrap16(self.program_counter as int, 2);
        match self.load16(self.program_counter) {
            Err(e) => r == Err::<u8, Fault>(e) && post == self,
            Ok(t) => if cond_holds(c, self.status) {
                &&& self.pushed(post.with_pc(self.program_counter), next, unit_of(r))
                &&& r is Ok ==> r == Ok::<u8, Fault>(24) && post.program_counter == t
                &&& r is Err ==> post == self
            } else {
                r == Ok::<u8, Fault>(12) && post == self.with_pc(next)
            },
        }
    }

    /// A return, when `c` holds: the program counter is popped; `reti` also
    /// enables interrupts.
    pub open spec fn ret(self, post: CPU, r: Result<u8, Fault>, c: Cond, cycles: u8, reti: bool) -> bool {
        if !cond_holds(c, self.status) {
            r == Ok::<u8, Fault>(8) && post == self
        } else {
            match self.popped() {
                Err(e) => r == Err::<u8, Fault>(e) && post == self,
                Ok(v) => r == Ok::<u8, Fault>(cycles) && post == CPU {
                    ime: self.ime || reti,
                    ..self.with_reg16(Reg16::SP, (self.stack_pointer + 2) as u16).with_pc(v)
                },
            }
        }
    }

    /// A call of the fixed address `t`.
    pub open spec fn rst(self, post: CPU, r: Result<u8, Fault>, t: u16) -> bool {
        &&& self.pushed(post.with_pc(self.program_counter), self.program_counter, unit_of(r))
        &&& r is Ok ==> r == Ok::<u8, Fault>(16) && post.program_counter == t
        &&& r is Err ==> post == self
    }

    pub fn read_operand(&self, s: Src) -> (r: Result<u8, Fault>)
        requires
            self.wf(),
        ensures
            r == self.operand(s),
    {
        match s {
            Src::R(x) => Ok(self.get_reg8(x)),
            Src::AtHL => self.mem_read_u8(self.get_hl()),
            Src::Imm => self.mem_read_u8(self.program_counter),
        }
    }

    pub fn write_dst(&mut self, d: Dst, v: u8, cycles: u8) -> (r: Result<u8, Fault>)
        requires
            old(self).wf(),
        ensures
            final(self).wf(),
            old(self).put(*final(self), d, v, r, cycles),
    {
        match d {
            Dst::R(x) => {
                self.set_reg8(x, v);
                Ok(cycles)
            },
            Dst::AtHL => {
                let hl = self.get_hl();
                match self.mem_write_u8(hl, v) {
                    Ok(()) => Ok(cycles),
                    Err(e) => Err(e),
                }
            },
        }
    }

    pub fn exec_ld8(&mut self, d: Dst, s: Src, cycles: u8) -> (r: Result<u8, Fault>)
        requires
            old(self).wf(),
        ensures
            final(self).wf(),
            old(self).ld8(*final(self), r, d, s, cycles),
    {
        match self.read_operand(s) {
            Ok(v) => self.write_dst(d, v, cycles),
            Err(e) => Err(e),
        }
    }

    pub fn exec_alu(&mut self, op: AluOp, s: Src, cycles: u8) -> (r: Result<u8, Fault>)
        requires
            old(self).wf(),
        ensures
            final(self).wf(),
            old(self).alu(*final(self), r, op, s, cycles),
    {
        match self.read_operand(s) {
            Ok(v) => {
                let (a, f) = alu_compute(op, self.a, v, self.status);
                self.a = a;
                self.status = f;
                Ok(cycles)
            },
            Err(e) => Err(e),
        }
    }

    pub fn exec_rmw(&mut self, op: Unary, d: Dst, cycles: u8) -> (r: Result<u8, Fault>)
        requires
            old(self).wf(),
            unary_ok(op),
        ensures
            final(self).wf(),
            old(self).rmw(*final(self), r, op, d, cycles),
    {
        let s = match d {
            Dst::R(x) => Src::R(x),
            Dst::AtHL => Src::AtHL,
        };
        match self.read_operand(s) {
            Ok(v) => {
                let (res, f) = unary_compute(op, v, self.status);
                self.status = f;
                self.write_dst(d, res, cycles)
            },
            Err(e) => Err(e),
        }
    }

    pub fn exec_bit(&mut self, b: u8, s: Src, cycles: u8) -> (r: Result<u8, Fault>)
        requires
            old(self).wf(),
            b < 8,
        ensures
            final(self).wf(),
            old(self).bit_test(*final(self), r, b, s, cycles),
    {
        match self.read_operand(s) {
            Ok(v) => {
                let c = self.status.c;
                self.set_flags((v & (1u8 << b)) == 0, false, true, c);
                Ok(cycles)
            },
            Err(e) => Err(e),
        }
    }

    pub fn exec_rot_a(&mut self, op: Unary) -> (r: Result<u8, Fault>)
        requires
            old(self).wf(),
            unary_ok(op),
        ensures
            final(self).wf(),
            old(self).rot_a(*final(self), r, op),
    {
        let (res, f) = unary_compute(op, self.a, self.status);
        self.a = res;
        self.set_flags(false, false, false, f.c);
        Ok(4)
    }

    fn resolve_addr(&self, m: Addr) -> (r: Result<u16, Fault>)
        requires
            self.wf(),
        ensures
            r == self.address(m),
    {
        match m {
            Addr::BC => Ok(self.get_bc()),
            Addr::DE => Ok(self.get_de()),
            Addr::HLInc => Ok(self.get_hl()),
            Addr::HLDec => Ok(self.get_hl()),
            Addr::HighImm => match self.mem_read_u8(self.program_counter) {
                Ok(v) => Ok(0xFF00 + v as u16),
                Err(e) => Err(e),
            },
            Addr::HighC => Ok(0xFF00 + self.c as u16),
            Addr::Abs => self.mem_read_u16(self.program_counter),
        }
    }

    fn apply_addr_step(&mut self, m: Addr)
        ensures
            *final(self) == old(self).after_addr(m),
    {
        match m {
            Addr::HLInc => {
                let hl = self.get_hl();
                self.set_hl(hl.wrapping_add(1));
            },
            Addr::HLDec => {
                let hl = self.get_hl();
                self.set_hl(hl.wrapping_sub(1));
            },
            _ => {},
        }
    }

    pub fn exec_ld_a_from(&mut self, m: Addr, cycles: u8) -> (r: Result<u8, Fault>)
        requires
            old(self).wf(),
        ensures
            final(self).wf(),
            old(self).ld_a_from(*final(self), r, m, cycles),
    {
        let a = match self.resolve_addr(m) {
            Ok(a) => a,
            Err(e) => return Err(e),
        };
        let v = match self.mem_read_u8(a) {
            Ok(v) => v,
            Err(e) => return Err(e),
        };
        self.apply_addr_step(m);
        self.a = v;
        Ok(cycles)
    }

    pub fn exec_ld_a_to(&mut self, m: Addr, cycles: u8) -> (r: Result<u8, Fault>)
        requires
            old(self).wf(),
        ensures
            final(self).wf(),
            old(self).ld_a_to(*final(self), r, m, cycles),
    {
        let a = match self.resolve_addr(m) {
            Ok(a) => a,
            Err(e) => return Err(e),
        };
        let v = self.a;
        match self.mem_write_u8(a, v) {
            Ok(()) => {},
            Err(e) => return Err(e),
        }
        self.apply_addr_step(m);
        Ok(cycles)
    }

    pub fn exec_ld16_imm(&mut self, rr: Reg16) -> (r: Result<u8, Fault>)
        requires
            old(self).wf(),
        ensures
            final(self).wf(),
            old(self).ld16_imm(*final(self), r, rr),
    {
        match self.mem_read_u16(self.program_counter) {
            Ok(v) => {
                self.set_reg16(rr, v);
                Ok(12)
            },
            Err(e) => Err(e),
        }
    }

    pub fn exec_inc16(&mut self, rr: Reg16) -> (r: Result<u8, Fault>)
        requires
            old(self).wf(),
        ensures
            final(self).wf(),
            old(self).step16(*final(self), r, rr, 1),
    {
        let v = self.get_reg16(rr);
        self.set_reg16(rr, v.wrapping_add(1));
        Ok(8)
    }

    pub fn exec_dec16(&mut self, rr: Reg16) -> (r: Result<u8, Fault>)
        requires
            old(self).wf(),
        ensures
            final(self).wf(),
            old(self).step16(*final(self), r, rr, -1),
    {
        let v = self.get_reg16(rr);
        self.set_reg16(rr, v.wrapping_sub(1));
        Ok(8)
    }

    pub fn exec_add_hl(&mut self, rr: Reg16) -> (r: Result<u8, Fault>)
        requires
            old(self).wf(),
        ensures
            final(self).wf(),
            old(self).add_hl(*final(self), r, rr),
    {
        let x = self.get_hl();
        let y = self.get_reg16(rr);
        let (res, h, c, _) = add_u16(x, y, false);
        self.set_hl(res);
        let z = self.status.z;
        self.set_flags(z, false, h, c);
        Ok(8)
    }

    pub fn exec_store_sp(&mut self) -> (r: Result<u8, Fault>)
        requires
            old(self).wf(),
        ensures
            final(self).wf(),
            old(self).store_sp(*final(self), r),
    {
        let a = match self.mem_read_u16(self.program_counter) {
            Ok(a) => a,
            Err(e) => return Err(e),
        };
        let sp = self.stack_pointer;
        match self.mem_write_u16(a, sp) {
            Ok(()) => Ok(20),
            Err(e) => Err(e),
        }
    }

    pub fn exec_sp_offset(&mut self, to_hl: bool) -> (r: Result<u8, Fault>)
        requires
            old(self).wf(),
        ensures
            final(self).wf(),
            old(self).sp_offset(*final(self), r, to_hl),
    {
        let d = match self.mem_read_u8(self.program_counter) {
            Ok(d) => d,
            Err(e) => return Err(e),
        };
        let (res, h, c, _) = add_u16_signed(self.stack_pointer, d, false);
        if to_hl {
            self.set_hl(res);
            self.set_flags(false, false, h, c);
            Ok(12)
        } else {
            self.stack_pointer = res;
            self.set_flags(false, false, h, c);
            Ok(16)
        }
    }

    pub fn exec_push(&mut self, rr: Reg16) -> (r: Result<u8, Fault>)
        requires
            old(self).wf(),
        ensures
            final(self).wf(),
            old(self).push_op(*final(self), r, rr),
    {
        let v = self.get_reg16(rr);
        match self.stack_push(v) {
            Ok(()) => Ok(16),
            Err(e) => Err(e),
        }
    }

    pub fn exec_pop(&mut self, rr: Reg16) -> (r: Result<u8, Fault>)
        requires
            old(self).wf(),
        ensures
            final(self).wf(),
            old(self).pop_op(*final(self), r, rr),
    {
        match self.stack_pop() {
            Ok(v) => {
                self.set_reg16(rr, v);
                Ok(12)
            },
            Err(e) => Err(e),
        }
    }

    /// The relative jump that the byte after the opcode gives, taken when `c` holds.
    pub fn cpu_jr(&mut self, c: Cond) -> (r: Result<u8, Fault>)
        requires
            old(self).wf(),
        ensures
            final(self).wf(),
            old(self).jr(*final(self), r, c),
    {
        let d = match self.mem_read_u8(self.program_counter) {
            Ok(d) => d,
            Err(e) => return Err(e),
        };
        if cond_check(c, self.status) {
            let next = self.program_counter.wrapping_add(1);
            self.program_counter = next.wrapping_add(signed(d));
            Ok(12)
        } else {
            self.program_counter = self.program_counter.wrapping_add(1);
            Ok(8)
        }
    }

    pub fn exec_jp(&mut self, c: Cond) -> (r: Result<u8, Fault>)
        requires
            old(self).wf(),
        ensures
            final(self).wf(),
            old(self).jp(*final(self), r, c),
    {
        let t = match self.mem_read_u16(self.program_counter) {
            Ok(t) => t,
            Err(e) => return Err(e),
        };
        if cond_check(c, self.status) {
            self.program_counter = t;
            Ok(16)
        } else {
            self.program_counter = self.program_counter.wrapping_add(2);
            Ok(12)
        }
    }

    pub fn exec_call(&mut self, c: Cond) -> (r: Result<u8, Fault>)
        requires
            old(self).wf(),
        ensures
            final(self).wf(),
            old(self).call(*final(self), r, c),
    {
        let t = match self.mem_read_u16(self.program_counter) {
            Ok(t) => t,
            Err(e) => return Err(e),
        };
        let next = self.program_counter.wrapping_add(2);
        if cond_check(c, self.status) {
            match self.stack_push(next) {
                Ok(()) => {},
                Err(e) => return Err(e),
            }
            self.program_counter = t;
            Ok(24)
        } else {
            self.program_counter = next;
            Ok(12)
        }
    }

    pub fn exec_ret(&mut self, c: Cond, cycles: u8, reti: bool) -> (r: Result<u8, Fault>)
        requires
            old(self).wf(),
        ensures
            final(self).wf(),
            old(self).ret(*final(self), r, c, cycles, reti),
    {
        if !cond_check(c, self.status) {
            return Ok(8);
        }
        match self.stack_pop() {
            Ok(v) => {
                self.program_counter = v;
                if reti {
                    self.ime = true;
                }
                Ok(cycles)
            },
            Err(e) => Err(e),
        }
    }

    pub fn exec_rst(&mut self, t: u16) -> (r: Result<u8, Fault>)
        requires
            old(self).wf(),
        ensures
            final(self).wf(),
            old(self).rst(*final(self), r, t),
    {
        let pc = self.program_counter;
        match self.stack_push(pc) {
            Ok(()) => {},
            Err(e) => return Err(e),
        }
        self.program_counter = t;
        Ok(16)
    }
}

} // verus!
