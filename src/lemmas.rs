//! Laws that relate several operations of the machine.
use crate::alu::add8;
use crate::cartridge::byte_or_zero;
use crate::cartridge::MBC;
use crate::opcodes::base_len;
use crate::cartridge::mbc1::{low_bank_bits, MBC1, RAM_ENABLE_SENTINEL};
use crate::cpu::{hi_byte, lo_byte, pair, stack_ok, wrap16, Fault, Reg16, CPU};
use crate::instructions::executes_base;
use crate::mmu::MMU;
use vstd::prelude::*;

verus! {

/// Addresses whose storage keeps what is written there, whatever else is
/// written elsewhere: video RAM, the fixed half of work RAM, sprite memory,
/// high RAM and the interrupt-enable byte.
pub open spec fn plain_storage(addr: u16) -> bool {
    (0x8000 <= addr <= 0x9FFF) || (0xC000 <= addr <= 0xCFFF) || (0xFE00 <= addr <= 0xFE9F) || (
    0xFF80 <= addr)
}

/// Reading a plain storage address gives what was last written there.
pub proof fn lemma_read_after_write(pre: MMU, post: MMU, addr: u16, v: u8)
    requires
        pre.wf(),
        post.wrote(pre, addr, v),
        keeps_writes(addr),
    ensures
        post.read_spec(addr) == v,
{
}

/// A write leaves every other plain storage address as it was.
pub proof fn lemma_write_elsewhere(pre: MMU, post: MMU, addr: u16, v: u8, other: u16)
    requires
        pre.wf(),
        post.wrote(pre, addr, v),
        plain_storage(other),
        other != addr,
    ensures
        post.read_spec(other) == pre.read_spec(other),
{
}

/// A memory map at power-on reads 0 from every built-in RAM and from the
/// timer and interrupt-enable registers, and 1 from the work RAM bank register.
pub proof fn lemma_fresh_reads(m: MMU, a: u16)
    requires
        m.wf(),
        m.fresh(),
    ensures
        (0x8000 <= a <= 0x9FFF || 0xC000 <= a <= 0xDFFF || 0xFE00 <= a <= 0xFE9F || 0xFF04 <= a
            <= 0xFF07 || 0xFF80 <= a) ==> m.read_spec(a) == 0,
        m.read_spec(0xFF70) == 1,
{
}

/// Addresses whose storage keeps what is written there: plain storage and
/// the switchable half of work RAM.
pub open spec fn keeps_writes(addr: u16) -> bool {
    plain_storage(addr) || (0xD000 <= addr <= 0xDFFF)
}

/// Setting a register pair and reading it back gives the value, with the
/// high byte in the first register of the pair and the low byte in the second.
pub proof fn lemma_pair_round_trip(cpu: CPU, v: u16)
    ensures
        cpu.with_reg16(Reg16::BC, v).bc() == v,
        cpu.with_reg16(Reg16::BC, v).b == v / 256,
        cpu.with_reg16(Reg16::BC, v).c == v % 256,
        cpu.with_reg16(Reg16::DE, v).de() == v,
        cpu.with_reg16(Reg16::DE, v).d == v / 256,
        cpu.with_reg16(Reg16::DE, v).e == v % 256,
        cpu.with_reg16(Reg16::HL, v).hl() == v,
        cpu.with_reg16(Reg16::HL, v).h == v / 256,
        cpu.with_reg16(Reg16::HL, v).l == v % 256,
        cpu.with_reg16(Reg16::SP, v).stack_pointer == v,
{
}

/// Storing A through BC and loading A back through BC gives the byte that
/// A held, where BC addresses storage that keeps writes; BC and the flags
/// are left as they were.
pub proof fn lemma_store_load_through_bc(s0: CPU, s1: CPU, r1: Result<u8, Fault>, s2: CPU, r2: Result<u8, Fault>)
    requires
        s0.wf(),
        keeps_writes(s0.bc()),
        executes_base(0x02, s0, s1, r1),
        executes_base(0x0A, s1, s2, r2),
    ensures
        r1 == Ok::<u8, Fault>(8),
        r2 == Ok::<u8, Fault>(8),
        s2.a == s0.a,
        s2.bc() == s0.bc(),
        s2.status == s0.status,
{
    reveal(executes_base);
    lemma_read_after_write(s0.mmu, s1.mmu, s0.bc(), s0.a);
}

/// INC B: B plus one, Z from the result, N cleared, H from the low nibble, C kept.
pub proof fn lemma_inc_b(pre: CPU, post: CPU, r: Result<u8, Fault>)
    requires
        executes_base(0x04, pre, post, r),
    ensures
        r == Ok::<u8, Fault>(4),
        post.b == (pre.b + 1) % 256,
        post.status.z == (post.b == 0),
        post.status.h == (pre.b % 16 == 15),
        !post.status.n,
        post.status.c == pre.status.c,
{
    reveal(executes_base);
}

/// DEC B: B minus one, Z from the result, N set, H from the low nibble, C kept.
pub proof fn lemma_dec_b(pre: CPU, post: CPU, r: Result<u8, Fault>)
    requires
        executes_base(0x05, pre, post, r),
    ensures
        r == Ok::<u8, Fault>(4),
        post.b == (pre.b - 1) % 256,
        post.status.z == (post.b == 0),
        post.status.h == (pre.b % 16 == 0),
        post.status.n,
        post.status.c == pre.status.c,
{
    reveal(executes_base);
}

/// INC BC and DEC BC move BC by one, wrapping, and leave every flag alone.
pub proof fn lemma_step_bc_keeps_flags(pre: CPU, post_inc: CPU, ri: Result<u8, Fault>, post_dec: CPU, rd: Result<u8, Fault>)
    requires
        executes_base(0x03, pre, post_inc, ri),
        executes_base(0x0B, pre, post_dec, rd),
    ensures
        post_inc.status == pre.status,
        post_dec.status == pre.status,
        post_inc.bc() == wrap16(pre.bc() as int, 1),
        post_dec.bc() == wrap16(pre.bc() as int, -1),
{
    reveal(executes_base);
}

/// A push followed by a pop gives back the pushed value and restores the
/// stack pointer, when the pointer started inside the stack window.
pub proof fn lemma_push_pop(s0: CPU, s1: CPU, v: u16)
    requires
        s0.wf(),
        stack_ok(s0.stack_pointer as int),
        s0.pushed(s1, v, Ok(())),
    ensures
        s1.stack_pointer == s0.stack_pointer - 2,
        s1.popped() == Ok::<u16, Fault>(v),
        (s1.stack_pointer + 2) as u16 == s0.stack_pointer,
{
    let sp = s1.stack_pointer;
    let mid = choose|mid: MMU|
        #[trigger] mid.wrote(s0.mmu, sp, lo_byte(v)) && s1.mmu.wrote(
            mid,
            wrap16(sp as int, 1),
            hi_byte(v),
        );
    lemma_read_after_write(s0.mmu, mid, sp, lo_byte(v));
    lemma_read_after_write(mid, s1.mmu, wrap16(sp as int, 1), hi_byte(v));
    lemma_write_elsewhere(mid, s1.mmu, wrap16(sp as int, 1), hi_byte(v), sp);
    assert(pair(hi_byte(v), lo_byte(v)) == v);
}

/// A pop whose stack pointer would pass the top of the stack window is a fault.
pub proof fn lemma_pop_past_top(s: CPU)
    requires
        s.stack_pointer + 2 > 0xFFFE,
    ensures
        s.popped() is Err,
        s.load16(s.stack_pointer) is Ok ==> s.popped() == Err::<u16, Fault>(Fault::StackUnderflow),
{
}

/// On the combo controller, a write to 0x2000..=0x3FFF selects the bank that
/// its low five bits name, 1 for 0, when the upper bank bits are clear; the
/// switchable window then shows that bank.
pub proof fn lemma_rom_bank_select(pre: MBC1, post: MBC1, addr: u16, data: u8)
    requires
        pre.wf(),
        pre.rom_bank_idx < 32,
        0x2000 <= addr <= 0x3FFF,
        post.after_control_write(pre, addr, data),
    ensures
        post.rom_bank_idx == low_bank_bits(data),
        data == 0 ==> post.rom_bank_idx == 1,
        post.rom_byte(0x4000) == byte_or_zero(post.rom@, post.rom_bank_idx * 0x4000),
{
}

/// On the combo controller, a write to 0x0000..=0x1FFF of anything but the
/// enable value leaves RAM disabled: every RAM read gives 0 and every RAM
/// write leaves the RAM as it is.
pub proof fn lemma_ram_gate(pre: MBC1, post: MBC1, addr: u16, data: u8)
    requires
        pre.wf(),
        addr <= 0x1FFF,
        data != RAM_ENABLE_SENTINEL,
        post.after_control_write(pre, addr, data),
    ensures
        !post.ram_enabled,
        forall|a: u16| 0xA000 <= a <= 0xBFFF ==> #[trigger] post.ram_byte(a) == 0,
        forall|after: MBC1, a: u16, v: u8| #[trigger] after.after_ram_write(post, a, v) ==> after.ram@
            == post.ram@,
{
}

/// The program `LD A,5; LD B,3; ADD A,B; STOP` placed at address 0 and run
/// from there with a budget of at least four steps stops cleanly at its
/// `STOP` with A = 8 and Z, H and C clear.
pub proof fn lemma_add_program(s0: CPU, post: CPU, budget: nat, r: Result<(), Fault>)
    requires
        s0.wf(),
        s0.program_counter == 0,
        !s0.stopped,
        match s0.mmu.mbc {
            MBC::Plain(m) => m.rom@ == seq![0x3Eu8, 0x05, 0x06, 0x03, 0x80, 0x10],
            _ => false,
        },
        budget >= 4,
        s0.ran(post, budget, r),
    ensures
        r == Ok::<(), Fault>(()),
        post.stopped,
        post.a == 8,
        post.b == 3,
        !post.status.z && !post.status.h && !post.status.c,
        post.program_counter == 6,
{
    reveal(executes_base);
    reveal(base_len);
    let rom = seq![0x3Eu8, 0x05, 0x06, 0x03, 0x80, 0x10];
    assert(rom[0] == 0x3E && rom[1] == 0x05 && rom[2] == 0x06 && rom[3] == 0x03);
    assert(rom[4] == 0x80 && rom[5] == 0x10);
    // LD A,5
    let (s1, t1) = choose|mid: CPU, s: Result<u8, Fault>|
        #[trigger] s0.stepped(mid, s) && match s {
            Err(e) => post == mid && r == Err::<(), Fault>(e),
            Ok(_) => mid.ran(post, (budget - 1) as nat, r),
        };
    assert(s0.fetched() == Ok::<u16, Fault>(0x3E));
    assert(t1 is Ok && s1.a == 5 && s1.program_counter == 2 && s1.mmu.mbc == s0.mmu.mbc && !s1.stopped);
    // LD B,3
    let (s2, t2) = choose|mid: CPU, s: Result<u8, Fault>|
        #[trigger] s1.stepped(mid, s) && match s {
            Err(e) => post == mid && r == Err::<(), Fault>(e),
            Ok(_) => mid.ran(post, (budget - 2) as nat, r),
        };
    assert(s1.fetched() == Ok::<u16, Fault>(0x06));
    assert(t2 is Ok && s2.a == 5 && s2.b == 3 && s2.program_counter == 4 && s2.mmu.mbc == s0.mmu.mbc
        && !s2.stopped);
    // ADD A,B
    let (s3, t3) = choose|mid: CPU, s: Result<u8, Fault>|
        #[trigger] s2.stepped(mid, s) && match s {
            Err(e) => post == mid && r == Err::<(), Fault>(e),
            Ok(_) => mid.ran(post, (budget - 3) as nat, r),
        };
    assert(s2.fetched() == Ok::<u16, Fault>(0x80));
    assert(add8(5, 3, false) == (8u8, false, false, false));
    assert(t3 is Ok && s3.a == 8 && s3.b == 3 && s3.program_counter == 5 && s3.mmu.mbc == s0.mmu.mbc
        && !s3.stopped && !s3.status.z && !s3.status.h && !s3.status.c);
    // STOP
    let (s4, t4) = choose|mid: CPU, s: Result<u8, Fault>|
        #[trigger] s3.stepped(mid, s) && match s {
            Err(e) => post == mid && r == Err::<(), Fault>(e),
            Ok(_) => mid.ran(post, (budget - 4) as nat, r),
        };
    assert(s3.fetched() == Ok::<u16, Fault>(0x10));
    assert(t4 is Ok && s4.stopped && s4.a == 8 && s4.b == 3 && s4.program_counter == 6);
    assert(!s4.status.z && !s4.status.h && !s4.status.c);
}

} // verus!
