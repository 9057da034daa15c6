use gbcore::cpu::{Fault, CPU};

fn cpu_with(program: Vec<u8>) -> CPU {
    let mut cpu = CPU::new_test();
    cpu.mmu.load_program(program);
    cpu
}

#[test]
fn pair_round_trip() {
    let mut cpu = CPU::new_test();
    cpu.set_bc(0x1234);
    assert_eq!(cpu.get_bc(), 0x1234);
    assert_eq!(cpu.get_b(), 0x12);
    assert_eq!(cpu.get_c(), 0x34);
    cpu.set_de(0xabcd);
    assert_eq!(cpu.get_de(), 0xabcd);
    assert_eq!(cpu.get_d(), 0xab);
    assert_eq!(cpu.get_e(), 0xcd);
    cpu.set_hl(0x00ff);
    assert_eq!(cpu.get_hl(), 0x00ff);
    assert_eq!(cpu.get_h(), 0x00);
    assert_eq!(cpu.get_l(), 0xff);
}

#[test]
fn af_drops_low_nibble() {
    let mut cpu = CPU::new_test();
    cpu.set_af(0x12ff);
    assert_eq!(cpu.get_a(), 0x12);
    assert_eq!(cpu.get_af(), 0x12f0);
    assert!(cpu.get_zf() && cpu.get_nf() && cpu.get_hf() && cpu.get_cf());
    cpu.set_af(0x3480);
    assert!(cpu.get_zf() && !cpu.get_nf() && !cpu.get_hf() && !cpu.get_cf());
}

#[test]
fn store_and_load_through_bc() {
    // LD (BC),A ; LD A,(BC)
    let mut cpu = cpu_with(vec![0x02, 0x0a]);
    cpu.set_bc(0xc123);
    cpu.set_a(0x5a);
    assert_eq!(cpu.step(), Ok(8));
    cpu.set_a(0);
    assert_eq!(cpu.step(), Ok(8));
    assert_eq!(cpu.get_a(), 0x5a);
    assert_eq!(cpu.mem_read_u8(0xc123), Ok(0x5a));
}

#[test]
fn inc_and_dec_b_flags() {
    // INC B ; DEC B ; DEC B
    let mut cpu = cpu_with(vec![0x04, 0x05, 0x05]);
    cpu.set_b(0x0f);
    cpu.set_flags(false, true, false, true);
    assert_eq!(cpu.step(), Ok(4));
    assert_eq!(cpu.get_b(), 0x10);
    assert!(!cpu.get_zf() && !cpu.get_nf() && cpu.get_hf() && cpu.get_cf());
    assert_eq!(cpu.step(), Ok(4));
    assert_eq!(cpu.get_b(), 0x0f);
    assert!(!cpu.get_zf() && cpu.get_nf() && cpu.get_hf() && cpu.get_cf());
    cpu.set_b(1);
    cpu.set_flags(false, false, false, false);
    assert_eq!(cpu.step(), Ok(4));
    assert_eq!(cpu.get_b(), 0);
    assert!(cpu.get_zf() && cpu.get_nf() && !cpu.get_hf() && !cpu.get_cf());
}

#[test]
fn inc_b_wraps_to_zero() {
    let mut cpu = cpu_with(vec![0x04]);
    cpu.set_b(0xff);
    assert_eq!(cpu.step(), Ok(4));
    assert_eq!(cpu.get_b(), 0);
    assert!(cpu.get_zf() && cpu.get_hf() && !cpu.get_nf() && !cpu.get_cf());
}

#[test]
fn inc_dec_bc_keep_flags() {
    // INC BC ; DEC BC ; DEC BC
    let mut cpu = cpu_with(vec![0x03, 0x0b, 0x0b]);
    cpu.set_bc(0xffff);
    cpu.set_flags(true, false, true, false);
    assert_eq!(cpu.step(), Ok(8));
    assert_eq!(cpu.get_bc(), 0x0000);
    assert!(cpu.get_zf() && !cpu.get_nf() && cpu.get_hf() && !cpu.get_cf());
    assert_eq!(cpu.step(), Ok(8));
    assert_eq!(cpu.get_bc(), 0xffff);
    assert_eq!(cpu.step(), Ok(8));
    assert_eq!(cpu.get_bc(), 0xfffe);
    assert!(cpu.get_zf() && !cpu.get_nf() && cpu.get_hf() && !cpu.get_cf());
}

#[test]
fn push_pop_round_trip() {
    let mut cpu = CPU::new_test();
    cpu.set_sp(0xfffe);
    assert_eq!(cpu.stack_push(0x1234), Ok(()));
    assert_eq!(cpu.get_sp(), 0xfffc);
    assert_eq!(cpu.stack_pop(), Ok(0x1234));
    assert_eq!(cpu.get_sp(), 0xfffe);
}

#[test]
fn pop_past_top_is_fatal() {
    let mut cpu = CPU::new_test();
    cpu.set_sp(0xfffe);
    assert_eq!(cpu.stack_pop(), Err(Fault::StackUnderflow));
}

#[test]
fn push_below_window_is_fatal() {
    let mut cpu = CPU::new_test();
    cpu.set_sp(0xff80);
    assert_eq!(cpu.stack_push(0x1234), Err(Fault::StackOverflow));
    assert_eq!(cpu.get_sp(), 0xff80);
}

#[test]
fn pc_advances_by_length() {
    // LD BC,0x1234 (3) ; LD B,7 (2) ; NOP (1) ; SWAP A (2, extended page)
    let mut cpu = cpu_with(vec![0x01, 0x34, 0x12, 0x06, 0x07, 0x00, 0xcb, 0x37]);
    cpu.set_a(0xa5);
    assert_eq!(cpu.step(), Ok(12));
    assert_eq!(cpu.program_counter, 3);
    assert_eq!(cpu.get_bc(), 0x1234);
    assert_eq!(cpu.step(), Ok(8));
    assert_eq!(cpu.program_counter, 5);
    assert_eq!(cpu.get_b(), 7);
    assert_eq!(cpu.step(), Ok(4));
    assert_eq!(cpu.program_counter, 6);
    assert_eq!(cpu.step(), Ok(8));
    assert_eq!(cpu.program_counter, 8);
    assert_eq!(cpu.get_a(), 0x5a);
}

#[test]
fn jumps_set_the_program_counter() {
    // JR +2 ; (skipped 2 bytes) ; JP 0x0010 ; ... at 0x10: CALL 0x0020 ; at 0x20: RET
    let mut program = vec![0u8; 0x30];
    program[0] = 0x18;
    program[1] = 0x02;
    program[4] = 0xc3;
    program[5] = 0x10;
    program[6] = 0x00;
    program[0x10] = 0xcd;
    program[0x11] = 0x20;
    program[0x12] = 0x00;
    program[0x20] = 0xc9;
    let mut cpu = cpu_with(program);
    cpu.set_sp(0xfffe);
    assert_eq!(cpu.step(), Ok(12));
    assert_eq!(cpu.program_counter, 4);
    assert_eq!(cpu.step(), Ok(16));
    assert_eq!(cpu.program_counter, 0x10);
    assert_eq!(cpu.step(), Ok(24));
    assert_eq!(cpu.program_counter, 0x20);
    assert_eq!(cpu.get_sp(), 0xfffc);
    assert_eq!(cpu.step(), Ok(16));
    assert_eq!(cpu.program_counter, 0x13);
    assert_eq!(cpu.get_sp(), 0xfffe);
}

#[test]
fn conditional_branch_not_taken_costs_less() {
    // JR NZ,+5 with Z set: falls through
    let mut cpu = cpu_with(vec![0x20, 0x05]);
    cpu.set_flags(true, false, false, false);
    assert_eq!(cpu.step(), Ok(8));
    assert_eq!(cpu.program_counter, 2);
}

#[test]
fn logic_ops_flags() {
    // AND B ; OR C ; XOR A ; CP D
    let mut cpu = cpu_with(vec![0xa0, 0xb1, 0xaf, 0xba]);
    cpu.set_a(0xf0);
    cpu.set_b(0x3c);
    cpu.set_c(0x01);
    cpu.set_d(0x01);
    cpu.set_flags(false, false, false, true);
    cpu.step().unwrap();
    assert_eq!(cpu.get_a(), 0x30);
    assert!(!cpu.get_zf() && !cpu.get_nf() && cpu.get_hf() && !cpu.get_cf());
    cpu.step().unwrap();
    assert_eq!(cpu.get_a(), 0x31);
    assert!(!cpu.get_zf() && !cpu.get_hf() && !cpu.get_cf());
    cpu.step().unwrap();
    assert_eq!(cpu.get_a(), 0);
    assert!(cpu.get_zf());
    cpu.step().unwrap();
    assert_eq!(cpu.get_a(), 0);
    assert!(!cpu.get_zf() && cpu.get_nf() && cpu.get_hf() && cpu.get_cf());
}

#[test]
fn sp_relative_load_clears_zero() {
    // LD HL,SP+0 with SP = 0: result 0 but Z stays clear
    let mut cpu = cpu_with(vec![0xf8, 0x00]);
    cpu.set_flags(true, true, false, false);
    assert_eq!(cpu.step(), Ok(12));
    assert_eq!(cpu.get_hl(), 0);
    assert!(!cpu.get_zf() && !cpu.get_nf());
}

#[test]
fn daa_after_addition() {
    // ADD A,B ; DAA: 0x15 + 0x27 = 0x3C -> 0x42
    let mut cpu = cpu_with(vec![0x80, 0x27]);
    cpu.set_a(0x15);
    cpu.set_b(0x27);
    cpu.step().unwrap();
    cpu.step().unwrap();
    assert_eq!(cpu.get_a(), 0x42);
    assert!(!cpu.get_cf() && !cpu.get_zf());
}

#[test]
fn illegal_opcode_is_fatal() {
    let mut cpu = cpu_with(vec![0xd3]);
    assert_eq!(cpu.step(), Err(Fault::IllegalOpcode(0xd3)));
}

#[test]
fn prohibited_region_is_fatal() {
    let mut cpu = cpu_with(vec![0x02]);
    cpu.set_bc(0xe000);
    assert_eq!(cpu.step(), Err(Fault::Prohibited(0xe000)));
    assert_eq!(cpu.mem_read_u8(0xfea0), Err(Fault::Prohibited(0xfea0)));
    assert_eq!(cpu.mem_write_u8(0xfdff, 1), Err(Fault::Prohibited(0xfdff)));
}

#[test]
fn little_endian_words() {
    let mut cpu = CPU::new_test();
    assert_eq!(cpu.mem_write_u16(0xc000, 0xbeef), Ok(()));
    assert_eq!(cpu.mem_read_u8(0xc000), Ok(0xef));
    assert_eq!(cpu.mem_read_u8(0xc001), Ok(0xbe));
    assert_eq!(cpu.mem_read_u16(0xc000), Ok(0xbeef));
}

#[test]
fn load_and_run_add_program() {
    let mut cpu = CPU::new_test();
    assert_eq!(cpu.load_and_run(vec![0x3e, 0x05, 0x06, 0x03, 0x80, 0x10]), Ok(()));
    assert_eq!(cpu.get_a(), 8);
    assert!(!cpu.get_zf());
    assert!(!cpu.get_cf());
    assert!(!cpu.get_hf());
    assert!(cpu.stopped);
    assert_eq!(cpu.program_counter, 6);
}

#[test]
fn runaway_program_hits_step_budget() {
    // JR -2: loops forever
    let mut cpu = CPU::new_test();
    assert_eq!(cpu.load_and_run(vec![0x18, 0xfe]), Err(Fault::StepLimit));
}
