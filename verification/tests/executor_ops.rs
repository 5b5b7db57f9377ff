use chip8::decoder::Op;
use chip8::executor::Flow;
use chip8::machine::Machine;

fn mk_machine() -> Machine {
    Machine::with_image(&Vec::new()).unwrap()
}

#[test]
fn add_reg_carry_wraps() {
    let mut m = mk_machine();
    m.regs.v[0] = 0xFF;
    m.regs.v[1] = 0x01;
    let r = m.execute(Op::AddReg { x: 0, y: 1 }, 0);
    assert_eq!(r, Ok(Flow::Next));
    assert_eq!(m.regs.v[0], 0x00);
    assert_eq!(m.regs.v[0xF], 1);
    assert_eq!(m.regs.pc, 0x202);
}

#[test]
fn add_reg_no_carry() {
    let mut m = mk_machine();
    m.regs.v[0] = 0x01;
    m.regs.v[1] = 0x01;
    let r = m.execute(Op::AddReg { x: 0, y: 1 }, 0);
    assert_eq!(r, Ok(Flow::Next));
    assert_eq!(m.regs.v[0], 0x02);
    assert_eq!(m.regs.v[0xF], 0);
}

#[test]
fn sub_with_borrow_wraps() {
    let mut m = mk_machine();
    m.regs.v[0] = 0x05;
    m.regs.v[1] = 0x0A;
    let r = m.execute(Op::SubReg { x: 0, y: 1 }, 0);
    assert_eq!(r, Ok(Flow::Next));
    assert_eq!(m.regs.v[0], 0xFB);
    assert_eq!(m.regs.v[0xF], 0);
}

#[test]
fn sub_without_borrow() {
    let mut m = mk_machine();
    m.regs.v[0] = 0x0A;
    m.regs.v[1] = 0x05;
    let r = m.execute(Op::SubReg { x: 0, y: 1 }, 0);
    assert_eq!(r, Ok(Flow::Next));
    assert_eq!(m.regs.v[0], 0x05);
    assert_eq!(m.regs.v[0xF], 1);
}

#[test]
fn subn_reverses_operands() {
    let mut m = mk_machine();
    m.regs.v[0] = 0x05;
    m.regs.v[1] = 0x0A;
    let r = m.execute(Op::SubnReg { x: 0, y: 1 }, 0);
    assert_eq!(r, Ok(Flow::Next));
    assert_eq!(m.regs.v[0], 0x05);
    assert_eq!(m.regs.v[0xF], 1);
}

#[test]
fn shr_reports_lsb() {
    let mut m = mk_machine();
    m.regs.v[3] = 0x03;
    let r = m.execute(Op::Shr { x: 3 }, 0);
    assert_eq!(r, Ok(Flow::Next));
    assert_eq!(m.regs.v[3], 0x01);
    assert_eq!(m.regs.v[0xF], 1);
}

#[test]
fn shl_reports_msb() {
    let mut m = mk_machine();
    m.regs.v[2] = 0x81;
    let r = m.execute(Op::Shl { x: 2 }, 0);
    assert_eq!(r, Ok(Flow::Next));
    assert_eq!(m.regs.v[2], 0x02);
    assert_eq!(m.regs.v[0xF], 1);
}

#[test]
fn add_imm_wraps_without_flag() {
    let mut m = mk_machine();
    m.regs.v[4] = 0xF0;
    m.regs.v[0xF] = 0;
    let r = m.execute(Op::AddImm { x: 4, kk: 0x20 }, 0);
    assert_eq!(r, Ok(Flow::Next));
    assert_eq!(m.regs.v[4], 0x10);
    assert_eq!(m.regs.v[0xF], 0);
}

#[test]
fn bitwise_ops_combine() {
    let mut m = mk_machine();
    m.regs.v[0] = 0b1100;
    m.regs.v[1] = 0b1010;
    m.execute(Op::OrReg { x: 0, y: 1 }, 0).unwrap();
    assert_eq!(m.regs.v[0], 0b1110);
    m.regs.v[0] = 0b1100;
    m.execute(Op::AndReg { x: 0, y: 1 }, 0).unwrap();
    assert_eq!(m.regs.v[0], 0b1000);
    m.regs.v[0] = 0b1100;
    m.execute(Op::XorReg { x: 0, y: 1 }, 0).unwrap();
    assert_eq!(m.regs.v[0], 0b0110);
}

#[test]
fn ld_imm_and_ld_reg() {
    let mut m = mk_machine();
    m.execute(Op::LdImm { x: 7, kk: 0x42 }, 0).unwrap();
    assert_eq!(m.regs.v[7], 0x42);
    m.execute(Op::LdReg { x: 2, y: 7 }, 0).unwrap();
    assert_eq!(m.regs.v[2], 0x42);
}

#[test]
fn bcd_stores_decimal_digits() {
    let mut m = mk_machine();
    m.regs.v[2] = 234;
    m.regs.i = 0x300;
    let r = m.execute(Op::LdBcd { x: 2 }, 0);
    assert_eq!(r, Ok(Flow::Next));
    assert_eq!(m.ram.memory[0x300], 2);
    assert_eq!(m.ram.memory[0x301], 3);
    assert_eq!(m.ram.memory[0x302], 4);
}

#[test]
fn se_imm_advances_four_when_satisfied() {
    let mut m = mk_machine();
    m.regs.v[0] = 0x33;
    m.execute(Op::SeImm { x: 0, kk: 0x33 }, 0).unwrap();
    assert_eq!(m.regs.pc, 0x204);
}

#[test]
fn se_imm_advances_two_when_not_satisfied() {
    let mut m = mk_machine();
    m.regs.v[0] = 0x33;
    m.execute(Op::SeImm { x: 0, kk: 0x34 }, 0).unwrap();
    assert_eq!(m.regs.pc, 0x202);
}

#[test]
fn sne_imm_skips() {
    let mut m = mk_machine();
    m.regs.v[0] = 0x33;
    m.execute(Op::SneImm { x: 0, kk: 0x34 }, 0).unwrap();
    assert_eq!(m.regs.pc, 0x204);
    let mut m2 = mk_machine();
    m2.regs.v[0] = 0x34;
    m2.execute(Op::SneImm { x: 0, kk: 0x34 }, 0).unwrap();
    assert_eq!(m2.regs.pc, 0x202);
}

#[test]
fn se_and_sne_reg_skip() {
    let mut m = mk_machine();
    m.regs.v[0] = 9;
    m.regs.v[1] = 9;
    m.execute(Op::SeReg { x: 0, y: 1 }, 0).unwrap();
    assert_eq!(m.regs.pc, 0x204);
    let mut m2 = mk_machine();
    m2.regs.v[0] = 9;
    m2.regs.v[1] = 8;
    m2.execute(Op::SneReg { x: 0, y: 1 }, 0).unwrap();
    assert_eq!(m2.regs.pc, 0x204);
    let mut m3 = mk_machine();
    m3.regs.v[0] = 9;
    m3.regs.v[1] = 9;
    m3.execute(Op::SneReg { x: 0, y: 1 }, 0).unwrap();
    assert_eq!(m3.regs.pc, 0x202);
}

#[test]
fn skp_and_sknp_follow_key_state() {
    let mut m = mk_machine();
    m.regs.v[0] = 0x5;
    m.keys[0x5] = true;
    m.execute(Op::Skp { x: 0 }, 0).unwrap();
    assert_eq!(m.regs.pc, 0x204);
    let mut m2 = mk_machine();
    m2.regs.v[0] = 0x5;
    m2.execute(Op::Skp { x: 0 }, 0).unwrap();
    assert_eq!(m2.regs.pc, 0x202);
    let mut m3 = mk_machine();
    m3.regs.v[0] = 0x5;
    m3.execute(Op::Sknp { x: 0 }, 0).unwrap();
    assert_eq!(m3.regs.pc, 0x204);
    let mut m4 = mk_machine();
    m4.regs.v[0] = 0x5;
    m4.keys[0x5] = true;
    m4.execute(Op::Sknp { x: 0 }, 0).unwrap();
    assert_eq!(m4.regs.pc, 0x202);
}

#[test]
fn rnd_masks_the_drawn_byte() {
    let mut m = mk_machine();
    let r = m.execute(Op::Rnd { x: 0, kk: 0x0F }, 0xAB);
    assert_eq!(r, Ok(Flow::Next));
    assert_eq!(m.regs.v[0], 0x0B);
}

#[test]
fn ld_i_and_jp_targets() {
    let mut m = mk_machine();
    m.execute(Op::LdI { nnn: 0x123 }, 0).unwrap();
    assert_eq!(m.regs.i, 0x123);
    m.execute(Op::Jp { nnn: 0x400 }, 0).unwrap();
    assert_eq!(m.regs.pc, 0x400);
    m.regs.v[0] = 0x10;
    m.execute(Op::JpV0 { nnn: 0x300 }, 0).unwrap();
    assert_eq!(m.regs.pc, 0x310);
}

#[test]
fn timer_loads_move_both_ways() {
    let mut m = mk_machine();
    m.regs.delay_timer = 42;
    m.execute(Op::LdVxDt { x: 1 }, 0).unwrap();
    assert_eq!(m.regs.v[1], 42);
    m.regs.v[2] = 7;
    m.execute(Op::LdDtVx { x: 2 }, 0).unwrap();
    assert_eq!(m.regs.delay_timer, 7);
    m.regs.v[3] = 9;
    m.execute(Op::LdStVx { x: 3 }, 0).unwrap();
    assert_eq!(m.regs.sound_timer, 9);
}

#[test]
fn add_i_accumulates() {
    let mut m = mk_machine();
    m.regs.i = 0x100;
    m.regs.v[0] = 0x20;
    m.execute(Op::AddI { x: 0 }, 0).unwrap();
    assert_eq!(m.regs.i, 0x120);
}

#[test]
fn ld_font_points_at_glyph() {
    let mut m = mk_machine();
    m.regs.v[0] = 0xA;
    m.execute(Op::LdFont { x: 0 }, 0).unwrap();
    assert_eq!(m.regs.i, 50);
}

#[test]
fn store_and_load_registers_are_inclusive() {
    let mut m = mk_machine();
    for k in 0..4 {
        m.regs.v[k] = (k as u8) + 1;
    }
    m.regs.i = 0x320;
    m.execute(Op::StRegs { x: 3 }, 0).unwrap();
    assert_eq!(m.ram.memory[0x320], 1);
    assert_eq!(m.ram.memory[0x321], 2);
    assert_eq!(m.ram.memory[0x322], 3);
    assert_eq!(m.ram.memory[0x323], 4);
    assert_eq!(m.ram.memory[0x324], 0);

    let mut m2 = mk_machine();
    m2.regs.i = 0x320;
    m2.ram.memory[0x320] = 9;
    m2.ram.memory[0x321] = 8;
    m2.regs.v[2] = 0x55;
    m2.execute(Op::LdRegs { x: 1 }, 0).unwrap();
    assert_eq!(m2.regs.v[0], 9);
    assert_eq!(m2.regs.v[1], 8);
    assert_eq!(m2.regs.v[2], 0x55);
}

#[test]
fn ld_vx_key_requests_await() {
    let mut m = mk_machine();
    let r = m.execute(Op::LdVxKey { x: 6 }, 0);
    assert_eq!(r, Ok(Flow::AwaitKey { x: 6 }));
    assert_eq!(m.regs.pc, 0x202);
}

#[test]
fn unknown_opcode_is_a_noop_step() {
    let mut m = mk_machine();
    let r = m.execute(Op::Unknown { byte1: 0x0F, byte2: 0x0F }, 0);
    assert_eq!(r, Ok(Flow::Next));
    assert_eq!(m.regs.pc, 0x202);
    assert_eq!(m.regs.v, vec![0u8; 16]);
}
