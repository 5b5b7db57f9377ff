use chip8::decoder::Op;
use chip8::executor::Fault;
use chip8::executor::Flow;
use chip8::machine::Machine;
use chip8::CHIP8_WIDTH;

fn fresh_machine() -> Machine {
    Machine::with_image(&Vec::new()).unwrap()
}

#[test]
fn call_then_ret_round_trips_pc() {
    let mut m = fresh_machine();
    assert_eq!(m.regs.pc, 0x200);
    m.execute(Op::Call { nnn: 0x300 }, 0).unwrap();
    assert_eq!(m.regs.pc, 0x300);
    assert_eq!(m.stack.frames.len(), 1);
    m.execute(Op::Ret, 0).unwrap();
    assert_eq!(m.regs.pc, 0x202);
    assert_eq!(m.stack.frames.len(), 0);
}

#[test]
fn ret_on_empty_stack_is_fatal_and_mutates_nothing() {
    let mut m = fresh_machine();
    let r = m.execute(Op::Ret, 0);
    assert_eq!(r, Err(Fault::StackUnderflow { pc: 0x200 }));
    assert_eq!(m.regs.pc, 0x200);
    assert_eq!(m.stack.frames.len(), 0);
}

#[test]
fn call_on_full_stack_is_fatal() {
    let mut m = fresh_machine();
    for _ in 0..16 {
        m.execute(Op::Call { nnn: 0x300 }, 0).unwrap();
    }
    assert_eq!(m.stack.frames.len(), 16);
    let r = m.execute(Op::Call { nnn: 0x300 }, 0);
    assert_eq!(r, Err(Fault::StackOverflow { pc: 0x300 }));
    assert_eq!(m.stack.frames.len(), 16);
}

#[test]
fn two_full_sprites_at_same_spot_cancel_and_collide() {
    let mut m = fresh_machine();
    m.ram.memory[0x300] = 0xFF;
    m.regs.i = 0x300;
    m.regs.v[0] = 4;
    m.regs.v[1] = 2;
    let r1 = m.execute(Op::Drw { x: 0, y: 1, n: 1 }, 0);
    assert_eq!(r1, Ok(Flow::Next));
    assert_eq!(m.regs.v[0xF], 0);
    for bit in 0..8 {
        assert!(m.fb.pixels[2 * CHIP8_WIDTH + 4 + bit]);
    }
    let r2 = m.execute(Op::Drw { x: 0, y: 1, n: 1 }, 0);
    assert_eq!(r2, Ok(Flow::Next));
    assert_eq!(m.regs.v[0xF], 1);
    for p in 0..m.fb.pixels.len() {
        assert!(!m.fb.pixels[p]);
    }
}

#[test]
fn draw_wraps_columns_and_rows() {
    let mut m = fresh_machine();
    m.ram.memory[0x300] = 0xFF;
    m.ram.memory[0x301] = 0xFF;
    m.regs.i = 0x300;
    m.regs.v[0] = 60;
    m.regs.v[1] = 31;
    m.execute(Op::Drw { x: 0, y: 1, n: 2 }, 0).unwrap();
    // row 31, columns 60..63 and 0..3
    for c in [60usize, 61, 62, 63, 0, 1, 2, 3] {
        assert!(m.fb.pixels[31 * CHIP8_WIDTH + c]);
    }
    // second sprite row wraps to row 0
    for c in [60usize, 61, 62, 63, 0, 1, 2, 3] {
        assert!(m.fb.pixels[c]);
    }
    assert_eq!(m.regs.v[0xF], 0);
}

#[test]
fn draw_partial_sprite_sets_only_set_bits() {
    let mut m = fresh_machine();
    m.ram.memory[0x300] = 0b1010_0000;
    m.regs.i = 0x300;
    m.execute(Op::Drw { x: 0, y: 0, n: 1 }, 0).unwrap();
    assert!(m.fb.pixels[0]);
    assert!(!m.fb.pixels[1]);
    assert!(m.fb.pixels[2]);
    assert!(!m.fb.pixels[3]);
}

#[test]
fn cls_clears_every_pixel() {
    let mut m = fresh_machine();
    m.ram.memory[0x300] = 0xFF;
    m.regs.i = 0x300;
    m.execute(Op::Drw { x: 0, y: 0, n: 1 }, 0).unwrap();
    assert!(m.fb.pixels.iter().any(|p| *p));
    m.execute(Op::Cls, 0).unwrap();
    assert!(m.fb.pixels.iter().all(|p| !*p));
}

#[test]
fn draw_past_memory_is_fatal() {
    let mut m = fresh_machine();
    m.regs.i = 4090;
    let r = m.execute(Op::Drw { x: 0, y: 1, n: 15 }, 0);
    assert_eq!(r, Err(Fault::AddressOutOfRange { pc: 0x200, addr: 4090 }));
}

#[test]
fn bcd_past_memory_is_fatal() {
    let mut m = fresh_machine();
    m.regs.i = 4094;
    let r = m.execute(Op::LdBcd { x: 0 }, 0);
    assert_eq!(r, Err(Fault::AddressOutOfRange { pc: 0x200, addr: 4094 }));
}

#[test]
fn store_regs_past_memory_is_fatal() {
    let mut m = fresh_machine();
    m.regs.i = 4090;
    let r = m.execute(Op::StRegs { x: 15 }, 0);
    assert_eq!(r, Err(Fault::AddressOutOfRange { pc: 0x200, addr: 4090 }));
    let r2 = m.execute(Op::LdRegs { x: 15 }, 0);
    assert_eq!(r2, Err(Fault::AddressOutOfRange { pc: 0x200, addr: 4090 }));
}

#[test]
fn key_code_past_the_key_vector_is_fatal() {
    let mut m = fresh_machine();
    m.regs.v[0] = 16;
    let r = m.execute(Op::Skp { x: 0 }, 0);
    assert_eq!(r, Err(Fault::KeyOutOfRange { pc: 0x200, key: 16 }));
    let r2 = m.execute(Op::Sknp { x: 0 }, 0);
    assert_eq!(r2, Err(Fault::KeyOutOfRange { pc: 0x200, key: 16 }));
}

#[test]
fn glyph_for_a_non_digit_is_fatal() {
    let mut m = fresh_machine();
    m.regs.v[0] = 16;
    let r = m.execute(Op::LdFont { x: 0 }, 0);
    assert_eq!(r, Err(Fault::GlyphOutOfRange { pc: 0x200, digit: 16 }));
}

#[test]
fn index_register_overflow_is_fatal() {
    let mut m = fresh_machine();
    m.regs.i = 0xFFFF;
    m.regs.v[0] = 1;
    let r = m.execute(Op::AddI { x: 0 }, 0);
    assert_eq!(r, Err(Fault::IndexOverflow { pc: 0x200 }));
    assert_eq!(m.regs.i, 0xFFFF);
}
