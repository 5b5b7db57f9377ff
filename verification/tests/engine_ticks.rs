use chip8::engine::Engine;
use chip8::engine::KeyPoll;
use chip8::engine::RunState;
use chip8::executor::Fault;
use chip8::ram::LoadError;

fn no_keys() -> KeyPoll {
    KeyPoll { quit: false, keys: vec![false; 16] }
}

fn with_key(k: usize) -> KeyPoll {
    let mut keys = vec![false; 16];
    keys[k] = true;
    KeyPoll { quit: false, keys }
}

#[test]
fn a_fresh_engine_is_reset() {
    let rom = vec![0x60, 0x2A];
    let e = Engine::new(&rom, 1, false, true).unwrap();
    assert_eq!(e.machine.regs.pc, 0x200);
    assert_eq!(e.machine.regs.i, 0);
    assert_eq!(e.machine.stack.frames.len(), 0);
    assert!(e.machine.fb.pixels.iter().all(|p| !*p));
    assert_eq!(e.machine.ram.memory[0], 0xF0);
    assert_eq!(e.machine.ram.memory[0x200], 0x60);
    assert_eq!(e.machine.ram.memory[0x201], 0x2A);
    assert_eq!(e.state, RunState::Running);
}

#[test]
fn an_image_past_capacity_is_refused() {
    let rom = vec![0u8; 4096 - 0x200 + 1];
    let r = Engine::new(&rom, 1, false, true);
    assert_eq!(r.err(), Some(LoadError::ImageTooLarge));
    let fits = vec![0u8; 4096 - 0x200];
    assert!(Engine::new(&fits, 1, false, true).is_ok());
}

#[test]
fn one_tick_executes_one_instruction() {
    let rom = vec![0x60, 0x2A, 0x61, 0x07];
    let mut e = Engine::new(&rom, 1, false, true).unwrap();
    let r = e.tick_with(no_keys(), 0);
    assert!(r.running);
    assert!(r.redraw);
    assert_eq!(e.machine.regs.v[0], 0x2A);
    assert_eq!(e.machine.regs.pc, 0x202);
    let r2 = e.tick_with(no_keys(), 0);
    assert!(r2.running);
    assert_eq!(e.machine.regs.v[1], 0x07);
}

#[test]
fn sentinel_zero_word_halts_cleanly() {
    let rom = vec![0x00, 0x00];
    let mut e = Engine::new(&rom, 1, false, true).unwrap();
    let r = e.tick_with(no_keys(), 0);
    assert!(!r.running);
    assert_eq!(r.fault, None);
    assert_eq!(e.state, RunState::Stopped);
    // once stopped, ticks do nothing
    let r2 = e.tick_with(no_keys(), 0);
    assert!(!r2.running);
    assert_eq!(e.machine.regs.pc, 0x200);
}

#[test]
fn zero_word_is_lenient_noop_without_the_sentinel() {
    let rom = vec![0x00, 0x00];
    let mut e = Engine::new(&rom, 1, false, false).unwrap();
    let r = e.tick_with(no_keys(), 0);
    assert!(r.running);
    assert_eq!(r.unknown, Some((0x00, 0x00)));
    assert_eq!(e.machine.regs.pc, 0x202);
}

#[test]
fn unknown_opcode_is_diagnosed_and_skipped_when_lenient() {
    let rom = vec![0x00, 0x01, 0x60, 0x05];
    let mut e = Engine::new(&rom, 1, false, true).unwrap();
    let r = e.tick_with(no_keys(), 0);
    assert!(r.running);
    assert_eq!(r.unknown, Some((0x00, 0x01)));
    assert_eq!(e.machine.regs.pc, 0x202);
    e.tick_with(no_keys(), 0);
    assert_eq!(e.machine.regs.v[0], 0x05);
}

#[test]
fn unknown_opcode_is_fatal_when_strict() {
    let rom = vec![0x00, 0x01];
    let mut e = Engine::new(&rom, 1, true, true).unwrap();
    let r = e.tick_with(no_keys(), 0);
    assert!(!r.running);
    assert_eq!(
        r.fault,
        Some(Fault::UnknownOpcode { pc: 0x200, byte1: 0x00, byte2: 0x01 })
    );
    assert_eq!(e.machine.regs.pc, 0x200);
}

#[test]
fn awaiting_key_executes_nothing_until_a_key_arrives() {
    // LD V0,K then LD V1,5
    let rom = vec![0xF0, 0x0A, 0x61, 0x05];
    let mut e = Engine::new(&rom, 1, false, true).unwrap();
    let r1 = e.tick_with(no_keys(), 0);
    assert!(r1.running);
    assert_eq!(e.state, RunState::AwaitingKey { x: 0 });
    assert_eq!(e.machine.regs.pc, 0x202);
    // held ticks: zero executor calls, no progress
    for _ in 0..5 {
        let r = e.tick_with(no_keys(), 0);
        assert!(r.running);
        assert!(!r.redraw);
        assert_eq!(e.machine.regs.pc, 0x202);
        assert_eq!(e.machine.regs.v[0], 0);
        assert_eq!(e.machine.regs.v[1], 0);
        assert_eq!(e.state, RunState::AwaitingKey { x: 0 });
    }
    // the tick a key becomes pressed: exactly the pending load, no fetch
    let r2 = e.tick_with(with_key(0x7), 0);
    assert!(r2.running);
    assert_eq!(e.machine.regs.v[0], 0x7);
    assert_eq!(e.machine.regs.v[1], 0);
    assert_eq!(e.machine.regs.pc, 0x202);
    assert_eq!(e.state, RunState::Running);
    // the next tick resumes normal execution
    e.tick_with(no_keys(), 0);
    assert_eq!(e.machine.regs.v[1], 0x05);
}

#[test]
fn the_lowest_pressed_key_completes_the_load() {
    let rom = vec![0xF3, 0x0A];
    let mut e = Engine::new(&rom, 1, false, true).unwrap();
    e.tick_with(no_keys(), 0);
    let mut keys = vec![false; 16];
    keys[0xC] = true;
    keys[0x4] = true;
    e.tick_with(KeyPoll { quit: false, keys }, 0);
    assert_eq!(e.machine.regs.v[3], 0x4);
}

#[test]
fn a_quit_signal_stops_the_engine() {
    let rom = vec![0x60, 0x2A];
    let mut e = Engine::new(&rom, 1, false, true).unwrap();
    let r = e.tick_with(KeyPoll { quit: true, keys: vec![false; 16] }, 0);
    assert!(!r.running);
    assert_eq!(r.fault, None);
    assert_eq!(e.state, RunState::Stopped);
    assert_eq!(e.machine.regs.v[0], 0);
}

#[test]
fn timers_follow_their_own_cadence() {
    // two instruction ticks per timer tick
    let rom = vec![0x00, 0x01, 0x00, 0x01, 0x00, 0x01, 0x00, 0x01];
    let mut e = Engine::new(&rom, 2, false, false).unwrap();
    e.machine.regs.delay_timer = 5;
    e.machine.regs.sound_timer = 1;
    e.tick_with(no_keys(), 0);
    assert_eq!(e.machine.regs.delay_timer, 5);
    assert_eq!(e.machine.regs.sound_timer, 1);
    e.tick_with(no_keys(), 0);
    assert_eq!(e.machine.regs.delay_timer, 4);
    assert_eq!(e.machine.regs.sound_timer, 0);
    // timers never go negative
    e.tick_with(no_keys(), 0);
    e.tick_with(no_keys(), 0);
    assert_eq!(e.machine.regs.sound_timer, 0);
}

#[test]
fn the_tone_follows_the_sound_timer() {
    let rom = vec![0x60, 0x01, 0x61, 0x01];
    let mut e = Engine::new(&rom, 1, false, true).unwrap();
    e.machine.regs.sound_timer = 3;
    let r = e.tick_with(no_keys(), 0);
    assert!(r.beep);
    e.machine.regs.sound_timer = 0;
    let r2 = e.tick_with(no_keys(), 0);
    assert!(!r2.beep);
}

#[test]
fn a_program_counter_outside_memory_is_fatal() {
    // JP 0xFFF: the next fetch cannot read a whole word
    let rom = vec![0x1F, 0xFF];
    let mut e = Engine::new(&rom, 1, false, true).unwrap();
    let r1 = e.tick_with(no_keys(), 0);
    assert!(r1.running);
    assert_eq!(e.machine.regs.pc, 0xFFF);
    let r2 = e.tick_with(no_keys(), 0);
    assert!(!r2.running);
    assert_eq!(r2.fault, Some(Fault::PcOutOfRange { pc: 0xFFF }));
}

#[test]
fn a_runtime_fault_stops_the_engine() {
    // RET with an empty call stack
    let rom = vec![0x00, 0xEE];
    let mut e = Engine::new(&rom, 1, false, true).unwrap();
    let r = e.tick_with(no_keys(), 0);
    assert!(!r.running);
    assert_eq!(r.fault, Some(Fault::StackUnderflow { pc: 0x200 }));
    assert_eq!(e.state, RunState::Stopped);
    assert_eq!(e.machine.regs.pc, 0x200);
}

#[test]
fn rnd_through_a_tick_masks_the_given_byte() {
    // RND V0, 0xF0
    let rom = vec![0xC0, 0xF0];
    let mut e = Engine::new(&rom, 1, false, true).unwrap();
    e.tick_with(no_keys(), 0x5A);
    assert_eq!(e.machine.regs.v[0], 0x50);
}

#[test]
fn tick_draws_its_own_randomness() {
    // RND V0, 0x00 always yields zero whatever byte was drawn
    let rom = vec![0xC5, 0x00];
    let mut e = Engine::new(&rom, 1, false, true).unwrap();
    e.machine.regs.v[5] = 0xFF;
    let r = e.tick(no_keys());
    assert!(r.running);
    assert_eq!(e.machine.regs.v[5], 0x00);
}

#[test]
fn timers_move_before_the_instruction() {
    // LD V0,DT with the delay timer at 1: the tick's own decrement is
    // visible to the instruction it executes
    let rom = vec![0xF0, 0x07];
    let mut e = Engine::new(&rom, 1, false, true).unwrap();
    e.machine.regs.delay_timer = 1;
    e.tick_with(no_keys(), 0);
    assert_eq!(e.machine.regs.delay_timer, 0);
    assert_eq!(e.machine.regs.v[0], 0);
}

#[test]
fn the_key_snapshot_refreshes_before_the_instruction() {
    // SKP V0 with V0=0 and key 0 pressed in the same tick's poll
    let rom = vec![0xE0, 0x9E];
    let mut e = Engine::new(&rom, 1, false, true).unwrap();
    e.tick_with(with_key(0), 0);
    assert_eq!(e.machine.regs.pc, 0x204);
}
