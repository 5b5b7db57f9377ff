//! Laws of the instruction semantics and the engine state machine, proved
//! once and for all over the step and tick functions.
use vstd::prelude::*;

use crate::decoder::op_wf;
use crate::decoder::Op;
use crate::engine::first_key;
use crate::engine::first_key_from;
use crate::engine::tick_spec;
use crate::engine::EngineSnap;
use crate::engine::RunState;
use crate::executor::step_spec;
use crate::framebuffer::draw_rows;
use crate::framebuffer::row_touches;
use crate::machine::MachineSnap;
use crate::registers::FLAG_REG;
use crate::CHIP8_HEIGHT;
use crate::KEY_COUNT;
use crate::STACK_DEPTH;

verus! {

/// ADD Vx,Vy at the top of the byte range: 0xFF plus 0x01 wraps to 0x00
/// and raises the carry flag. Stated for any machine state and any
/// destination register but VF, whose flag write would shadow the sum.
pub proof fn lemma_add_reg_carry(s: MachineSnap, x: u8, y: u8, rand: u8)
    requires
        s.wf(),
        x < 15,
        y < 16,
        s.v[x as int] == 0xFF,
        s.v[y as int] == 0x01,
    ensures
        step_spec(s, Op::AddReg { x, y }, rand) is Ok,
        step_spec(s, Op::AddReg { x, y }, rand)->Ok_0.0.v[x as int] == 0x00,
        step_spec(s, Op::AddReg { x, y }, rand)->Ok_0.0.v[FLAG_REG as int] == 1,
{
}

/// ADD Vx,Vy below the byte range: 0x01 plus 0x01 is 0x02 and the carry
/// flag stays clear.
pub proof fn lemma_add_reg_no_carry(s: MachineSnap, x: u8, y: u8, rand: u8)
    requires
        s.wf(),
        x < 15,
        y < 16,
        s.v[x as int] == 0x01,
        s.v[y as int] == 0x01,
    ensures
        step_spec(s, Op::AddReg { x, y }, rand) is Ok,
        step_spec(s, Op::AddReg { x, y }, rand)->Ok_0.0.v[x as int] == 0x02,
        step_spec(s, Op::AddReg { x, y }, rand)->Ok_0.0.v[FLAG_REG as int] == 0,
{
}

/// CALL then RET round-trips the program counter: the jump lands on the
/// call target with one more frame on the stack, and the return lands one
/// instruction past the call with the stack exactly as it was.
pub proof fn lemma_call_ret_round_trip(s: MachineSnap, nnn: u16, rand1: u8, rand2: u8)
    requires
        s.wf(),
        s.stack.len() < STACK_DEPTH,
        s.pc + 2 <= u16::MAX,
    ensures
        step_spec(s, Op::Call { nnn }, rand1) is Ok,
        ({
            let mid = step_spec(s, Op::Call { nnn }, rand1)->Ok_0.0;
            &&& mid.pc == nnn
            &&& mid.stack.len() == s.stack.len() + 1
            &&& step_spec(mid, Op::Ret, rand2) is Ok
            &&& step_spec(mid, Op::Ret, rand2)->Ok_0.0.pc == s.pc + 2
            &&& step_spec(mid, Op::Ret, rand2)->Ok_0.0.stack == s.stack
        }),
{
    let mid = step_spec(s, Op::Call { nnn }, rand1)->Ok_0.0;
    assert(mid.stack.drop_last() =~= s.stack);
}

/// The skip opcodes: SE Vx,kk / SNE Vx,kk / SE Vx,Vy / SNE Vx,Vy /
/// SKP Vx / SKNP Vx.
pub open spec fn op_is_skip(op: Op) -> bool {
    match op {
        Op::SeImm { .. } => true,
        Op::SneImm { .. } => true,
        Op::SeReg { .. } => true,
        Op::SneReg { .. } => true,
        Op::Skp { .. } => true,
        Op::Sknp { .. } => true,
        _ => false,
    }
}

/// The condition a skip opcode tests in state `s`.
pub open spec fn skip_cond(s: MachineSnap, op: Op) -> bool {
    match op {
        Op::SeImm { x, kk } => s.v[x as int] == kk,
        Op::SneImm { x, kk } => s.v[x as int] != kk,
        Op::SeReg { x, y } => s.v[x as int] == s.v[y as int],
        Op::SneReg { x, y } => s.v[x as int] != s.v[y as int],
        Op::Skp { x } => s.keys[s.v[x as int] as int],
        Op::Sknp { x } => !s.keys[s.v[x as int] as int],
        _ => false,
    }
}

/// Every skip instruction advances the program counter by exactly 4 when
/// its condition is satisfied and by exactly 2 when it is not — never
/// more, and it changes nothing else. For SKP/SKNP the consulted register
/// must name one of the sixteen keys; any other value is a fault, not a
/// skip.
pub proof fn lemma_skip_advance(s: MachineSnap, op: Op, rand: u8)
    requires
        s.wf(),
        op_wf(op),
        op_is_skip(op),
        s.pc + 4 <= u16::MAX,
        (op matches Op::Skp { x } ==> s.v[x as int] < KEY_COUNT),
        (op matches Op::Sknp { x } ==> s.v[x as int] < KEY_COUNT),
    ensures
        step_spec(s, op, rand) is Ok,
        ({
            let next = step_spec(s, op, rand)->Ok_0.0;
            &&& next.pc == if skip_cond(s, op) {
                s.pc + 4
            } else {
                s.pc + 2
            }
            &&& next.v == s.v
            &&& next.ram == s.ram
            &&& next.fb == s.fb
            &&& next.stack == s.stack
            &&& next.i == s.i
        }),
{
}

/// The opcodes that redirect the program counter rather than stepping it:
/// jumps, calls, returns and the skips.
pub open spec fn op_is_branch(op: Op) -> bool {
    match op {
        Op::Jp { .. } => true,
        Op::JpV0 { .. } => true,
        Op::Call { .. } => true,
        Op::Ret => true,
        _ => op_is_skip(op),
    }
}

/// The program counter stays instruction-aligned: every non-branching
/// instruction that executes advances it by exactly 2.
pub proof fn lemma_plain_advance(s: MachineSnap, op: Op, rand: u8)
    requires
        s.wf(),
        op_wf(op),
        !op_is_branch(op),
        s.pc + 2 <= u16::MAX,
        step_spec(s, op, rand) is Ok,
    ensures
        step_spec(s, op, rand)->Ok_0.0.pc == s.pc + 2,
{
}

/// Accumulated XOR parity: whether an odd number of the first `n` sprite
/// rows toggles pixel `p`.
pub open spec fn toggle_parity(rows: Seq<u8>, x0: u8, y0: u8, n: int, p: int) -> bool
    decreases n,
{
    if n <= 0 {
        false
    } else {
        toggle_parity(rows, x0, y0, n - 1, p) != row_touches(
            rows[n - 1],
            x0,
            (y0 + n - 1) % (CHIP8_HEIGHT as int),
            p,
        )
    }
}

/// Drawing is XOR pointwise: after `n` sprite rows, a pixel is flipped
/// exactly when an odd number of those rows touches it.
pub proof fn lemma_draw_rows_pointwise(fb: Seq<bool>, rows: Seq<u8>, x0: u8, y0: u8, n: int)
    requires
        0 <= n,
    ensures
        draw_rows(fb, rows, x0, y0, n).len() == fb.len(),
        forall|p: int|
            0 <= p < fb.len() ==> draw_rows(fb, rows, x0, y0, n)[p] == (fb[p] != toggle_parity(
                rows,
                x0,
                y0,
                n,
                p,
            )),
    decreases n,
{
    if n > 0 {
        lemma_draw_rows_pointwise(fb, rows, x0, y0, n - 1);
    }
}

/// Drawing the same sprite twice restores the grid: the XOR compositing
/// toggles every touched pixel once per pass, so the second pass undoes
/// the first.
pub proof fn lemma_draw_twice_restores(fb: Seq<bool>, rows: Seq<u8>, x0: u8, y0: u8, n: int)
    requires
        0 <= n,
    ensures
        draw_rows(draw_rows(fb, rows, x0, y0, n), rows, x0, y0, n) == fb,
{
    let fb1 = draw_rows(fb, rows, x0, y0, n);
    lemma_draw_rows_pointwise(fb, rows, x0, y0, n);
    lemma_draw_rows_pointwise(fb1, rows, x0, y0, n);
    assert(draw_rows(fb1, rows, x0, y0, n) =~= fb);
}

/// No pressed key below `k` means no first key at or above `k` unless one
/// is pressed there.
proof fn lemma_first_key_from_none(keys: Seq<bool>, k: int)
    requires
        keys.len() == KEY_COUNT,
        forall|j: int| k <= j < KEY_COUNT ==> !keys[j],
    ensures
        first_key_from(keys, k) is None,
    decreases KEY_COUNT - k,
{
    if 0 <= k < KEY_COUNT {
        lemma_first_key_from_none(keys, k + 1);
    }
}

/// Some key pressed means the scan finds one.
proof fn lemma_first_key_from_some(keys: Seq<bool>, k: int, j: int)
    requires
        keys.len() == KEY_COUNT,
        0 <= k <= j < KEY_COUNT,
        keys[j],
    ensures
        first_key_from(keys, k) is Some,
    decreases KEY_COUNT - k,
{
    if !keys[k] {
        lemma_first_key_from_some(keys, k + 1, if j == k {
            j + 1
        } else {
            j
        });
    }
}

/// While AWAITING_KEY and no key is pressed, a tick executes nothing: the
/// registers, memory, grid, stack, index and program counter all stand
/// still (only the key snapshot and the timers move), and the engine stays
/// held.
pub proof fn lemma_awaiting_key_holds(e: EngineSnap, keys: Seq<bool>, rand: u8, x: u8)
    requires
        e.wf(),
        e.state == (RunState::AwaitingKey { x }),
        keys.len() == KEY_COUNT,
        forall|j: int| 0 <= j < KEY_COUNT ==> !keys[j],
    ensures
        ({
            let next = tick_spec(e, false, keys, rand).0;
            &&& next.state == e.state
            &&& next.m.v == e.m.v
            &&& next.m.pc == e.m.pc
            &&& next.m.ram == e.m.ram
            &&& next.m.fb == e.m.fb
            &&& next.m.stack == e.m.stack
            &&& next.m.i == e.m.i
        }),
        tick_spec(e, false, keys, rand).1.running,
{
    lemma_first_key_from_none(keys, 0);
}

/// On the tick a key becomes pressed, the engine resumes with exactly the
/// pending load: the lowest pressed key's code lands in Vx, nothing else
/// of the machine moves (but the key snapshot and the timers), and no
/// fetched instruction executes that tick.
pub proof fn lemma_awaiting_key_resumes(e: EngineSnap, keys: Seq<bool>, rand: u8, x: u8)
    requires
        e.wf(),
        e.state == (RunState::AwaitingKey { x }),
        keys.len() == KEY_COUNT,
        exists|j: int| 0 <= j < KEY_COUNT && keys[j],
    ensures
        first_key(keys) is Some,
        ({
            let k = first_key(keys)->0;
            let next = tick_spec(e, false, keys, rand).0;
            &&& next.state == RunState::Running
            &&& next.m.v == e.m.v.update(x as int, k)
            &&& next.m.pc == e.m.pc
            &&& next.m.ram == e.m.ram
            &&& next.m.fb == e.m.fb
            &&& next.m.stack == e.m.stack
            &&& next.m.i == e.m.i
        }),
        tick_spec(e, false, keys, rand).1.running,
{
    let j = choose|j: int| 0 <= j < KEY_COUNT && keys[j];
    lemma_first_key_from_some(keys, 0, j);
}

} // verus!
