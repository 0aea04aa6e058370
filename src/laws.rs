//! Properties of the instruction set that hold for every state, stated over
//! the abstract machine and proved from its definitions.
use vstd::prelude::*;

use crate::instruction::{decode_spec, Instruction};
use crate::machine::{
    any_key_down, begin_tick, bit_of, blank_frame, countdown, fetch_spec, is_lowest_pressed,
    key_down, lemma_offsets, lowest_pressed, sprite_bit, sprite_collides, sprite_row, step,
    tick_spec, wrap16, wrap_col, wrap_row, MachineState, FLAG_REGISTER, OPCODE_SIZE, SCREEN_HEIGHT, SCREEN_WIDTH, STACK_SIZE,
};

verus! {

/// Adding register `y` to register `x` sets the flag to 1 exactly when the
/// sum exceeds 255, and leaves the sum modulo 256 in register `x` (for any
/// `x` but the flag register itself, which receives the sum).
pub proof fn lemma_add_with_carry(s: MachineState, op: u16, x: usize, y: usize, rnd: u8)
    requires
        s.well_formed(),
        decode_spec(op) == (Instruction::AddReg { x, y }),
        x != FLAG_REGISTER,
    ensures
        ({
            let a = s.v[x as int] as int;
            let b = s.v[y as int] as int;
            let t = step(s, op, rnd);
            &&& t.v[FLAG_REGISTER as int] == 1 <==> a + b > 255
            &&& t.v[FLAG_REGISTER as int] == bit_of(a + b > 255)
            &&& t.v[x as int] == (a + b) % 256
        }),
{
    crate::instruction::lemma_decode_operands_in_range(op);
}

/// Subtracting register `y` from register `x` sets the flag to 1 exactly
/// when `Vx > Vy`, and leaves `Vx - Vy` modulo 256 in register `x` (for any
/// `x` but the flag register itself).
pub proof fn lemma_subtract_with_flag(s: MachineState, op: u16, x: usize, y: usize, rnd: u8)
    requires
        s.well_formed(),
        decode_spec(op) == (Instruction::Sub { x, y }),
        x != FLAG_REGISTER,
    ensures
        ({
            let a = s.v[x as int] as int;
            let b = s.v[y as int] as int;
            let t = step(s, op, rnd);
            &&& t.v[FLAG_REGISTER as int] == 1 <==> a > b
            &&& t.v[FLAG_REGISTER as int] == bit_of(a > b)
            &&& t.v[x as int] == (a - b + 256) % 256
        }),
{
    crate::instruction::lemma_decode_operands_in_range(op);
}

/// A right shift puts the least significant bit of the register, as it was
/// before the shift, in the flag register (for any register but the flag
/// register itself).
pub proof fn lemma_shift_right_flag(s: MachineState, op: u16, x: usize, rnd: u8)
    requires
        s.well_formed(),
        decode_spec(op) == (Instruction::ShiftRight { x }),
        x != FLAG_REGISTER,
    ensures
        step(s, op, rnd).v[FLAG_REGISTER as int] == s.v[x as int] % 2,
        step(s, op, rnd).v[x as int] == s.v[x as int] / 2,
{
    crate::instruction::lemma_decode_operands_in_range(op);
    let a = s.v[x as int];
    assert((a & 1) == a % 2 && (a >> 1u8) == a / 2) by (bit_vector);
}

/// A left shift puts the most significant bit of the register, as it was
/// before the shift, in the flag register (for any register but the flag
/// register itself).
pub proof fn lemma_shift_left_flag(s: MachineState, op: u16, x: usize, rnd: u8)
    requires
        s.well_formed(),
        decode_spec(op) == (Instruction::ShiftLeft { x }),
        x != FLAG_REGISTER,
    ensures
        step(s, op, rnd).v[FLAG_REGISTER as int] == s.v[x as int] / 128,
        step(s, op, rnd).v[x as int] == (s.v[x as int] * 2) % 256,
{
    crate::instruction::lemma_decode_operands_in_range(op);
    let a = s.v[x as int];
    assert((a >> 7u8) == a / 128 && (a << 1u8) == (a * 2) % 256) by (bit_vector);
}

/// A tick that runs the clear instruction turns every cell off and reports
/// the frame as changed.
pub proof fn lemma_clear_blanks_frame(s: MachineState, keypad: Seq<bool>, rnd: u8)
    requires
        s.well_formed(),
        fetch_spec(s) == 0x00E0,
    ensures
        ({
            let t = tick_spec(s, keypad, rnd);
            &&& t.frame == blank_frame()
            &&& forall|r: int, c: int|
                0 <= r < SCREEN_HEIGHT && 0 <= c < SCREEN_WIDTH ==> #[trigger] t.frame[r][c] == 0
            &&& t.frame_changed
        }),
{
    assert(fetch_spec(begin_tick(s, keypad)) == fetch_spec(s));
}

/// Drawing a one-row sprite whose row is all ones flips the eight cells it
/// lands on: where all eight were on, they all go off and the flag is 1;
/// where all eight were off, they all go on and the flag is 0.
pub proof fn lemma_draw_full_row(s: MachineState, op: u16, x: usize, y: usize, rnd: u8)
    requires
        s.well_formed(),
        decode_spec(op) == (Instruction::Draw { x, y, n: 1 }),
        sprite_row(s, 0) == 0xFF,
    ensures
        ({
            let ox = s.v[x as int] as int % (SCREEN_WIDTH as int);
            let oy = s.v[y as int] as int % (SCREEN_HEIGHT as int);
            let t = step(s, op, rnd);
            &&& (forall|c: int| 0 <= c < 8 ==> #[trigger] s.frame[oy][wrap_col(ox, c)] == 1) ==> {
                &&& forall|c: int| 0 <= c < 8 ==> #[trigger] t.frame[oy][wrap_col(ox, c)] == 0
                &&& t.v[FLAG_REGISTER as int] == 1
            }
            &&& (forall|c: int| 0 <= c < 8 ==> #[trigger] s.frame[oy][wrap_col(ox, c)] == 0) ==> {
                &&& forall|c: int| 0 <= c < 8 ==> #[trigger] t.frame[oy][wrap_col(ox, c)] == 1
                &&& t.v[FLAG_REGISTER as int] == 0
            }
        }),
{
    crate::instruction::lemma_decode_operands_in_range(op);
    let ox = s.v[x as int] as int % (SCREEN_WIDTH as int);
    let oy = s.v[y as int] as int % (SCREEN_HEIGHT as int);
    let t = step(s, op, rnd);
    assert(forall|sh: u8| sh < 8 ==> #[trigger] ((0xFFu8 >> sh) & 1u8) == 1u8) by (bit_vector);
    assert(forall|b: u8| b == 1u8 ==> #[trigger] (b ^ 1u8) == 0u8 && (1u8 & b) == 1u8)
        by (bit_vector);
    assert(forall|b: u8| b == 0u8 ==> #[trigger] (b ^ 1u8) == 1u8 && (1u8 & b) == 0u8)
        by (bit_vector);
    assert forall|c: int| 0 <= c < 8 implies #[trigger] t.frame[oy][wrap_col(ox, c)] == s.frame[oy][wrap_col(
        ox,
        c,
    )] ^ 1u8 by {
        lemma_offsets(ox, oy, 0, c);
        assert(((0xFFu8 >> ((7 - c) as u8)) & 1u8) == 1u8);
    }
    if forall|c: int| 0 <= c < 8 ==> #[trigger] s.frame[oy][wrap_col(ox, c)] == 1 {
        lemma_offsets(ox, oy, 0, 0);
        let cell = s.frame[wrap_row(oy, 0)][wrap_col(ox, 0)];
        assert(cell == 1u8);
        assert(sprite_bit(sprite_row(s, 0), 0) == 1u8);
        assert((1u8 & 1u8) == 1u8) by (bit_vector);
        assert(sprite_collides(s, ox, oy, 1));
    }
    if forall|c: int| 0 <= c < 8 ==> #[trigger] s.frame[oy][wrap_col(ox, c)] == 0 {
        assert forall|row: int, col: int| 0 <= row < 1 && 0 <= col < 8 implies (sprite_bit(
            sprite_row(s, row),
            col,
        ) & #[trigger] s.frame[wrap_row(oy, row)][wrap_col(ox, col)]) == 0 by {
            lemma_offsets(ox, oy, row, col);
            assert(s.frame[wrap_row(oy, row)][wrap_col(ox, col)] == 0u8);
            let b = sprite_bit(sprite_row(s, row), col);
            assert((b & 0u8) == 0u8) by (bit_vector);
        }
        assert(!sprite_collides(s, ox, oy, 1));
    }
}

/// A call followed at once by a return comes back to the instruction after
/// the call, with the stack pointer as it was before the call (whenever the
/// stack has room for the call).
pub proof fn lemma_call_then_return(
    s: MachineState,
    call: u16,
    ret: u16,
    addr: u16,
    rnd1: u8,
    rnd2: u8,
)
    requires
        s.well_formed(),
        s.sp < STACK_SIZE,
        decode_spec(call) == (Instruction::Call { addr }),
        decode_spec(ret) == Instruction::Return,
    ensures
        ({
            let t = step(step(s, call, rnd1), ret, rnd2);
            &&& t.pc == wrap16(s.pc + OPCODE_SIZE)
            &&& t.sp == s.sp
        }),
{
}

/// Storing registers `V0..=Vx` from the index register on and then loading
/// the same range back gives every register back the value it held (whenever the
/// range lies within memory).
pub proof fn lemma_store_then_load(s: MachineState, store: u16, load: u16, x: usize, rnd1: u8, rnd2: u8)
    requires
        s.well_formed(),
        decode_spec(store) == (Instruction::StoreRegisters { x }),
        decode_spec(load) == (Instruction::LoadRegisters { x }),
        s.index + x < s.memory.len(),
    ensures
        step(step(s, store, rnd1), load, rnd2).v == s.v,
{
    crate::instruction::lemma_decode_operands_in_range(store);
    let t = step(step(s, store, rnd1), load, rnd2);
    assert(t.v =~= s.v);
}

/// Some key is down exactly when there is a lowest key that is down, and
/// `lowest_pressed` is that key.
pub proof fn lemma_lowest_pressed(keys: Seq<bool>)
    requires
        keys.len() == 16,
    ensures
        any_key_down(keys) <==> is_lowest_pressed(keys, lowest_pressed(keys)),
{
    if any_key_down(keys) {
        let k = choose|k: int| key_down(keys, k);
        lemma_lowest_below(keys, k);
    }
}

proof fn lemma_lowest_below(keys: Seq<bool>, k: int)
    requires
        key_down(keys, k),
    ensures
        exists|j: int| is_lowest_pressed(keys, j),
    decreases k,
{
    if exists|j: int| 0 <= j < k && keys[j] {
        let j = choose|j: int| 0 <= j < k && keys[j];
        lemma_lowest_below(keys, j);
    } else {
        assert(is_lowest_pressed(keys, k));
    }
}

/// A tick that runs the key-wait instruction keeps the program counter where
/// it is while no key is down in the snapshot; once one is, it stores the
/// lowest index of a key that is down in the register and advances.
pub proof fn lemma_wait_key(s: MachineState, keypad: Seq<bool>, x: usize, rnd: u8)
    requires
        s.well_formed(),
        keypad.len() == 16,
        decode_spec(fetch_spec(s)) == (Instruction::WaitKey { x }),
    ensures
        ({
            let t = tick_spec(s, keypad, rnd);
            &&& !any_key_down(keypad) ==> t.pc == s.pc && t.v == s.v
            &&& any_key_down(keypad) ==> {
                &&& t.pc == wrap16(s.pc + OPCODE_SIZE)
                &&& is_lowest_pressed(keypad, t.v[x as int] as int)
            }
        }),
{
    crate::instruction::lemma_decode_operands_in_range(fetch_spec(s));
    assert(fetch_spec(begin_tick(s, keypad)) == fetch_spec(s));
    lemma_lowest_pressed(keypad);
}

/// A tick whose instruction is not the delay-timer load counts the delay
/// timer down by one, stopping at zero, and keeps the state well formed.
pub proof fn lemma_tick_counts_delay_down(s: MachineState, keypad: Seq<bool>, rnd: u8)
    requires
        s.well_formed(),
        keypad.len() == 16,
        !(decode_spec(fetch_spec(s)) is SetDelay),
    ensures
        tick_spec(s, keypad, rnd).delay == countdown(s.delay),
        tick_spec(s, keypad, rnd).well_formed(),
{
    let b = begin_tick(s, keypad);
    assert(fetch_spec(b) == fetch_spec(s));
    crate::instruction::lemma_decode_operands_in_range(fetch_spec(b));
}

/// Three ticks from a delay timer of 1, none of which loads the delay timer:
/// the timer reaches zero on the first and stays at zero, without wrapping
/// below it, on the second and third.
pub proof fn lemma_delay_timer_settles(
    s: MachineState,
    k1: Seq<bool>,
    k2: Seq<bool>,
    k3: Seq<bool>,
    r1: u8,
    r2: u8,
    r3: u8,
)
    requires
        s.well_formed(),
        s.delay == 1,
        k1.len() == 16,
        k2.len() == 16,
        k3.len() == 16,
        !(decode_spec(fetch_spec(s)) is SetDelay),
        !(decode_spec(fetch_spec(tick_spec(s, k1, r1))) is SetDelay),
        !(decode_spec(fetch_spec(tick_spec(tick_spec(s, k1, r1), k2, r2))) is SetDelay),
    ensures
        tick_spec(s, k1, r1).delay == 0,
        tick_spec(tick_spec(s, k1, r1), k2, r2).delay == 0,
        tick_spec(tick_spec(tick_spec(s, k1, r1), k2, r2), k3, r3).delay == 0,
{
    lemma_tick_counts_delay_down(s, k1, r1);
    let t1 = tick_spec(s, k1, r1);
    lemma_tick_counts_delay_down(t1, k2, r2);
    let t2 = tick_spec(t1, k2, r2);
    lemma_tick_counts_delay_down(t2, k3, r3);
}

} // verus!
