//! The abstract machine: its state as mathematical values, and the meaning
//! of every instruction and of one tick as functions on that state.
use vstd::prelude::*;

use crate::font::font_glyphs_spec;
use crate::instruction::{decode_spec, Instruction};

verus! {

/// Bytes of addressable memory.
pub const MEMORY_SIZE: usize = 4096;

/// Width of the frame buffer in cells.
pub const SCREEN_WIDTH: usize = 64;

/// Height of the frame buffer in cells.
pub const SCREEN_HEIGHT: usize = 32;

/// Address at which programs are loaded and execution starts.
pub const PROGRAM_START: u16 = 0x200;

/// Address of the built-in font.
pub const FONT_START: u16 = 0x50;

/// Width of one instruction word in bytes.
pub const OPCODE_SIZE: u16 = 2;

/// Index of the register that doubles as carry, borrow and collision flag.
pub const FLAG_REGISTER: usize = 15;

/// Capacity of the call stack.
pub const STACK_SIZE: u8 = 16;

/// What an instruction asks of the program counter.
#[derive(Clone, Copy, Debug, PartialEq, Eq, Structural)]
pub enum PCActions {
    /// Advance to the next instruction.
    Next,
    /// Skip the next instruction.
    Skip,
    /// Keep the program counter where it is, so that the same instruction
    /// runs again on the next tick.
    StepBack,
    /// Continue at the given address.
    Jump(u16),
}

/// The whole state of the machine, as mathematical values.
pub struct MachineState {
    /// The 4096 bytes of memory.
    pub memory: Seq<u8>,
    /// Program counter.
    pub pc: u16,
    /// The sixteen general registers.
    pub v: Seq<u8>,
    /// Index register.
    pub index: u16,
    /// Delay timer.
    pub delay: u8,
    /// Sound timer.
    pub sound: u8,
    /// Keypad snapshot of the current tick.
    pub keypad: Seq<bool>,
    /// The sixteen slots of the call stack.
    pub stack: Seq<u16>,
    /// Number of occupied stack slots.
    pub sp: u8,
    /// The frame buffer, by row then column.
    pub frame: Seq<Seq<u8>>,
    /// Whether the current tick has changed the frame buffer.
    pub frame_changed: bool,
}

impl MachineState {
    /// Every component has its fixed size, and the stack pointer is within
    /// the stack.
    pub open spec fn well_formed(self) -> bool {
        &&& self.memory.len() == MEMORY_SIZE
        &&& self.v.len() == 16
        &&& self.keypad.len() == 16
        &&& self.stack.len() == STACK_SIZE
        &&& self.sp <= STACK_SIZE
        &&& self.frame.len() == SCREEN_HEIGHT
        &&& forall|r: int| 0 <= r < SCREEN_HEIGHT ==> (#[trigger] self.frame[r]).len() == SCREEN_WIDTH
    }
}

/// The byte at `addr`, or 0 past the end of memory.
pub open spec fn read_byte(mem: Seq<u8>, addr: int) -> u8 {
    if 0 <= addr < mem.len() {
        mem[addr]
    } else {
        0
    }
}

/// `mem` with `b` written at `addr`; a write past the end is dropped.
pub open spec fn write_byte(mem: Seq<u8>, addr: int, b: u8) -> Seq<u8> {
    if 0 <= addr < mem.len() {
        mem.update(addr, b)
    } else {
        mem
    }
}

/// A value reduced to 16 bits.
pub open spec fn wrap16(v: int) -> u16 {
    (v % 0x10000) as u16
}

/// A value reduced to 8 bits.
pub open spec fn wrap8(v: int) -> u8 {
    (v % 0x100) as u8
}

/// The memory image after construction: zero, but for the font at `0x50`.
pub open spec fn initial_memory() -> Seq<u8> {
    Seq::new(
        MEMORY_SIZE as nat,
        |a: int|
            if FONT_START <= a < FONT_START + 80 {
                font_glyphs_spec()[a - FONT_START]
            } else {
                0
            },
    )
}

/// A frame buffer with every cell off.
pub open spec fn blank_frame() -> Seq<Seq<u8>> {
    Seq::new(SCREEN_HEIGHT as nat, |r: int| Seq::new(SCREEN_WIDTH as nat, |c: int| 0u8))
}

/// The state after construction.
pub open spec fn initial_state() -> MachineState {
    MachineState {
        memory: initial_memory(),
        pc: PROGRAM_START,
        v: Seq::new(16, |i: int| 0u8),
        index: 0,
        delay: 0,
        sound: 0,
        keypad: Seq::new(16, |i: int| false),
        stack: Seq::new(STACK_SIZE as nat, |i: int| 0u16),
        sp: 0,
        frame: blank_frame(),
        frame_changed: false,
    }
}

/// The instruction word at the program counter, high byte first.
pub open spec fn fetch_spec(s: MachineState) -> u16 {
    (read_byte(s.memory, s.pc as int) as int * 256 + read_byte(s.memory, s.pc as int + 1)) as u16
}

/// `Skip` when the condition holds, else `Next`.
pub open spec fn skip_if_spec(condition: bool) -> PCActions {
    if condition {
        PCActions::Skip
    } else {
        PCActions::Next
    }
}

/// The program counter after an instruction at `pc` asked for `action`.
pub open spec fn next_pc(pc: u16, action: PCActions) -> u16 {
    match action {
        PCActions::Next => wrap16(pc + OPCODE_SIZE),
        PCActions::Skip => wrap16(pc + 2 * OPCODE_SIZE),
        PCActions::StepBack => pc,
        PCActions::Jump(addr) => addr,
    }
}

/// `s` with register `i` set to `val`.
pub open spec fn with_reg(s: MachineState, i: int, val: u8) -> MachineState {
    MachineState { v: s.v.update(i, val), ..s }
}

/// `s` with register `i` set to `val` after the flag register is set to
/// `flag` (so that `val` wins where `i` is the flag register).
pub open spec fn with_flag_then_reg(s: MachineState, flag: u8, i: int, val: u8) -> MachineState {
    with_reg(with_reg(s, FLAG_REGISTER as int, flag), i, val)
}

/// 1 if the condition holds, else 0.
pub open spec fn bit_of(condition: bool) -> u8 {
    if condition {
        1
    } else {
        0
    }
}

/// Whether key `k` exists and is down in the snapshot.
pub open spec fn key_down(keys: Seq<bool>, k: int) -> bool {
    0 <= k < 16 && keys[k]
}

/// `k` is the lowest index of a key that is down.
pub open spec fn is_lowest_pressed(keys: Seq<bool>, k: int) -> bool {
    &&& key_down(keys, k)
    &&& forall|j: int| 0 <= j < k ==> !(#[trigger] keys[j])
}

/// Whether some key is down.
pub open spec fn any_key_down(keys: Seq<bool>) -> bool {
    exists|k: int| key_down(keys, k)
}

/// The lowest index of a key that is down (meaningful when one is).
pub open spec fn lowest_pressed(keys: Seq<bool>) -> int {
    choose|k: int| is_lowest_pressed(keys, k)
}

/// Bit `col` (0 = most significant) of a sprite row, as 0 or 1.
pub open spec fn sprite_bit(byte: u8, col: int) -> u8 {
    (byte >> ((7 - col) as u8)) & 1
}

/// The sprite row `row` of a sprite stored at the index register.
pub open spec fn sprite_row(s: MachineState, row: int) -> u8 {
    read_byte(s.memory, s.index + row)
}

/// The frame row that sprite row `row` lands on, from origin row `oy`.
pub open spec fn wrap_row(oy: int, row: int) -> int {
    (oy + row) % (SCREEN_HEIGHT as int)
}

/// The frame column that sprite column `col` lands on, from origin column `ox`.
pub open spec fn wrap_col(ox: int, col: int) -> int {
    (ox + col) % (SCREEN_WIDTH as int)
}

/// The sprite row that lands on frame row `r`, counted from origin row `oy`.
pub open spec fn row_offset(oy: int, r: int) -> int {
    (r - oy + SCREEN_HEIGHT) % (SCREEN_HEIGHT as int)
}

/// The sprite column that lands on frame column `c`, counted from origin
/// column `ox`.
pub open spec fn col_offset(ox: int, c: int) -> int {
    (c - ox + SCREEN_WIDTH) % (SCREEN_WIDTH as int)
}

/// Cell `(r, c)` after an 8-wide, `n`-high sprite is drawn from origin
/// `(ox, oy)`: XOR with the sprite bit that lands on it, if any.
pub open spec fn drawn_cell(s: MachineState, ox: int, oy: int, n: int, r: int, c: int) -> u8 {
    let dr = row_offset(oy, r);
    let dc = col_offset(ox, c);
    if dr < n && dc < 8 {
        s.frame[r][c] ^ sprite_bit(sprite_row(s, dr), dc)
    } else {
        s.frame[r][c]
    }
}

/// The frame buffer after an `n`-high sprite is drawn from origin `(ox, oy)`.
pub open spec fn drawn_frame(s: MachineState, ox: int, oy: int, n: int) -> Seq<Seq<u8>> {
    Seq::new(
        SCREEN_HEIGHT as nat,
        |r: int| Seq::new(SCREEN_WIDTH as nat, |c: int| drawn_cell(s, ox, oy, n, r, c)),
    )
}

/// Whether a set sprite bit lands on a cell whose lowest bit is set.
pub open spec fn sprite_collides(s: MachineState, ox: int, oy: int, n: int) -> bool {
    exists|row: int, col: int|
        0 <= row < n && 0 <= col < 8 && (sprite_bit(sprite_row(s, row), col)
            & #[trigger] s.frame[wrap_row(oy, row)][wrap_col(ox, col)]) != 0
}

/// The state after the `Dxyn` sprite draw, before the program counter moves.
pub open spec fn draw_spec(s: MachineState, x: int, y: int, n: int) -> MachineState {
    let ox = s.v[x] as int % (SCREEN_WIDTH as int);
    let oy = s.v[y] as int % (SCREEN_HEIGHT as int);
    MachineState {
        v: s.v.update(FLAG_REGISTER as int, bit_of(sprite_collides(s, ox, oy, n))),
        frame: drawn_frame(s, ox, oy, n),
        frame_changed: true,
        ..s
    }
}

/// Memory after `V0..=Vx` are stored from the index register on; the bytes
/// that would fall past the end are dropped.
pub open spec fn stored_registers(s: MachineState, x: int) -> Seq<u8> {
    Seq::new(
        s.memory.len(),
        |a: int|
            if s.index <= a <= s.index + x {
                s.v[a - s.index]
            } else {
                s.memory[a]
            },
    )
}

/// Registers after `V0..=Vx` are loaded from the index register on; bytes
/// past the end of memory read as 0.
pub open spec fn loaded_registers(s: MachineState, x: int) -> Seq<u8> {
    Seq::new(
        16,
        |i: int|
            if i <= x {
                read_byte(s.memory, s.index + i)
            } else {
                s.v[i]
            },
    )
}

/// Memory after the three decimal digits of `val` are stored from the index
/// register on; the digits that would fall past the end are dropped.
pub open spec fn stored_bcd(s: MachineState, val: u8) -> Seq<u8> {
    let i = s.index as int;
    write_byte(
        write_byte(write_byte(s.memory, i, val / 100), i + 1, (val % 100) / 10),
        i + 2,
        val % 10,
    )
}

/// What one instruction does to the state (the program counter aside), and
/// what it asks of the program counter. `rnd` is the random byte that the
/// random instruction draws.
///
/// A return on an empty stack and a call on a full stack do nothing but
/// advance the program counter.
pub open spec fn execute(s: MachineState, ins: Instruction, rnd: u8) -> (MachineState, PCActions) {
    match ins {
        Instruction::Clear => (
            MachineState { frame: blank_frame(), frame_changed: true, ..s },
            PCActions::Next,
        ),
        Instruction::Return => if s.sp == 0 {
            (s, PCActions::Next)
        } else {
            (MachineState { sp: (s.sp - 1) as u8, ..s }, PCActions::Jump(s.stack[s.sp - 1]))
        },
        Instruction::Jump { addr } => (s, PCActions::Jump(addr)),
        Instruction::Call { addr } => if s.sp >= STACK_SIZE {
            (s, PCActions::Next)
        } else {
            (
                MachineState {
                    stack: s.stack.update(s.sp as int, wrap16(s.pc + OPCODE_SIZE)),
                    sp: (s.sp + 1) as u8,
                    ..s
                },
                PCActions::Jump(addr),
            )
        },
        Instruction::SkipEqImm { x, kk } => (s, skip_if_spec(s.v[x as int] == kk)),
        Instruction::SkipNeImm { x, kk } => (s, skip_if_spec(s.v[x as int] != kk)),
        Instruction::SkipEqReg { x, y } => (s, skip_if_spec(s.v[x as int] == s.v[y as int])),
        Instruction::LoadImm { x, kk } => (with_reg(s, x as int, kk), PCActions::Next),
        Instruction::AddImm { x, kk } => (
            with_reg(s, x as int, wrap8(s.v[x as int] + kk)),
            PCActions::Next,
        ),
        Instruction::Move { x, y } => (with_reg(s, x as int, s.v[y as int]), PCActions::Next),
        Instruction::Or { x, y } => (
            with_reg(s, x as int, s.v[x as int] | s.v[y as int]),
            PCActions::Next,
        ),
        Instruction::And { x, y } => (
            with_reg(s, x as int, s.v[x as int] & s.v[y as int]),
            PCActions::Next,
        ),
        Instruction::Xor { x, y } => (
            with_reg(s, x as int, s.v[x as int] ^ s.v[y as int]),
            PCActions::Next,
        ),
        Instruction::AddReg { x, y } => {
            let sum = s.v[x as int] + s.v[y as int];
            (with_flag_then_reg(s, bit_of(sum > 255), x as int, wrap8(sum)), PCActions::Next)
        },
        Instruction::Sub { x, y } => {
            let a = s.v[x as int];
            let b = s.v[y as int];
            (with_flag_then_reg(s, bit_of(a > b), x as int, wrap8(a - b + 256)), PCActions::Next)
        },
        Instruction::ShiftRight { x } => {
            let a = s.v[x as int];
            (with_flag_then_reg(s, a & 1, x as int, a >> 1u8), PCActions::Next)
        },
        Instruction::SubReversed { x, y } => {
            let a = s.v[x as int];
            let b = s.v[y as int];
            (with_flag_then_reg(s, bit_of(b > a), x as int, wrap8(b - a + 256)), PCActions::Next)
        },
        Instruction::ShiftLeft { x } => {
            let a = s.v[x as int];
            (with_flag_then_reg(s, a >> 7u8, x as int, a << 1u8), PCActions::Next)
        },
        Instruction::SkipNeReg { x, y } => (s, skip_if_spec(s.v[x as int] != s.v[y as int])),
        Instruction::LoadIndex { addr } => (MachineState { index: addr, ..s }, PCActions::Next),
        Instruction::JumpOffset { addr } => (s, PCActions::Jump((s.v[0] + addr) as u16)),
        Instruction::Random { x, kk } => (with_reg(s, x as int, rnd & kk), PCActions::Next),
        Instruction::Draw { x, y, n } => (draw_spec(s, x as int, y as int, n as int), PCActions::Next),
        Instruction::SkipKey { x } => (s, skip_if_spec(key_down(s.keypad, s.v[x as int] as int))),
        Instruction::SkipNotKey { x } => (
            s,
            skip_if_spec(!key_down(s.keypad, s.v[x as int] as int)),
        ),
        Instruction::LoadFromDelay { x } => (with_reg(s, x as int, s.delay), PCActions::Next),
        Instruction::WaitKey { x } => if any_key_down(s.keypad) {
            (with_reg(s, x as int, lowest_pressed(s.keypad) as u8), PCActions::Next)
        } else {
            (s, PCActions::StepBack)
        },
        Instruction::SetDelay { x } => (MachineState { delay: s.v[x as int], ..s }, PCActions::Next),
        Instruction::SetSound { x } => (MachineState { sound: s.v[x as int], ..s }, PCActions::Next),
        Instruction::AddIndex { x } => (
            MachineState { index: wrap16(s.index + s.v[x as int]), ..s },
            PCActions::Next,
        ),
        Instruction::FontGlyph { x } => (
            MachineState { index: (FONT_START + 5 * s.v[x as int]) as u16, ..s },
            PCActions::Next,
        ),
        Instruction::StoreBcd { x } => (
            MachineState { memory: stored_bcd(s, s.v[x as int]), ..s },
            PCActions::Next,
        ),
        Instruction::StoreRegisters { x } => (
            MachineState { memory: stored_registers(s, x as int), ..s },
            PCActions::Next,
        ),
        Instruction::LoadRegisters { x } => (
            MachineState { v: loaded_registers(s, x as int), ..s },
            PCActions::Next,
        ),
        Instruction::Unknown => (s, PCActions::Next),
    }
}

/// The state after the instruction word `op` runs on `s`, program counter
/// included.
pub open spec fn step(s: MachineState, op: u16, rnd: u8) -> MachineState {
    let (t, action) = execute(s, decode_spec(op), rnd);
    MachineState { pc: next_pc(s.pc, action), ..t }
}

/// A timer after one tick: one less, but never below zero.
pub open spec fn countdown(t: u8) -> u8 {
    if t > 0 {
        (t - 1) as u8
    } else {
        0
    }
}

/// The state at the start of a tick: the keypad snapshot taken, the frame
/// flag cleared, the timers counted down.
pub open spec fn begin_tick(s: MachineState, keypad: Seq<bool>) -> MachineState {
    MachineState {
        keypad,
        frame_changed: false,
        delay: countdown(s.delay),
        sound: countdown(s.sound),
        ..s
    }
}

/// The state after one tick with the given keypad snapshot.
pub open spec fn tick_spec(s: MachineState, keypad: Seq<bool>, rnd: u8) -> MachineState {
    let b = begin_tick(s, keypad);
    step(b, fetch_spec(b), rnd)
}

/// Whether the instruction draws a random byte.
pub open spec fn uses_random(ins: Instruction) -> bool {
    ins is Random
}

/// Sprite row `row` and column `col` land on exactly one frame cell each,
/// and that cell's offsets from the origin are `row` and `col` again.
pub proof fn lemma_offsets(ox: int, oy: int, row: int, col: int)
    requires
        0 <= ox < SCREEN_WIDTH,
        0 <= oy < SCREEN_HEIGHT,
        0 <= row < SCREEN_HEIGHT,
        0 <= col < SCREEN_WIDTH,
    ensures
        0 <= wrap_row(oy, row) < SCREEN_HEIGHT,
        0 <= wrap_col(ox, col) < SCREEN_WIDTH,
        row_offset(oy, wrap_row(oy, row)) == row,
        col_offset(ox, wrap_col(ox, col)) == col,
        forall|r: int| 0 <= r < SCREEN_HEIGHT && row_offset(oy, r) == row ==> r == wrap_row(oy, row),
        forall|c: int| 0 <= c < SCREEN_WIDTH && col_offset(ox, c) == col ==> c == wrap_col(ox, col),
{
}

/// Memory after `bytes` are copied in from the program start on; the bytes
/// that would fall past the end are dropped.
pub open spec fn with_program(mem: Seq<u8>, bytes: Seq<u8>) -> Seq<u8> {
    Seq::new(
        mem.len(),
        |a: int|
            if PROGRAM_START <= a < PROGRAM_START + bytes.len() {
                bytes[a - PROGRAM_START]
            } else {
                mem[a]
            },
    )
}

/// Memory with the font installed at `0x50` and every other byte kept.
pub open spec fn with_font(mem: Seq<u8>) -> Seq<u8> {
    Seq::new(
        mem.len(),
        |a: int|
            if FONT_START <= a < FONT_START + 80 {
                font_glyphs_spec()[a - FONT_START]
            } else {
                mem[a]
            },
    )
}

} // verus!
