//! The machine engine: memory, registers, stack, timers, frame buffer and
//! keypad, and the fetch-decode-execute step over them.
use vstd::prelude::*;

use crate::font::{font_glyphs, font_glyphs_spec};
use crate::instruction::{decode, decode_spec, Instruction};
use crate::machine::{
    begin_tick, col_offset, drawn_frame, execute, fetch_spec, initial_memory, initial_state,
    is_lowest_pressed, key_down, lemma_offsets, read_byte, row_offset, skip_if_spec, sprite_bit,
    sprite_collides, sprite_row, step, tick_spec, uses_random, with_font, with_program, wrap_col,
    wrap_row, write_byte, MachineState, PCActions, FLAG_REGISTER, FONT_START, MEMORY_SIZE,
    OPCODE_SIZE, PROGRAM_START, SCREEN_HEIGHT, SCREEN_WIDTH, STACK_SIZE,
};
use crate::rom::{Rom, ROM_SIZE};

verus! {

/// What one tick reports to the caller.
pub struct State<'a> {
    /// The frame buffer after the tick.
    pub video_buffer: &'a [[u8; SCREEN_WIDTH]; SCREEN_HEIGHT],
    /// Whether the tick changed the frame buffer.
    pub video_changed: bool,
    /// Whether the tone should sound.
    pub beep: bool,
}

struct Registers {
    /// The general registers `V0` to `VF`.
    general_registers: [u8; 16],
    /// The index register, holding a memory address.
    index: u16,
    /// Counts down once per tick while non-zero.
    delay_timer: u8,
    /// Counts down once per tick while non-zero; the tone sounds while it is.
    sound_timer: u8,
    /// The keypad snapshot of the current tick.
    keypad: [bool; 16],
}

struct Stack {
    /// Return addresses.
    addresses: [u16; 16],
    /// Number of occupied slots.
    stack_pointer: u8,
}

/// The machine engine.
pub struct CPU {
    /// The 4096 bytes of memory.
    pub memory: [u8; MEMORY_SIZE],
    /// Address of the next instruction.
    program_counter: u16,
    registers: Registers,
    stack: Stack,
    /// The frame buffer, by row then column; a cell is on when it is 1.
    pub video_buffer: [[u8; SCREEN_WIDTH]; SCREEN_HEIGHT],
    video_changed: bool,
}

/// The frame buffer as rows of cells.
pub open spec fn frame_view(buf: [[u8; SCREEN_WIDTH]; SCREEN_HEIGHT]) -> Seq<Seq<u8>> {
    buf@.map_values(|row: [u8; SCREEN_WIDTH]| row@)
}

/// The frame after the first `k` sprite bits (row by row, eight to a row)
/// of a draw are applied.
spec fn partly_drawn(s: MachineState, ox: int, oy: int, n: int, k: int) -> Seq<Seq<u8>> {
    Seq::new(
        SCREEN_HEIGHT as nat,
        |r: int|
            Seq::new(
                SCREEN_WIDTH as nat,
                |c: int|
                    {
                        let dr = row_offset(oy, r);
                        let dc = col_offset(ox, c);
                        if dr < n && dc < 8 && dr * 8 + dc < k {
                            s.frame[r][c] ^ sprite_bit(sprite_row(s, dr), dc)
                        } else {
                            s.frame[r][c]
                        }
                    },
            ),
    )
}

/// Whether one of the first `k` sprite bits of a draw collides.
spec fn collides_before(s: MachineState, ox: int, oy: int, n: int, k: int) -> bool {
    exists|row: int, col: int|
        0 <= row < n && 0 <= col < 8 && row * 8 + col < k && (sprite_bit(sprite_row(s, row), col)
            & #[trigger] s.frame[wrap_row(oy, row)][wrap_col(ox, col)]) != 0
}

impl View for CPU {
    type V = MachineState;

    closed spec fn view(&self) -> MachineState {
        MachineState {
            memory: self.memory@,
            pc: self.program_counter,
            v: self.registers.general_registers@,
            index: self.registers.index,
            delay: self.registers.delay_timer,
            sound: self.registers.sound_timer,
            keypad: self.registers.keypad@,
            stack: self.stack.addresses@,
            sp: self.stack.stack_pointer,
            frame: frame_view(self.video_buffer),
            frame_changed: self.video_changed,
        }
    }
}

impl CPU {
    /// The engine's state is well formed: above all, the stack pointer lies
    /// within the stack.
    pub open spec fn wf(&self) -> bool {
        self@.well_formed()
    }

    /// A new engine: font installed, program counter at the program start,
    /// everything else zero.
    pub fn new() -> (cpu: CPU)
        ensures
            cpu@ == initial_state(),
            cpu.wf(),
    {
        let mem = CPU::load_fonts();
        let cpu = CPU {
            memory: mem,
            program_counter: PROGRAM_START,
            registers: Registers {
                general_registers: [0; 16],
                index: 0,
                delay_timer: 0,
                sound_timer: 0,
                keypad: [false; 16],
            },
            stack: Stack { addresses: [0; 16], stack_pointer: 0 },
            video_buffer: [[0; SCREEN_WIDTH]; SCREEN_HEIGHT],
            video_changed: false,
        };
        proof {
            let s = initial_state();
            assert(cpu@.v =~= s.v);
            assert(cpu@.keypad =~= s.keypad);
            assert(cpu@.stack =~= s.stack);
            assert forall|r: int| 0 <= r < SCREEN_HEIGHT implies cpu@.frame[r] =~= s.frame[r] by {}
            assert(cpu@.frame =~= s.frame);
        }
        cpu
    }

    /// Writes the font into memory at `0x50`, leaving every other byte.
    fn install_font(mem: &mut [u8; MEMORY_SIZE])
        ensures
            final(mem)@ == with_font(old(mem)@),
    {
        let font = font_glyphs();
        let font_start: usize = FONT_START as usize;
        let ghost old_mem = mem@;
        let mut i: usize = 0;
        while i < 80
            invariant
                i <= 80,
                font_start == FONT_START,
                font@ == font_glyphs_spec(),
                old_mem.len() == MEMORY_SIZE,
                mem@ == Seq::new(
                    MEMORY_SIZE as nat,
                    |a: int|
                        if FONT_START <= a < FONT_START + i {
                            font_glyphs_spec()[a - FONT_START]
                        } else {
                            old_mem[a]
                        },
                ),
            decreases 80 - i,
        {
            mem[font_start + i] = font[i];
            i += 1;
            assert(mem@ =~= Seq::new(
                MEMORY_SIZE as nat,
                |a: int|
                    if FONT_START <= a < FONT_START + i {
                        font_glyphs_spec()[a - FONT_START]
                    } else {
                        old_mem[a]
                    },
            ));
        }
        assert(mem@ =~= with_font(old_mem));
    }

    /// A zeroed memory image with the font installed.
    fn load_fonts() -> (mem: [u8; MEMORY_SIZE])
        ensures
            mem@ == initial_memory(),
    {
        let mut mem = [0u8; MEMORY_SIZE];
        CPU::install_font(&mut mem);
        assert(mem@ =~= initial_memory());
        mem
    }

    /// Puts the engine back in its initial state, but for memory outside the
    /// font, which keeps what it holds; the font is installed again.
    pub fn reset(&mut self)
        ensures
            final(self)@ == (MachineState { memory: with_font(old(self)@.memory), ..initial_state() }),
            final(self).wf(),
    {
        let mut mem = self.memory;
        CPU::install_font(&mut mem);
        let mut fresh = CPU::new();
        fresh.memory = mem;
        *self = fresh;
    }

    /// Copies the first `count` bytes of `bytes` into memory from the program
    /// start on, dropping what would fall past the end, and points the
    /// program counter at the program start.
    fn copy_program(&mut self, bytes: &[u8], count: usize)
        requires
            old(self).wf(),
            count <= bytes@.len(),
        ensures
            final(self)@ == (MachineState {
                memory: with_program(old(self)@.memory, bytes@.subrange(0, count as int)),
                pc: PROGRAM_START,
                ..old(self)@
            }),
            final(self).wf(),
    {
        let ghost old_mem = self.memory@;
        let ghost prog = bytes@.subrange(0, count as int);
        let start: usize = PROGRAM_START as usize;
        let mut i: usize = 0;
        while i < count && start + i < MEMORY_SIZE
            invariant
                i <= count,
                count <= bytes@.len(),
                start == PROGRAM_START,
                start + i <= MEMORY_SIZE,
                old_mem.len() == MEMORY_SIZE,
                prog == bytes@.subrange(0, count as int),
                self.memory@ == Seq::new(
                    MEMORY_SIZE as nat,
                    |a: int|
                        if PROGRAM_START <= a < PROGRAM_START + i {
                            prog[a - PROGRAM_START]
                        } else {
                            old_mem[a]
                        },
                ),
                self@ == (MachineState { memory: self.memory@, ..old(self)@ }),
            decreases count - i,
        {
            self.memory[start + i] = bytes[i];
            i += 1;
            assert(self.memory@ =~= Seq::new(
                MEMORY_SIZE as nat,
                |a: int|
                    if PROGRAM_START <= a < PROGRAM_START + i {
                        prog[a - PROGRAM_START]
                    } else {
                        old_mem[a]
                    },
            ));
        }
        self.program_counter = PROGRAM_START;
        assert(self.memory@ =~= with_program(old_mem, prog));
    }

    /// Copies a program into memory from the program start on and points the
    /// program counter there. Bytes past the end of memory are dropped
    /// silently; the rest of the state is kept.
    pub fn load_program(&mut self, bytes: &[u8])
        requires
            old(self).wf(),
        ensures
            final(self)@ == (MachineState {
                memory: with_program(old(self)@.memory, bytes@),
                pc: PROGRAM_START,
                ..old(self)@
            }),
            final(self).wf(),
    {
        self.copy_program(bytes, bytes.len());
        assert(bytes@.subrange(0, bytes@.len() as int) =~= bytes@);
    }

    /// Loads the first `rom.size` bytes of a program image (all of it, where
    /// the size exceeds the image) as `load_program` does.
    pub fn load_rom(&mut self, rom: Rom)
        requires
            old(self).wf(),
        ensures
            final(self)@ == (MachineState {
                memory: with_program(old(self)@.memory, rom.bytes()),
                pc: PROGRAM_START,
                ..old(self)@
            }),
            final(self).wf(),
    {
        let count: usize = if rom.size < ROM_SIZE { rom.size } else { ROM_SIZE };
        self.copy_program(&rom.memory, count);
        assert(rom.memory@.subrange(0, count as int) =~= rom.bytes());
    }

    // CLS: clears the frame buffer.
    fn clear(&mut self) -> (action: PCActions)
        requires
            old(self).wf(),
        ensures
            (final(self)@, action) == execute(old(self)@, Instruction::Clear, 0),
            final(self).wf(),
    {
        self.video_buffer = [[0; SCREEN_WIDTH]; SCREEN_HEIGHT];
        self.video_changed = true;
        proof {
            let t = execute(old(self)@, Instruction::Clear, 0).0;
            assert forall|r: int| 0 <= r < SCREEN_HEIGHT implies self@.frame[r] =~= t.frame[r] by {}
            assert(self@.frame =~= t.frame);
        }
        PCActions::Next
    }

    // RET: pops the return address off the stack and jumps there; on an
    // empty stack it does nothing.
    fn return_operation(&mut self) -> (action: PCActions)
        requires
            old(self).wf(),
        ensures
            (final(self)@, action) == execute(old(self)@, Instruction::Return, 0),
            final(self).wf(),
    {
        if self.stack.stack_pointer == 0 {
            return PCActions::Next;
        }
        self.stack.stack_pointer -= 1;
        PCActions::Jump(self.stack.addresses[self.stack.stack_pointer as usize])
    }

    // JP: jumps to an address.
    fn jump(location: u16) -> (action: PCActions)
        ensures
            action == PCActions::Jump(location),
    {
        PCActions::Jump(location)
    }

    // CALL: pushes the address of the next instruction and jumps; on a full
    // stack it does nothing.
    fn call(&mut self, location: u16) -> (action: PCActions)
        requires
            old(self).wf(),
        ensures
            (final(self)@, action) == execute(old(self)@, Instruction::Call { addr: location }, 0),
            final(self).wf(),
    {
        if self.stack.stack_pointer >= STACK_SIZE {
            return PCActions::Next;
        }
        self.stack.addresses[self.stack.stack_pointer as usize] = self.program_counter.wrapping_add(
            OPCODE_SIZE,
        );
        self.stack.stack_pointer += 1;
        PCActions::Jump(location)
    }

    // Skips if a register equals an immediate.
    fn skip_is_equal(&self, register: usize, data: u8) -> (action: PCActions)
        requires
            self.wf(),
            register < 16,
        ensures
            (self@, action) == execute(self@, Instruction::SkipEqImm { x: register, kk: data }, 0),
    {
        PCActions::skip_if(self.registers.general_registers[register] == data)
    }

    // Skips if a register differs from an immediate.
    fn skip_is_not_equal(&self, register: usize, data: u8) -> (action: PCActions)
        requires
            self.wf(),
            register < 16,
        ensures
            (self@, action) == execute(self@, Instruction::SkipNeImm { x: register, kk: data }, 0),
    {
        PCActions::skip_if(self.registers.general_registers[register] != data)
    }

    // Skips if two registers are equal.
    fn compare_registers(&self, register_x: usize, register_y: usize) -> (action: PCActions)
        requires
            self.wf(),
            register_x < 16,
            register_y < 16,
        ensures
            (self@, action) == execute(self@, Instruction::SkipEqReg { x: register_x, y: register_y }, 0),
    {
        PCActions::skip_if(
            self.registers.general_registers[register_x] == self.registers.general_registers[register_y],
        )
    }

    // Loads an immediate into a register.
    fn load(&mut self, register: usize, data: u8) -> (action: PCActions)
        requires
            old(self).wf(),
            register < 16,
        ensures
            (final(self)@, action) == execute(old(self)@, Instruction::LoadImm { x: register, kk: data }, 0),
            final(self).wf(),
    {
        self.registers.general_registers[register] = data;
        PCActions::Next
    }

    // Adds an immediate to a register, wrapping; the flag is untouched.
    fn add_to_register(&mut self, register: usize, data: u8) -> (action: PCActions)
        requires
            old(self).wf(),
            register < 16,
        ensures
            (final(self)@, action) == execute(old(self)@, Instruction::AddImm { x: register, kk: data }, 0),
            final(self).wf(),
    {
        let sum: u16 = self.registers.general_registers[register] as u16 + data as u16;
        self.registers.general_registers[register] = (sum % 256) as u8;
        PCActions::Next
    }

    // Copies register y into register x.
    fn load_from_register(&mut self, register_x: usize, register_y: usize) -> (action: PCActions)
        requires
            old(self).wf(),
            register_x < 16,
            register_y < 16,
        ensures
            (final(self)@, action) == execute(old(self)@, Instruction::Move { x: register_x, y: register_y }, 0),
            final(self).wf(),
    {
        self.registers.general_registers[register_x] = self.registers.general_registers[register_y];
        PCActions::Next
    }

    // ORs register y into register x.
    fn set_or(&mut self, register_x: usize, register_y: usize) -> (action: PCActions)
        requires
            old(self).wf(),
            register_x < 16,
            register_y < 16,
        ensures
            (final(self)@, action) == execute(old(self)@, Instruction::Or { x: register_x, y: register_y }, 0),
            final(self).wf(),
    {
        let value = self.registers.general_registers[register_x] | self.registers.general_registers[register_y];
        self.registers.general_registers[register_x] = value;
        PCActions::Next
    }

    // ANDs register y into register x.
    fn set_and(&mut self, register_x: usize, register_y: usize) -> (action: PCActions)
        requires
            old(self).wf(),
            register_x < 16,
            register_y < 16,
        ensures
            (final(self)@, action) == execute(old(self)@, Instruction::And { x: register_x, y: register_y }, 0),
            final(self).wf(),
    {
        let value = self.registers.general_registers[register_x] & self.registers.general_registers[register_y];
        self.registers.general_registers[register_x] = value;
        PCActions::Next
    }

    // XORs register y into register x.
    fn set_xor(&mut self, register_x: usize, register_y: usize) -> (action: PCActions)
        requires
            old(self).wf(),
            register_x < 16,
            register_y < 16,
        ensures
            (final(self)@, action) == execute(old(self)@, Instruction::Xor { x: register_x, y: register_y }, 0),
            final(self).wf(),
    {
        let value = self.registers.general_registers[register_x] ^ self.registers.general_registers[register_y];
        self.registers.general_registers[register_x] = value;
        PCActions::Next
    }

    // Adds register y to register x; the flag receives the carry.
    fn add_from_register(&mut self, register_x: usize, register_y: usize) -> (action: PCActions)
        requires
            old(self).wf(),
            register_x < 16,
            register_y < 16,
        ensures
            (final(self)@, action) == execute(old(self)@, Instruction::AddReg { x: register_x, y: register_y }, 0),
            final(self).wf(),
    {
        let x_value = self.registers.general_registers[register_x] as u16;
        let y_value = self.registers.general_registers[register_y] as u16;
        let result = x_value + y_value;
        self.registers.general_registers[FLAG_REGISTER] = if result > 0xFF { 1 } else { 0 };
        self.registers.general_registers[register_x] = (result % 256) as u8;
        PCActions::Next
    }

    // Subtracts register y from register x, wrapping; the flag is 1 when
    // x > y.
    fn subtract_from_register(&mut self, register_x: usize, register_y: usize) -> (action: PCActions)
        requires
            old(self).wf(),
            register_x < 16,
            register_y < 16,
        ensures
            (final(self)@, action) == execute(old(self)@, Instruction::Sub { x: register_x, y: register_y }, 0),
            final(self).wf(),
    {
        let x_value = self.registers.general_registers[register_x];
        let y_value = self.registers.general_registers[register_y];
        self.registers.general_registers[FLAG_REGISTER] = if x_value > y_value { 1 } else { 0 };
        self.registers.general_registers[register_x] = x_value.wrapping_sub(y_value);
        PCActions::Next
    }

    // Shifts a register right by one; the flag receives the bit shifted out.
    fn shift_right(&mut self, register: usize) -> (action: PCActions)
        requires
            old(self).wf(),
            register < 16,
        ensures
            (final(self)@, action) == execute(old(self)@, Instruction::ShiftRight { x: register }, 0),
            final(self).wf(),
    {
        let value = self.registers.general_registers[register];
        self.registers.general_registers[FLAG_REGISTER] = value & 1;
        self.registers.general_registers[register] = value >> 1;
        PCActions::Next
    }

    // Sets register x to register y minus register x, wrapping; the flag is
    // 1 when y > x.
    fn subtract_no_borrow_from_register(&mut self, register_x: usize, register_y: usize) -> (action: PCActions)
        requires
            old(self).wf(),
            register_x < 16,
            register_y < 16,
        ensures
            (final(self)@, action) == execute(old(self)@, Instruction::SubReversed { x: register_x, y: register_y }, 0),
            final(self).wf(),
    {
        let x_value = self.registers.general_registers[register_x];
        let y_value = self.registers.general_registers[register_y];
        self.registers.general_registers[FLAG_REGISTER] = if y_value > x_value { 1 } else { 0 };
        self.registers.general_registers[register_x] = y_value.wrapping_sub(x_value);
        PCActions::Next
    }

    // Shifts a register left by one; the flag receives the bit shifted out.
    fn shift_left(&mut self, register: usize) -> (action: PCActions)
        requires
            old(self).wf(),
            register < 16,
        ensures
            (final(self)@, action) == execute(old(self)@, Instruction::ShiftLeft { x: register }, 0),
            final(self).wf(),
    {
        let value = self.registers.general_registers[register];
        self.registers.general_registers[FLAG_REGISTER] = value >> 7;
        self.registers.general_registers[register] = value << 1;
        PCActions::Next
    }

    // Skips if two registers differ.
    fn skip_is_not_equal_register(&self, register_x: usize, register_y: usize) -> (action: PCActions)
        requires
            self.wf(),
            register_x < 16,
            register_y < 16,
        ensures
            (self@, action) == execute(self@, Instruction::SkipNeReg { x: register_x, y: register_y }, 0),
    {
        PCActions::skip_if(
            self.registers.general_registers[register_x] != self.registers.general_registers[register_y],
        )
    }

    // Loads an address into the index register.
    fn load_index(&mut self, data: u16) -> (action: PCActions)
        requires
            old(self).wf(),
        ensures
            (final(self)@, action) == execute(old(self)@, Instruction::LoadIndex { addr: data }, 0),
            final(self).wf(),
    {
        self.registers.index = data;
        PCActions::Next
    }

    // Jumps to an address plus V0.
    fn jump_plus_vo(&self, data: u16) -> (action: PCActions)
        requires
            self.wf(),
            data < 0x1000,
        ensures
            (self@, action) == execute(self@, Instruction::JumpOffset { addr: data }, 0),
    {
        PCActions::Jump((self.registers.general_registers[0] as u16) + data)
    }

    // Stores a random byte, masked with an immediate, in a register.
    fn random(&mut self, register: usize, data: u8, random_byte: u8) -> (action: PCActions)
        requires
            old(self).wf(),
            register < 16,
        ensures
            (final(self)@, action) == execute(
                old(self)@,
                Instruction::Random { x: register, kk: data },
                random_byte,
            ),
            final(self).wf(),
    {
        self.registers.general_registers[register] = random_byte & data;
        PCActions::Next
    }

    // Skips if the key named by a register is down.
    fn skip_if_key(&self, register: usize) -> (action: PCActions)
        requires
            self.wf(),
            register < 16,
        ensures
            (self@, action) == execute(self@, Instruction::SkipKey { x: register }, 0),
    {
        PCActions::skip_if(self.key_is_down(self.registers.general_registers[register]))
    }

    // Skips if the key named by a register is up.
    fn skip_if_not_key(&self, register: usize) -> (action: PCActions)
        requires
            self.wf(),
            register < 16,
        ensures
            (self@, action) == execute(self@, Instruction::SkipNotKey { x: register }, 0),
    {
        PCActions::skip_if(!self.key_is_down(self.registers.general_registers[register]))
    }

    /// Whether key `key` exists and is down in the current snapshot.
    fn key_is_down(&self, key: u8) -> (down: bool)
        ensures
            down == key_down(self@.keypad, key as int),
    {
        key < 16 && self.registers.keypad[key as usize]
    }

    // Copies the delay timer into a register.
    fn load_register_from_delay(&mut self, register: usize) -> (action: PCActions)
        requires
            old(self).wf(),
            register < 16,
        ensures
            (final(self)@, action) == execute(old(self)@, Instruction::LoadFromDelay { x: register }, 0),
            final(self).wf(),
    {
        self.registers.general_registers[register] = self.registers.delay_timer;
        PCActions::Next
    }

    // Waits for a key: stores the lowest index of a key that is down and
    // advances, or holds the program counter when none is.
    fn wait_key_press(&mut self, register: usize) -> (action: PCActions)
        requires
            old(self).wf(),
            register < 16,
        ensures
            (final(self)@, action) == execute(old(self)@, Instruction::WaitKey { x: register }, 0),
            final(self).wf(),
    {
        let mut i: usize = 0;
        while i < 16
            invariant
                i <= 16,
                register < 16,
                self@ == old(self)@,
                self.wf(),
                forall|j: int| 0 <= j < i ==> !(#[trigger] self@.keypad[j]),
            decreases 16 - i,
        {
            if self.registers.keypad[i] {
                assert(is_lowest_pressed(self@.keypad, i as int));
                self.registers.general_registers[register] = i as u8;
                return PCActions::Next;
            }
            i += 1;
        }
        PCActions::StepBack
    }

    // Copies a register into the delay timer.
    fn load_delay_from_register(&mut self, register: usize) -> (action: PCActions)
        requires
            old(self).wf(),
            register < 16,
        ensures
            (final(self)@, action) == execute(old(self)@, Instruction::SetDelay { x: register }, 0),
            final(self).wf(),
    {
        self.registers.delay_timer = self.registers.general_registers[register];
        PCActions::Next
    }

    // Copies a register into the sound timer.
    fn load_sound_from_register(&mut self, register: usize) -> (action: PCActions)
        requires
            old(self).wf(),
            register < 16,
        ensures
            (final(self)@, action) == execute(old(self)@, Instruction::SetSound { x: register }, 0),
            final(self).wf(),
    {
        self.registers.sound_timer = self.registers.general_registers[register];
        PCActions::Next
    }

    // Adds a register to the index register, wrapping at 16 bits.
    fn add_index(&mut self, register: usize) -> (action: PCActions)
        requires
            old(self).wf(),
            register < 16,
        ensures
            (final(self)@, action) == execute(old(self)@, Instruction::AddIndex { x: register }, 0),
            final(self).wf(),
    {
        self.registers.index = self.registers.index.wrapping_add(
            self.registers.general_registers[register] as u16,
        );
        PCActions::Next
    }

    // Points the index register at the font glyph for the digit in a register.
    fn index_sprite(&mut self, register: usize) -> (action: PCActions)
        requires
            old(self).wf(),
            register < 16,
        ensures
            (final(self)@, action) == execute(old(self)@, Instruction::FontGlyph { x: register }, 0),
            final(self).wf(),
    {
        let register_value = self.registers.general_registers[register] as u16;
        self.registers.index = FONT_START + 5 * register_value;
        PCActions::Next
    }

    /// The byte at `addr`, or 0 past the end of memory.
    fn read_memory(&self, addr: usize) -> (byte: u8)
        requires
            self.wf(),
        ensures
            byte == read_byte(self@.memory, addr as int),
    {
        if addr < MEMORY_SIZE {
            self.memory[addr]
        } else {
            0
        }
    }

    /// Writes `byte` at `addr`; a write past the end of memory is dropped.
    fn write_memory(&mut self, addr: usize, byte: u8)
        requires
            old(self).wf(),
        ensures
            final(self)@ == (MachineState {
                memory: write_byte(old(self)@.memory, addr as int, byte),
                ..old(self)@
            }),
            final(self).wf(),
    {
        if addr < MEMORY_SIZE {
            self.memory[addr] = byte;
        }
    }

    // Stores the hundreds, tens and ones digits of a register from the index
    // register on.
    fn store_bcd(&mut self, register: usize) -> (action: PCActions)
        requires
            old(self).wf(),
            register < 16,
        ensures
            (final(self)@, action) == execute(old(self)@, Instruction::StoreBcd { x: register }, 0),
            final(self).wf(),
    {
        let register_value = self.registers.general_registers[register];
        let index: usize = self.registers.index as usize;
        self.write_memory(index, register_value / 100);
        self.write_memory(index + 1, (register_value % 100) / 10);
        self.write_memory(index + 2, register_value % 10);
        PCActions::Next
    }

    // Stores registers V0 through Vx from the index register on.
    fn store_registers(&mut self, register: usize) -> (action: PCActions)
        requires
            old(self).wf(),
            register < 16,
        ensures
            (final(self)@, action) == execute(old(self)@, Instruction::StoreRegisters { x: register }, 0),
            final(self).wf(),
    {
        let ghost s = self@;
        let index: usize = self.registers.index as usize;
        let mut i: usize = 0;
        while i <= register
            invariant
                i <= register + 1,
                register < 16,
                index == s.index,
                s.well_formed(),
                self.wf(),
                self@ == (MachineState { memory: self@.memory, ..s }),
                self@.memory == Seq::new(
                    s.memory.len(),
                    |a: int|
                        if s.index <= a < s.index + i {
                            s.v[a - s.index]
                        } else {
                            s.memory[a]
                        },
                ),
            decreases register + 1 - i,
        {
            let value = self.registers.general_registers[i];
            self.write_memory(index + i, value);
            i += 1;
            assert(self@.memory =~= Seq::new(
                s.memory.len(),
                |a: int|
                    if s.index <= a < s.index + i {
                        s.v[a - s.index]
                    } else {
                        s.memory[a]
                    },
            ));
        }
        assert(self@.memory =~= execute(s, Instruction::StoreRegisters { x: register }, 0).0.memory);
        PCActions::Next
    }

    // Loads registers V0 through Vx from the index register on.
    fn load_registers_from_index(&mut self, register: usize) -> (action: PCActions)
        requires
            old(self).wf(),
            register < 16,
        ensures
            (final(self)@, action) == execute(old(self)@, Instruction::LoadRegisters { x: register }, 0),
            final(self).wf(),
    {
        let ghost s = self@;
        let index: usize = self.registers.index as usize;
        let mut i: usize = 0;
        while i <= register
            invariant
                i <= register + 1,
                register < 16,
                index == s.index,
                s.well_formed(),
                self.wf(),
                self@ == (MachineState { v: self@.v, ..s }),
                self@.v == Seq::new(
                    16,
                    |j: int|
                        if j < i {
                            read_byte(s.memory, s.index + j)
                        } else {
                            s.v[j]
                        },
                ),
            decreases register + 1 - i,
        {
            let value = self.read_memory(index + i);
            self.registers.general_registers[i] = value;
            i += 1;
            assert(self@.v =~= Seq::new(
                16,
                |j: int|
                    if j < i {
                        read_byte(s.memory, s.index + j)
                    } else {
                        s.v[j]
                    },
            ));
        }
        assert(self@.v =~= execute(s, Instruction::LoadRegisters { x: register }, 0).0.v);
        PCActions::Next
    }

    // DRW: XORs an n-byte sprite from the index register onto the frame
    // buffer at (Vx, Vy), wrapping at the edges; the flag tells whether a lit
    // cell was turned off.
    #[verifier::rlimit(50)]
    fn display(&mut self, register_x: usize, register_y: usize, num_of_bytes: usize) -> (action: PCActions)
        requires
            old(self).wf(),
            register_x < 16,
            register_y < 16,
            num_of_bytes < 16,
        ensures
            (final(self)@, action) == execute(
                old(self)@,
                Instruction::Draw { x: register_x, y: register_y, n: num_of_bytes },
                0,
            ),
            final(self).wf(),
    {
        let ghost s = self@;
        let ox: usize = self.registers.general_registers[register_x] as usize % SCREEN_WIDTH;
        let oy: usize = self.registers.general_registers[register_y] as usize % SCREEN_HEIGHT;
        let index: usize = self.registers.index as usize;
        let ghost n = num_of_bytes as int;
        let mut collision: bool = false;
        let mut row: usize = 0;
        assert(partly_drawn(s, ox as int, oy as int, n, 0) =~= s.frame) by {
            assert forall|r: int| 0 <= r < SCREEN_HEIGHT implies #[trigger] partly_drawn(
                s,
                ox as int,
                oy as int,
                n,
                0,
            )[r] =~= s.frame[r] by {}
        }
        while row < num_of_bytes
            invariant
                row <= num_of_bytes < 16,
                n == num_of_bytes,
                ox < SCREEN_WIDTH,
                oy < SCREEN_HEIGHT,
                ox == s.v[register_x as int] as int % (SCREEN_WIDTH as int),
                oy == s.v[register_y as int] as int % (SCREEN_HEIGHT as int),
                register_x < 16,
                register_y < 16,
                index == s.index,
                s.well_formed(),
                self.wf(),
                self@ == (MachineState { frame: self@.frame, ..s }),
                self@.frame == partly_drawn(s, ox as int, oy as int, n, row * 8),
                collision == collides_before(s, ox as int, oy as int, n, row * 8),
            decreases num_of_bytes - row,
        {
            let y: usize = (oy + row) % SCREEN_HEIGHT;
            let current_byte = self.read_memory(index + row);
            let mut col: usize = 0;
            while col < 8
                invariant
                    row < num_of_bytes < 16,
                    col <= 8,
                    n == num_of_bytes,
                    ox < SCREEN_WIDTH,
                    oy < SCREEN_HEIGHT,
                    y == wrap_row(oy as int, row as int),
                    current_byte == sprite_row(s, row as int),
                    s.well_formed(),
                    self.wf(),
                    self@ == (MachineState { frame: self@.frame, ..s }),
                    self@.frame == partly_drawn(s, ox as int, oy as int, n, row * 8 + col),
                    collision == collides_before(s, ox as int, oy as int, n, row * 8 + col),
                decreases 8 - col,
            {
                let x: usize = (ox + col) % SCREEN_WIDTH;
                let bit_on: u8 = (current_byte >> (7 - col) as u8) & 1;
                let ghost k = row * 8 + col;
                proof {
                    lemma_offsets(ox as int, oy as int, row as int, col as int);
                }
                let ghost f0 = self@.frame;
                let cell = self.video_buffer[y][x];
                assert(f0[y as int] == self.video_buffer[y as int]@);
                assert(cell == s.frame[y as int][x as int]);
                if bit_on & cell != 0 {
                    collision = true;
                }
                self.video_buffer[y][x] = cell ^ bit_on;
                col += 1;
                proof {
                    let f1 = f0.update(y as int, f0[y as int].update(x as int, cell ^ bit_on));
                    assert forall|r: int| 0 <= r < SCREEN_HEIGHT implies #[trigger] self@.frame[r]
                        =~= f1[r] by {}
                    assert(self@.frame =~= f1);
                    let p = partly_drawn(s, ox as int, oy as int, n, k + 1);
                    assert forall|r: int| 0 <= r < SCREEN_HEIGHT implies #[trigger] f1[r] =~= p[r] by {
                        assert forall|c: int| 0 <= c < SCREEN_WIDTH implies #[trigger] f1[r][c] == p[r][c] by {
                            if r == y && c == x {
                            } else {
                                let dr = row_offset(oy as int, r);
                                let dc = col_offset(ox as int, c);
                                assert(!(dr * 8 + dc == k && dr < n && dc < 8));
                            }
                        }
                    }
                    assert(self@.frame =~= p);
                    if collision && !collides_before(s, ox as int, oy as int, n, k) {
                        assert((sprite_bit(sprite_row(s, row as int), col - 1) & s.frame[wrap_row(
                            oy as int,
                            row as int,
                        )][wrap_col(ox as int, col - 1)]) != 0);
                    }
                    assert(collision == collides_before(s, ox as int, oy as int, n, k + 1));
                }
            }
            row += 1;
        }
        self.registers.general_registers[FLAG_REGISTER] = if collision { 1 } else { 0 };
        self.video_changed = true;
        proof {
            let t = execute(s, Instruction::Draw { x: register_x, y: register_y, n: num_of_bytes }, 0).0;
            let d = drawn_frame(s, ox as int, oy as int, n);
            assert forall|r: int| 0 <= r < SCREEN_HEIGHT implies #[trigger] self@.frame[r] =~= d[r] by {}
            assert(self@.frame =~= t.frame);
            assert(collision == sprite_collides(s, ox as int, oy as int, n));
            assert(self@.v =~= t.v);
        }
        PCActions::Next
    }

    // Fetches the instruction word at the program counter, high byte first.
    fn get_operation(&self) -> (operation: u16)
        requires
            self.wf(),
        ensures
            operation == fetch_spec(self@),
    {
        let pc = self.program_counter as usize;
        let high = self.read_memory(pc) as u16;
        let low = self.read_memory(pc + 1) as u16;
        high * 256 + low
    }

    /// Runs one instruction word with `random_byte` as the byte that the
    /// random instruction draws, and moves the program counter as the
    /// instruction asks.
    pub fn execute_operation(&mut self, operation: u16, random_byte: u8)
        requires
            old(self).wf(),
        ensures
            final(self)@ == step(old(self)@, operation, random_byte),
            final(self).wf(),
    {
        let pc_action = self.run_instruction(decode(operation), random_byte);
        match pc_action {
            PCActions::Next => self.program_counter = self.program_counter.wrapping_add(OPCODE_SIZE),
            PCActions::Skip => self.program_counter = self.program_counter.wrapping_add(
                2 * OPCODE_SIZE,
            ),
            PCActions::Jump(addr) => self.program_counter = addr,
            PCActions::StepBack => {},
        }
    }

    // Dispatches a decoded instruction to its handler.
    #[verifier::rlimit(100)]
    #[verifier::spinoff_prover]
    fn run_instruction(&mut self, instruction: Instruction, random_byte: u8) -> (action: PCActions)
        requires
            old(self).wf(),
            instruction.operands_in_range(),
        ensures
            (final(self)@, action) == execute(old(self)@, instruction, random_byte),
            final(self).wf(),
    {
        match instruction {
            Instruction::Clear => self.clear(),
            Instruction::Return => self.return_operation(),
            Instruction::Jump { addr } => CPU::jump(addr),
            Instruction::Call { addr } => self.call(addr),
            Instruction::SkipEqImm { x, kk } => self.skip_is_equal(x, kk),
            Instruction::SkipNeImm { x, kk } => self.skip_is_not_equal(x, kk),
            Instruction::SkipEqReg { x, y } => self.compare_registers(x, y),
            Instruction::LoadImm { x, kk } => self.load(x, kk),
            Instruction::AddImm { x, kk } => self.add_to_register(x, kk),
            Instruction::Move { x, y } => self.load_from_register(x, y),
            Instruction::Or { x, y } => self.set_or(x, y),
            Instruction::And { x, y } => self.set_and(x, y),
            Instruction::Xor { x, y } => self.set_xor(x, y),
            Instruction::AddReg { x, y } => self.add_from_register(x, y),
            Instruction::Sub { x, y } => self.subtract_from_register(x, y),
            Instruction::ShiftRight { x } => self.shift_right(x),
            Instruction::SubReversed { x, y } => self.subtract_no_borrow_from_register(x, y),
            Instruction::ShiftLeft { x } => self.shift_left(x),
            Instruction::SkipNeReg { x, y } => self.skip_is_not_equal_register(x, y),
            Instruction::LoadIndex { addr } => self.load_index(addr),
            Instruction::JumpOffset { addr } => self.jump_plus_vo(addr),
            Instruction::Random { x, kk } => self.random(x, kk, random_byte),
            Instruction::Draw { x, y, n } => self.display(x, y, n),
            Instruction::SkipKey { x } => self.skip_if_key(x),
            Instruction::SkipNotKey { x } => self.skip_if_not_key(x),
            Instruction::LoadFromDelay { x } => self.load_register_from_delay(x),
            Instruction::WaitKey { x } => self.wait_key_press(x),
            Instruction::SetDelay { x } => self.load_delay_from_register(x),
            Instruction::SetSound { x } => self.load_sound_from_register(x),
            Instruction::AddIndex { x } => self.add_index(x),
            Instruction::FontGlyph { x } => self.index_sprite(x),
            Instruction::StoreBcd { x } => self.store_bcd(x),
            Instruction::StoreRegisters { x } => self.store_registers(x),
            Instruction::LoadRegisters { x } => self.load_registers_from_index(x),
            Instruction::Unknown => PCActions::Next,
        }
    }

    /// Runs one instruction word and moves the program counter as the
    /// instruction asks. The random instruction draws its byte from the
    /// thread-local generator; every other instruction is determined by the
    /// state and the word.
    pub fn run_operation(&mut self, operation: u16)
        requires
            old(self).wf(),
        ensures
            exists|random_byte: u8| final(self)@ == step(old(self)@, operation, random_byte),
            !uses_random(decode_spec(operation)) ==> final(self)@ == step(old(self)@, operation, 0),
            final(self).wf(),
    {
        let random_byte: u8 = if matches!(decode(operation), Instruction::Random { .. }) {
            draw_random_byte()
        } else {
            0
        };
        self.execute_operation(operation, random_byte);
    }

    /// One execution step: takes the keypad snapshot, clears the frame flag,
    /// counts the timers down, then fetches and runs the instruction at the
    /// program counter. Reports whether the frame buffer changed and whether
    /// the tone should sound.
    pub fn tick(&mut self, keypad: [bool; 16]) -> (state: State)
        requires
            old(self).wf(),
        ensures
            exists|random_byte: u8| final(self)@ == tick_spec(old(self)@, keypad@, random_byte),
            !uses_random(decode_spec(fetch_spec(begin_tick(old(self)@, keypad@)))) ==> final(self)@
                == tick_spec(old(self)@, keypad@, 0),
            final(self).wf(),
            frame_view(*state.video_buffer) == final(self)@.frame,
            state.video_changed == final(self)@.frame_changed,
            state.beep == (final(self)@.sound > 0),
    {
        self.registers.keypad = keypad;
        self.video_changed = false;
        if self.registers.delay_timer > 0 {
            self.registers.delay_timer -= 1;
        }
        if self.registers.sound_timer > 0 {
            self.registers.sound_timer -= 1;
        }
        let ghost b = self@;
        assert(b == begin_tick(old(self)@, keypad@));
        let operation = self.get_operation();
        self.run_operation(operation);
        proof {
            let r = choose|r: u8| self@ == step(b, operation, r);
            assert(self@ == tick_spec(old(self)@, keypad@, r));
        }
        State {
            video_buffer: &self.video_buffer,
            video_changed: self.video_changed,
            beep: self.registers.sound_timer > 0,
        }
    }

    /// The program counter.
    pub fn program_counter(&self) -> (pc: u16)
        ensures
            pc == self@.pc,
    {
        self.program_counter
    }

    /// The value of register `register`.
    pub fn register(&self, register: usize) -> (value: u8)
        requires
            register < 16,
        ensures
            value == self@.v[register as int],
    {
        self.registers.general_registers[register]
    }

    /// All sixteen registers.
    pub fn general_registers(&self) -> (values: [u8; 16])
        ensures
            values@ == self@.v,
    {
        self.registers.general_registers
    }

    /// Sets register `register` to `value`.
    pub fn set_register(&mut self, register: usize, value: u8)
        requires
            old(self).wf(),
            register < 16,
        ensures
            final(self)@ == (MachineState { v: old(self)@.v.update(register as int, value), ..old(self)@ }),
            final(self).wf(),
    {
        self.registers.general_registers[register] = value;
    }

    /// Sets all sixteen registers.
    pub fn set_general_registers(&mut self, values: [u8; 16])
        requires
            old(self).wf(),
        ensures
            final(self)@ == (MachineState { v: values@, ..old(self)@ }),
            final(self).wf(),
    {
        self.registers.general_registers = values;
    }

    /// The index register.
    pub fn index(&self) -> (index: u16)
        ensures
            index == self@.index,
    {
        self.registers.index
    }

    /// Sets the index register.
    pub fn set_index(&mut self, index: u16)
        requires
            old(self).wf(),
        ensures
            final(self)@ == (MachineState { index, ..old(self)@ }),
            final(self).wf(),
    {
        self.registers.index = index;
    }

    /// The delay timer.
    pub fn delay_timer(&self) -> (value: u8)
        ensures
            value == self@.delay,
    {
        self.registers.delay_timer
    }

    /// Sets the delay timer.
    pub fn set_delay_timer(&mut self, value: u8)
        requires
            old(self).wf(),
        ensures
            final(self)@ == (MachineState { delay: value, ..old(self)@ }),
            final(self).wf(),
    {
        self.registers.delay_timer = value;
    }

    /// The sound timer.
    pub fn sound_timer(&self) -> (value: u8)
        ensures
            value == self@.sound,
    {
        self.registers.sound_timer
    }

    /// Sets the sound timer.
    pub fn set_sound_timer(&mut self, value: u8)
        requires
            old(self).wf(),
        ensures
            final(self)@ == (MachineState { sound: value, ..old(self)@ }),
            final(self).wf(),
    {
        self.registers.sound_timer = value;
    }

    /// Marks key `key` down or up in the current snapshot.
    pub fn set_key(&mut self, key: usize, down: bool)
        requires
            old(self).wf(),
            key < 16,
        ensures
            final(self)@ == (MachineState { keypad: old(self)@.keypad.update(key as int, down), ..old(self)@ }),
            final(self).wf(),
    {
        self.registers.keypad[key] = down;
    }

    /// The stack pointer: how many return addresses the stack holds.
    pub fn stack_pointer(&self) -> (sp: u8)
        ensures
            sp == self@.sp,
    {
        self.stack.stack_pointer
    }

    /// Sets the stack pointer.
    pub fn set_stack_pointer(&mut self, sp: u8)
        requires
            old(self).wf(),
            sp <= STACK_SIZE,
        ensures
            final(self)@ == (MachineState { sp, ..old(self)@ }),
            final(self).wf(),
    {
        self.stack.stack_pointer = sp;
    }

    /// The sixteen stack slots.
    pub fn stack_addresses(&self) -> (addresses: [u16; 16])
        ensures
            addresses@ == self@.stack,
    {
        self.stack.addresses
    }

    /// Sets stack slot `slot` to `addr`.
    pub fn set_stack_address(&mut self, slot: usize, addr: u16)
        requires
            old(self).wf(),
            slot < 16,
        ensures
            final(self)@ == (MachineState { stack: old(self)@.stack.update(slot as int, addr), ..old(self)@ }),
            final(self).wf(),
    {
        self.stack.addresses[slot] = addr;
    }

    /// Whether the current tick has changed the frame buffer.
    pub fn video_changed(&self) -> (changed: bool)
        ensures
            changed == self@.frame_changed,
    {
        self.video_changed
    }
}

/// Relies on `rand::random::<u8>`, which draws a byte from the thread-local
/// generator; nothing is promised of its value.
#[verifier::external_body]
fn draw_random_byte() -> u8 {
    rand::random::<u8>()
}

impl PCActions {
    /// `Skip` when the condition holds, else `Next`.
    pub fn skip_if(condition: bool) -> (action: PCActions)
        ensures
            action == skip_if_spec(condition),
    {
        if condition {
            PCActions::Skip
        } else {
            PCActions::Next
        }
    }
}

} // verus!
