use chip8::{decode, Instruction, Rom, CPU, SCREEN_HEIGHT, SCREEN_WIDTH};

fn with_program(program: &[u8]) -> CPU {
    let mut chip = CPU::new();
    chip.load_program(program);
    chip
}

const NO_KEYS: [bool; 16] = [false; 16];

#[test]
fn add_with_carry_at_the_boundary() {
    let mut chip = CPU::new();
    chip.set_register(1, 0x80);
    chip.set_register(2, 0x80);
    chip.run_operation(0x8124);
    assert_eq!(chip.register(1), 0);
    assert_eq!(chip.register(0xf), 1);
    chip.set_register(1, 0xff);
    chip.set_register(2, 0x00);
    chip.run_operation(0x8124);
    assert_eq!(chip.register(1), 0xff);
    assert_eq!(chip.register(0xf), 0);
}

#[test]
fn add_into_flag_register_keeps_the_sum() {
    let mut chip = CPU::new();
    chip.set_register(0xf, 0xf0);
    chip.set_register(1, 0x20);
    chip.run_operation(0x8f14);
    assert_eq!(chip.register(0xf), 0x10);
}

#[test]
fn subtract_equal_values_clears_the_flag() {
    let mut chip = CPU::new();
    chip.set_register(4, 0x33);
    chip.set_register(5, 0x33);
    chip.set_register(0xf, 1);
    chip.run_operation(0x8455);
    assert_eq!(chip.register(4), 0);
    assert_eq!(chip.register(0xf), 0);
}

#[test]
fn shifts_move_the_outgoing_bit_into_the_flag() {
    let mut chip = CPU::new();
    chip.set_register(6, 0b1000_0001);
    chip.run_operation(0x8606);
    assert_eq!(chip.register(6), 0b0100_0000);
    assert_eq!(chip.register(0xf), 1);
    chip.set_register(6, 0b0100_0001);
    chip.run_operation(0x860e);
    assert_eq!(chip.register(6), 0b1000_0010);
    assert_eq!(chip.register(0xf), 0);
    chip.run_operation(0x860e);
    assert_eq!(chip.register(6), 0b0000_0100);
    assert_eq!(chip.register(0xf), 1);
}

#[test]
fn clear_through_a_tick_reports_the_change() {
    let mut chip = with_program(&[0x00, 0xE0]);
    chip.video_buffer = [[1; SCREEN_WIDTH]; SCREEN_HEIGHT];
    let state = chip.tick(NO_KEYS);
    assert!(state.video_changed);
    assert!(state.video_buffer.iter().all(|row| row.iter().all(|&c| c == 0)));
    assert_eq!(chip.program_counter(), 0x202);
}

#[test]
fn full_row_sprite_on_lit_cells_turns_them_off() {
    let mut chip = CPU::new();
    chip.set_index(0x300);
    chip.memory[0x300] = 0xFF;
    chip.set_register(0, 60);
    chip.set_register(1, 31);
    for col in 0..8 {
        chip.video_buffer[31][(60 + col) % SCREEN_WIDTH] = 1;
    }
    chip.run_operation(0xD011);
    for col in 0..8 {
        assert_eq!(chip.video_buffer[31][(60 + col) % SCREEN_WIDTH], 0);
    }
    assert_eq!(chip.register(0xf), 1);
    assert!(chip.video_changed());
}

#[test]
fn full_row_sprite_on_dark_cells_turns_them_on() {
    let mut chip = CPU::new();
    chip.set_index(0x300);
    chip.memory[0x300] = 0xFF;
    chip.set_register(0, 60 + 64);
    chip.set_register(1, 31 + 32);
    chip.set_register(0xf, 1);
    chip.run_operation(0xD011);
    for col in 0..8 {
        assert_eq!(chip.video_buffer[31][(60 + col) % SCREEN_WIDTH], 1);
    }
    assert_eq!(chip.video_buffer[31][4], 0);
    assert_eq!(chip.video_buffer[0][60], 0);
    assert_eq!(chip.register(0xf), 0);
}

#[test]
fn sprite_rows_wrap_to_the_top() {
    let mut chip = CPU::new();
    chip.set_index(0x300);
    chip.memory[0x300] = 0x80;
    chip.memory[0x301] = 0x80;
    chip.set_register(2, 0);
    chip.set_register(3, 31);
    chip.run_operation(0xD232);
    assert_eq!(chip.video_buffer[31][0], 1);
    assert_eq!(chip.video_buffer[0][0], 1);
    assert_eq!(chip.video_buffer[0][1], 0);
}

#[test]
fn sprite_bytes_past_memory_read_as_zero() {
    let mut chip = CPU::new();
    chip.set_index(0xFFF);
    chip.memory[0xFFF] = 0xFF;
    chip.run_operation(0xD003);
    assert_eq!(chip.video_buffer[0][0], 1);
    assert_eq!(chip.video_buffer[1][0], 0);
    assert_eq!(chip.video_buffer[2][7], 0);
}

#[test]
fn call_then_return_comes_back_after_the_call() {
    let mut chip = with_program(&[0x23, 0x00]);
    chip.memory[0x300] = 0x00;
    chip.memory[0x301] = 0xEE;
    chip.tick(NO_KEYS);
    assert_eq!(chip.program_counter(), 0x300);
    assert_eq!(chip.stack_pointer(), 1);
    chip.tick(NO_KEYS);
    assert_eq!(chip.program_counter(), 0x202);
    assert_eq!(chip.stack_pointer(), 0);
}

#[test]
fn call_on_a_full_stack_is_ignored() {
    let mut chip = CPU::new();
    chip.set_stack_pointer(16);
    chip.run_operation(0x2300);
    assert_eq!(chip.stack_pointer(), 16);
    assert_eq!(chip.program_counter(), 0x202);
    assert_eq!(chip.stack_addresses(), [0; 16]);
}

#[test]
fn return_on_an_empty_stack_is_ignored() {
    let mut chip = CPU::new();
    chip.run_operation(0x00EE);
    assert_eq!(chip.stack_pointer(), 0);
    assert_eq!(chip.program_counter(), 0x202);
}

#[test]
fn store_then_load_restores_the_registers() {
    let mut chip = CPU::new();
    let values: [u8; 16] = [9, 8, 7, 6, 5, 4, 3, 2, 1, 0, 11, 22, 33, 44, 55, 66];
    chip.set_general_registers(values);
    chip.set_index(0x400);
    chip.run_operation(0xF755);
    chip.set_general_registers([0; 16]);
    chip.run_operation(0xF765);
    let loaded = chip.general_registers();
    assert_eq!(loaded[..8], values[..8]);
    assert_eq!(loaded[8..], [0; 8]);
}

#[test]
fn block_store_past_memory_drops_the_rest() {
    let mut chip = CPU::new();
    chip.set_general_registers([1, 2, 3, 4, 0, 0, 0, 0, 0, 0, 0, 0, 0, 0, 0, 0]);
    chip.set_index(0xFFE);
    chip.run_operation(0xF355);
    assert_eq!(chip.memory[0xFFE], 1);
    assert_eq!(chip.memory[0xFFF], 2);
    chip.set_general_registers([7; 16]);
    chip.run_operation(0xF365);
    assert_eq!(chip.general_registers()[..5], [1, 2, 0, 0, 7]);
}

#[test]
fn bcd_of_174_is_one_seven_four() {
    let mut chip = CPU::new();
    chip.set_register(2, 174);
    chip.set_index(0x300);
    chip.run_operation(0xF233);
    assert_eq!(chip.memory[0x300..0x303], [1, 7, 4]);
}

#[test]
fn bcd_of_extremes() {
    let mut chip = CPU::new();
    chip.set_register(2, 255);
    chip.set_index(0x300);
    chip.run_operation(0xF233);
    assert_eq!(chip.memory[0x300..0x303], [2, 5, 5]);
    chip.set_register(2, 0);
    chip.run_operation(0xF233);
    assert_eq!(chip.memory[0x300..0x303], [0, 0, 0]);
}

#[test]
fn bcd_at_the_end_of_memory_drops_the_overflow() {
    let mut chip = CPU::new();
    chip.set_register(2, 174);
    chip.set_index(0xFFF);
    chip.run_operation(0xF233);
    assert_eq!(chip.memory[0xFFF], 1);
}

#[test]
fn key_wait_holds_until_a_key_is_down() {
    let mut chip = with_program(&[0xF3, 0x0A]);
    chip.tick(NO_KEYS);
    assert_eq!(chip.program_counter(), 0x200);
    chip.tick(NO_KEYS);
    assert_eq!(chip.program_counter(), 0x200);
    let mut keys = NO_KEYS;
    keys[9] = true;
    keys[5] = true;
    chip.tick(keys);
    assert_eq!(chip.program_counter(), 0x202);
    assert_eq!(chip.register(3), 5);
}

#[test]
fn delay_timer_stops_at_zero() {
    let mut chip = with_program(&[0x00, 0x00, 0x00, 0x00, 0x00, 0x00]);
    chip.set_delay_timer(1);
    chip.tick(NO_KEYS);
    assert_eq!(chip.delay_timer(), 0);
    chip.tick(NO_KEYS);
    assert_eq!(chip.delay_timer(), 0);
    chip.tick(NO_KEYS);
    assert_eq!(chip.delay_timer(), 0);
}

#[test]
fn sound_is_active_while_the_sound_timer_runs() {
    let mut chip = with_program(&[0x00, 0x00, 0x00, 0x00]);
    chip.set_sound_timer(2);
    let state = chip.tick(NO_KEYS);
    assert!(state.beep);
    assert!(!state.video_changed);
    let state = chip.tick(NO_KEYS);
    assert!(!state.beep);
    assert_eq!(chip.sound_timer(), 0);
}

#[test]
fn tick_counts_down_before_the_instruction_reads_the_timer() {
    let mut chip = with_program(&[0xF4, 0x07]);
    chip.set_delay_timer(10);
    chip.tick(NO_KEYS);
    assert_eq!(chip.register(4), 9);
}

#[test]
fn tick_takes_the_keypad_snapshot() {
    let mut chip = with_program(&[0xE1, 0x9E]);
    chip.set_register(1, 7);
    let mut keys = NO_KEYS;
    keys[7] = true;
    chip.tick(keys);
    assert_eq!(chip.program_counter(), 0x204);
}

#[test]
fn unknown_instruction_only_advances() {
    let mut chip = CPU::new();
    chip.set_register(1, 3);
    chip.run_operation(0x5121);
    chip.run_operation(0xE1FF);
    chip.run_operation(0xF1FF);
    chip.run_operation(0x0123);
    assert_eq!(chip.program_counter(), 0x208);
    assert_eq!(chip.register(1), 3);
    assert_eq!(decode(0x8128), Instruction::Unknown);
}

#[test]
fn fetch_past_memory_reads_zero() {
    let mut chip = with_program(&[0x1F, 0xFF]);
    chip.tick(NO_KEYS);
    assert_eq!(chip.program_counter(), 0xFFF);
    chip.memory[0xFFF] = 0x00;
    chip.tick(NO_KEYS);
    assert_eq!(chip.program_counter(), 0x1001);
}

#[test]
fn program_counter_wraps_at_sixteen_bits() {
    let mut chip = CPU::new();
    chip.set_stack_pointer(1);
    chip.set_stack_address(0, 0xFFFE);
    chip.run_operation(0x00EE);
    assert_eq!(chip.program_counter(), 0xFFFE);
    chip.run_operation(0x0000);
    assert_eq!(chip.program_counter(), 0x0000);
}

#[test]
fn add_to_index_wraps_at_sixteen_bits() {
    let mut chip = CPU::new();
    chip.set_index(0xFFFF);
    chip.set_register(1, 2);
    chip.run_operation(0xF11E);
    assert_eq!(chip.index(), 1);
}

#[test]
fn font_glyph_address_of_f() {
    let mut chip = CPU::new();
    chip.set_register(1, 0xF);
    chip.run_operation(0xF129);
    assert_eq!(chip.index(), 0x9B);
    assert_eq!(chip.memory[0x9B..0xA0], [0xF0, 0x80, 0xF0, 0x80, 0x80]);
}

#[test]
fn key_query_beyond_the_keypad_is_not_down() {
    let mut chip = CPU::new();
    chip.set_key(4, true);
    chip.set_register(3, 20);
    chip.run_operation(0xE39E);
    assert_eq!(chip.program_counter(), 0x202);
    chip.run_operation(0xE3A1);
    assert_eq!(chip.program_counter(), 0x206);
}

#[test]
fn random_byte_is_masked() {
    let mut chip = CPU::new();
    chip.set_register(0, 0xAA);
    chip.run_operation(0xC000);
    assert_eq!(chip.register(0), 0);
    for _ in 0..32 {
        chip.run_operation(0xC10F);
        assert!(chip.register(1) <= 0x0F);
    }
}

#[test]
fn execute_operation_uses_the_given_random_byte() {
    let mut chip = CPU::new();
    chip.execute_operation(0xC53C, 0xF5);
    assert_eq!(chip.register(5), 0x34);
    assert_eq!(chip.program_counter(), 0x202);
}

#[test]
fn load_program_truncates_at_the_end_of_memory() {
    let bytes: Vec<u8> = (0..4000u32).map(|i| (i % 251) as u8).collect();
    let mut chip = CPU::new();
    chip.load_program(&bytes);
    assert_eq!(chip.memory[0x200], 0);
    assert_eq!(chip.memory[0xFFF], (3583 % 251) as u8);
    assert_eq!(chip.program_counter(), 0x200);
}

#[test]
fn rom_from_bytes_truncates_to_the_program_region() {
    let bytes: Vec<u8> = vec![7; 4000];
    let rom = Rom::from_bytes(&bytes);
    assert_eq!(rom.size, 3584);
    let rom = Rom::from_bytes(&[1, 2, 3]);
    assert_eq!(rom.size, 3);
    assert_eq!(rom.memory[..4], [1, 2, 3, 0]);
}

#[test]
fn load_rom_with_oversized_size_takes_the_whole_image() {
    let mut chip = CPU::new();
    chip.load_rom(Rom { memory: [5; 3584], size: 9000 });
    assert_eq!(chip.memory[0x1FF], 0);
    assert_eq!(chip.memory[0x200], 5);
    assert_eq!(chip.memory[0xFFF], 5);
}

#[test]
fn reset_restores_the_initial_state_and_keeps_the_program() {
    let mut chip = with_program(&[0x61, 0x05]);
    chip.tick(NO_KEYS);
    chip.memory[0x50] = 0;
    chip.video_buffer[3][3] = 1;
    chip.reset();
    assert_eq!(chip.program_counter(), 0x200);
    assert_eq!(chip.register(1), 0);
    assert_eq!(chip.memory[0x50], 0xF0);
    assert_eq!(chip.memory[0x200], 0x61);
    assert_eq!(chip.video_buffer[3][3], 0);
}

#[test]
fn decode_splits_the_operands() {
    assert_eq!(decode(0x8ab4), Instruction::AddReg { x: 10, y: 11 });
    assert_eq!(decode(0xd12f), Instruction::Draw { x: 1, y: 2, n: 15 });
    assert_eq!(decode(0xbfff), Instruction::JumpOffset { addr: 0xfff });
    assert_eq!(decode(0x00e0), Instruction::Clear);
}
