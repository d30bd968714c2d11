use biscuit8::chip8::{Chip8, Chip8Error, RANDOM_BOUND};
use biscuit8::instruction::Instruction;
use biscuit8::keys::Keys;
use biscuit8::machine::{FONT_SPRITES, RAM_SIZE, ROM_LOC};
use biscuit8::screen::{Screen, HEIGHT, WIDTH};

fn engine(rom: &[u8]) -> Chip8 {
    Chip8::new(rom).expect("the program fits")
}

fn run(chip8: &mut Chip8, cycles: usize) {
    for _ in 0..cycles {
        assert!(!chip8.next_faults());
        chip8.step(Keys::new(), false, 0).expect("the cycle succeeds");
    }
}

fn count_set(screen: &Screen) -> usize {
    let mut count = 0;
    for y in 0..HEIGHT {
        for x in 0..WIDTH {
            if screen.pixel(x, y) {
                count += 1;
            }
        }
    }
    count
}

#[test]
fn rom_of_largest_size_loads() {
    let rom = vec![0xAB; 3584];
    let chip8 = engine(&rom);
    assert_eq!(chip8.memory(ROM_LOC), 0xAB);
    assert_eq!(chip8.memory(RAM_SIZE - 1), 0xAB);
}

#[test]
fn rom_one_byte_too_large_is_refused() {
    let rom = vec![0; 3585];
    assert_eq!(Chip8::new(&rom), Err(Chip8Error::RomTooBig(1)));
}

#[test]
fn rom_far_too_large_is_refused_with_the_excess() {
    let rom = vec![0; 5000];
    assert_eq!(Chip8::new(&rom), Err(Chip8Error::RomTooBig(5000 - 3584)));
}

#[test]
fn empty_rom_loads() {
    let chip8 = engine(&[]);
    assert_eq!(chip8.pc(), 0x200);
    assert_eq!(chip8.memory(ROM_LOC), 0);
}

#[test]
fn new_engine_starts_clean() {
    let chip8 = engine(&[0x12, 0x34, 0x56]);
    assert_eq!(chip8.pc(), 0x200);
    for x in 0..16 {
        assert_eq!(chip8.register(x), 0);
    }
    assert_eq!(chip8.index(), 0);
    assert_eq!(chip8.stack_depth(), 0);
    assert_eq!(chip8.delay_timer(), 0);
    assert_eq!(chip8.sound_timer(), 0);
    assert_eq!(count_set(chip8.screen()), 0);
}

#[test]
fn new_engine_holds_font_and_program() {
    let chip8 = engine(&[0x12, 0x34, 0x56]);
    for a in 0..80 {
        assert_eq!(chip8.memory(a), FONT_SPRITES[a]);
    }
    for a in 80..0x200 {
        assert_eq!(chip8.memory(a), 0);
    }
    assert_eq!(chip8.memory(0x200), 0x12);
    assert_eq!(chip8.memory(0x201), 0x34);
    assert_eq!(chip8.memory(0x202), 0x56);
    for a in 0x203..RAM_SIZE {
        assert_eq!(chip8.memory(a), 0);
    }
}

#[test]
fn font_has_the_digit_shapes() {
    assert_eq!(&FONT_SPRITES[0..5], &[0xF0, 0x90, 0x90, 0x90, 0xF0]);
    assert_eq!(&FONT_SPRITES[5..10], &[0x20, 0x60, 0x20, 0x20, 0x70]);
    assert_eq!(&FONT_SPRITES[75..80], &[0xF0, 0x80, 0xF0, 0x80, 0x80]);
}

#[test]
fn no_op_only_moves_on() {
    let mut chip8 = engine(&[0x00, 0x00]);
    let before = chip8.clone();
    let out = chip8.step(Keys::new(), false, 0);
    assert_eq!(out, Ok((None, false)));
    assert_eq!(chip8.pc(), 0x202);
    assert_eq!(chip8.index(), before.index());
    assert_eq!(chip8.stack_depth(), 0);
}

#[test]
fn clear_screen_unsets_every_cell_and_redraws() {
    // V0 = 0, I = font sprite of 0, draw it, then clear.
    let mut chip8 = engine(&[0xA0, 0x00, 0xD0, 0x05, 0x00, 0xE0]);
    chip8.step(Keys::new(), false, 0).unwrap();
    let drawn = chip8.step(Keys::new(), false, 0).unwrap();
    assert!(count_set(&drawn.0.expect("a sprite was drawn")) > 0);
    let cleared = chip8.step(Keys::new(), false, 0).unwrap();
    let screen = cleared.0.expect("the screen was cleared");
    assert_eq!(count_set(&screen), 0);
    assert_eq!(screen, Screen::new());
    assert_eq!(count_set(chip8.screen()), 0);
}

#[test]
fn set_then_add_byte() {
    let mut chip8 = engine(&[0x61, 0x05, 0x71, 0x05, 0x71, 0x05]);
    run(&mut chip8, 1);
    assert_eq!(chip8.register(1), 5);
    run(&mut chip8, 1);
    assert_eq!(chip8.register(1), 10);
    assert_eq!(chip8.register(0xF), 0);
    run(&mut chip8, 1);
    assert_eq!(chip8.register(1), 15);
    assert_eq!(chip8.register(0xF), 0);
}

#[test]
fn add_byte_wraps_without_touching_the_flag() {
    // VF = 7 first, so that a wrongly cleared or set flag shows.
    let mut chip8 = engine(&[0x6F, 0x07, 0x61, 0xFF, 0x71, 0x02]);
    run(&mut chip8, 3);
    assert_eq!(chip8.register(1), 1);
    assert_eq!(chip8.register(0xF), 7);
}

#[test]
fn add_registers_with_carry() {
    let mut chip8 = engine(&[0x60, 0xFF, 0x61, 0x01, 0x80, 0x14]);
    run(&mut chip8, 3);
    assert_eq!(chip8.register(0), 0x00);
    assert_eq!(chip8.register(0xF), 1);
}

#[test]
fn add_registers_without_carry() {
    let mut chip8 = engine(&[0x6F, 0x01, 0x60, 0x10, 0x61, 0x20, 0x80, 0x14]);
    run(&mut chip8, 4);
    assert_eq!(chip8.register(0), 0x30);
    assert_eq!(chip8.register(0xF), 0);
}

#[test]
fn subtract_registers_with_borrow() {
    let mut chip8 = engine(&[0x60, 0x01, 0x61, 0x02, 0x80, 0x15]);
    run(&mut chip8, 3);
    assert_eq!(chip8.register(0), 0xFF);
    assert_eq!(chip8.register(0xF), 0);
}

#[test]
fn subtract_registers_without_borrow() {
    let mut chip8 = engine(&[0x60, 0x05, 0x61, 0x05, 0x80, 0x15]);
    run(&mut chip8, 3);
    assert_eq!(chip8.register(0), 0);
    assert_eq!(chip8.register(0xF), 1);
}

#[test]
fn reverse_subtract() {
    let mut chip8 = engine(&[0x60, 0x03, 0x61, 0x0A, 0x80, 0x17, 0x62, 0x0B, 0x82, 0x17]);
    run(&mut chip8, 3);
    assert_eq!(chip8.register(0), 7);
    assert_eq!(chip8.register(0xF), 1);
    // V2 = 11, V1 = 10: 10 - 11 borrows.
    run(&mut chip8, 2);
    assert_eq!(chip8.register(2), 0xFF);
    assert_eq!(chip8.register(0xF), 0);
}

#[test]
fn flag_is_written_after_the_result() {
    // VF = 0xFF, V1 = 1: VF += V1 carries, and the flag wins over the sum.
    let mut chip8 = engine(&[0x6F, 0xFF, 0x61, 0x01, 0x8F, 0x14]);
    run(&mut chip8, 3);
    assert_eq!(chip8.register(0xF), 1);
}

#[test]
fn copy_register() {
    let mut chip8 = engine(&[0x61, 0x42, 0x80, 0x10]);
    run(&mut chip8, 2);
    assert_eq!(chip8.register(0), 0x42);
    assert_eq!(chip8.register(1), 0x42);
}

#[test]
fn logic_operations_reset_the_flag() {
    let rom = [
        0x60, 0x0C, 0x61, 0x0A, 0x6F, 0x01, 0x80, 0x11, // V0 = 0x0C | 0x0A
        0x62, 0x0C, 0x6F, 0x01, 0x82, 0x12, // V2 = 0x0C & 0x0A
        0x63, 0x0C, 0x6F, 0x01, 0x83, 0x13, // V3 = 0x0C ^ 0x0A
    ];
    let mut chip8 = engine(&rom);
    run(&mut chip8, 4);
    assert_eq!(chip8.register(0), 0x0E);
    assert_eq!(chip8.register(0xF), 0);
    run(&mut chip8, 3);
    assert_eq!(chip8.register(2), 0x08);
    assert_eq!(chip8.register(0xF), 0);
    run(&mut chip8, 3);
    assert_eq!(chip8.register(3), 0x06);
    assert_eq!(chip8.register(0xF), 0);
}

#[test]
fn shift_right_takes_the_other_register() {
    // V0 = 0x01, V1 = 0x06: the flag is the low bit of V0, V0 is V1 >> 1.
    let mut chip8 = engine(&[0x60, 0x01, 0x61, 0x06, 0x80, 0x16]);
    run(&mut chip8, 3);
    assert_eq!(chip8.register(0), 0x03);
    assert_eq!(chip8.register(1), 0x06);
    assert_eq!(chip8.register(0xF), 1);
}

#[test]
fn shift_left_takes_the_other_register() {
    // V0 = 0x80, V1 = 0xC1: the flag is the high bit of V0, V0 is V1 << 1.
    let mut chip8 = engine(&[0x60, 0x80, 0x61, 0xC1, 0x80, 0x1E]);
    run(&mut chip8, 3);
    assert_eq!(chip8.register(0), 0x82);
    assert_eq!(chip8.register(0xF), 1);
}

#[test]
fn shift_left_with_clear_high_bit() {
    let mut chip8 = engine(&[0x60, 0x7F, 0x61, 0xFF, 0x80, 0x1E]);
    run(&mut chip8, 3);
    assert_eq!(chip8.register(0), 0xFE);
    assert_eq!(chip8.register(0xF), 0);
}

#[test]
fn jump_sets_the_program_counter() {
    let mut chip8 = engine(&[0x1A, 0xBC]);
    run(&mut chip8, 1);
    assert_eq!(chip8.pc(), 0xABC);
}

#[test]
fn jump_with_offset_adds_the_first_register() {
    let mut chip8 = engine(&[0x60, 0xFF, 0xBF, 0xFF]);
    run(&mut chip8, 2);
    assert_eq!(chip8.pc(), 0xFFF + 0xFF);
}

#[test]
fn call_and_return() {
    // 0x200: call 0x206; 0x202: V1 = 1; 0x206: V0 = 9; 0x208: return.
    let rom = [0x22, 0x06, 0x61, 0x01, 0x00, 0x00, 0x60, 0x09, 0x00, 0xEE];
    let mut chip8 = engine(&rom);
    run(&mut chip8, 1);
    assert_eq!(chip8.pc(), 0x206);
    assert_eq!(chip8.stack_depth(), 1);
    run(&mut chip8, 2);
    assert_eq!(chip8.register(0), 9);
    assert_eq!(chip8.pc(), 0x202);
    assert_eq!(chip8.stack_depth(), 0);
    run(&mut chip8, 1);
    assert_eq!(chip8.register(1), 1);
}

#[test]
fn nested_calls_return_in_order() {
    // 0x200: call 0x204; 0x202: jump 0x202; 0x204: call 0x208; 0x206: return; 0x208: return.
    let rom = [0x22, 0x04, 0x12, 0x02, 0x22, 0x08, 0x00, 0xEE, 0x00, 0xEE];
    let mut chip8 = engine(&rom);
    run(&mut chip8, 2);
    assert_eq!(chip8.stack_depth(), 2);
    assert_eq!(chip8.pc(), 0x208);
    run(&mut chip8, 1);
    assert_eq!(chip8.pc(), 0x206);
    run(&mut chip8, 1);
    assert_eq!(chip8.pc(), 0x202);
    assert_eq!(chip8.stack_depth(), 0);
}

#[test]
fn return_without_call_faults() {
    let chip8 = engine(&[0x00, 0xEE]);
    assert!(chip8.next_faults());
}

#[test]
fn skip_if_register_equals_byte() {
    let mut taken = engine(&[0x60, 0x11, 0x30, 0x11]);
    run(&mut taken, 2);
    assert_eq!(taken.pc(), 0x206);
    let mut passed = engine(&[0x60, 0x11, 0x30, 0x12]);
    run(&mut passed, 2);
    assert_eq!(passed.pc(), 0x204);
}

#[test]
fn skip_if_register_differs_from_byte() {
    let mut taken = engine(&[0x60, 0x11, 0x40, 0x12]);
    run(&mut taken, 2);
    assert_eq!(taken.pc(), 0x206);
    let mut passed = engine(&[0x60, 0x11, 0x40, 0x11]);
    run(&mut passed, 2);
    assert_eq!(passed.pc(), 0x204);
}

#[test]
fn skip_if_registers_are_equal() {
    let mut taken = engine(&[0x60, 0x11, 0x61, 0x11, 0x50, 0x10]);
    run(&mut taken, 3);
    assert_eq!(taken.pc(), 0x208);
    let mut passed = engine(&[0x60, 0x11, 0x61, 0x12, 0x50, 0x10]);
    run(&mut passed, 3);
    assert_eq!(passed.pc(), 0x206);
}

#[test]
fn skip_if_registers_differ() {
    let mut taken = engine(&[0x60, 0x11, 0x61, 0x12, 0x90, 0x10]);
    run(&mut taken, 3);
    assert_eq!(taken.pc(), 0x208);
    let mut passed = engine(&[0x60, 0x11, 0x61, 0x11, 0x90, 0x10]);
    run(&mut passed, 3);
    assert_eq!(passed.pc(), 0x206);
}

#[test]
fn set_index() {
    let mut chip8 = engine(&[0xA1, 0x23]);
    run(&mut chip8, 1);
    assert_eq!(chip8.index(), 0x123);
}

#[test]
fn add_register_to_index() {
    let mut chip8 = engine(&[0xAF, 0xFF, 0x60, 0xFF, 0xF0, 0x1E]);
    run(&mut chip8, 3);
    assert_eq!(chip8.index(), 0xFFF + 0xFF);
}

#[test]
fn index_of_font_sprite() {
    let mut chip8 = engine(&[0x60, 0x0A, 0xF0, 0x29]);
    run(&mut chip8, 2);
    assert_eq!(chip8.index(), 50);
    assert_eq!(chip8.memory(chip8.index()), 0xF0);
    assert_eq!(chip8.memory(chip8.index() + 4), 0x90);
}

#[test]
fn binary_coded_decimal() {
    let mut chip8 = engine(&[0x60, 0xEA, 0xA3, 0x00, 0xF0, 0x33]);
    run(&mut chip8, 3);
    assert_eq!(chip8.memory(0x300), 2);
    assert_eq!(chip8.memory(0x301), 3);
    assert_eq!(chip8.memory(0x302), 4);
    assert_eq!(chip8.index(), 0x300);
}

#[test]
fn binary_coded_decimal_of_small_value() {
    let mut chip8 = engine(&[0x60, 0x07, 0xA3, 0x00, 0xF0, 0x33]);
    run(&mut chip8, 3);
    assert_eq!(chip8.memory(0x300), 0);
    assert_eq!(chip8.memory(0x301), 0);
    assert_eq!(chip8.memory(0x302), 7);
}

#[test]
fn store_registers() {
    let rom = [0x60, 0x11, 0x61, 0x22, 0x62, 0x33, 0x63, 0x44, 0xA3, 0x00, 0xF2, 0x55];
    let mut chip8 = engine(&rom);
    run(&mut chip8, 6);
    assert_eq!(chip8.memory(0x300), 0x11);
    assert_eq!(chip8.memory(0x301), 0x22);
    assert_eq!(chip8.memory(0x302), 0x33);
    assert_eq!(chip8.memory(0x303), 0);
    assert_eq!(chip8.index(), 0x303);
}

#[test]
fn load_registers() {
    // I = 0: the font sprite of 0 goes to V0..V3, V4 stays.
    let mut chip8 = engine(&[0x64, 0x77, 0xA0, 0x00, 0xF3, 0x65]);
    run(&mut chip8, 3);
    assert_eq!(chip8.register(0), 0xF0);
    assert_eq!(chip8.register(1), 0x90);
    assert_eq!(chip8.register(2), 0x90);
    assert_eq!(chip8.register(3), 0x90);
    assert_eq!(chip8.register(4), 0x77);
    assert_eq!(chip8.index(), 4);
}

#[test]
fn store_then_load_restores_the_registers() {
    let rom = [
        0x60, 0x11, 0x61, 0x22, 0x62, 0x33, // V0..V2
        0xA3, 0x00, 0xF2, 0x55, // store at 0x300
        0x60, 0x00, 0x61, 0x00, 0x62, 0x00, // clobber
        0xA3, 0x00, 0xF2, 0x65, // load from 0x300
    ];
    let mut chip8 = engine(&rom);
    run(&mut chip8, 8);
    assert_eq!(chip8.register(0), 0);
    assert_eq!(chip8.register(1), 0);
    assert_eq!(chip8.register(2), 0);
    run(&mut chip8, 2);
    assert_eq!(chip8.register(0), 0x11);
    assert_eq!(chip8.register(1), 0x22);
    assert_eq!(chip8.register(2), 0x33);
    assert_eq!(chip8.index(), 0x303);
}

#[test]
fn store_at_the_end_of_memory() {
    let mut chip8 = engine(&[0x60, 0x5A, 0xAF, 0xFF, 0xF0, 0x55]);
    run(&mut chip8, 3);
    assert_eq!(chip8.memory(0xFFF), 0x5A);
    assert_eq!(chip8.index(), 0x1000);
}

#[test]
fn store_beyond_memory_faults() {
    let mut chip8 = engine(&[0xAF, 0xFF, 0xF1, 0x55]);
    run(&mut chip8, 1);
    assert!(chip8.next_faults());
}

#[test]
fn load_beyond_memory_faults() {
    let mut chip8 = engine(&[0xAF, 0xFF, 0xF1, 0x65]);
    run(&mut chip8, 1);
    assert!(chip8.next_faults());
}

#[test]
fn decimal_beyond_memory_faults() {
    let mut at_the_end = engine(&[0xAF, 0xFD, 0xF0, 0x33]);
    run(&mut at_the_end, 1);
    assert!(!at_the_end.next_faults());
    let mut beyond = engine(&[0xAF, 0xFE, 0xF0, 0x33]);
    run(&mut beyond, 1);
    assert!(beyond.next_faults());
}

#[test]
fn sprite_beyond_memory_faults() {
    let mut at_the_end = engine(&[0xAF, 0xFF, 0xD0, 0x01]);
    run(&mut at_the_end, 1);
    assert!(!at_the_end.next_faults());
    let mut beyond = engine(&[0xAF, 0xFF, 0xD0, 0x02]);
    run(&mut beyond, 1);
    assert!(beyond.next_faults());
}

#[test]
fn draw_clips_at_the_right_edge() {
    // V0 = 60, V1 = 0, I = 0x208 where the byte 0xFF lies, draw one row.
    let rom = [0x60, 0x3C, 0x61, 0x00, 0xA2, 0x08, 0xD0, 0x11, 0xFF];
    let mut chip8 = engine(&rom);
    run(&mut chip8, 3);
    let out = chip8.step(Keys::new(), false, 0).unwrap();
    let screen = out.0.expect("a sprite was drawn");
    for x in 60..64 {
        assert!(screen.pixel(x, 0));
    }
    for x in 0..60 {
        assert!(!screen.pixel(x, 0));
    }
    assert_eq!(count_set(&screen), 4);
    assert_eq!(chip8.register(0xF), 0);
}

#[test]
fn draw_sets_the_flag_on_collision() {
    // The font sprite of 0 drawn twice at the same place.
    let mut chip8 = engine(&[0xA0, 0x00, 0xD0, 0x05, 0xD0, 0x05]);
    run(&mut chip8, 2);
    assert_eq!(chip8.register(0xF), 0);
    assert_eq!(count_set(chip8.screen()), 14);
    let out = chip8.step(Keys::new(), false, 0).unwrap();
    assert_eq!(chip8.register(0xF), 1);
    assert_eq!(count_set(&out.0.expect("a sprite was drawn")), 0);
}

#[test]
fn draw_reads_the_place_before_it_writes_the_flag() {
    // VF = 4 is the column; the sprite lands there, and the flag is then 0.
    let mut chip8 = engine(&[0x6F, 0x04, 0xA0, 0x00, 0xDF, 0x01]);
    run(&mut chip8, 3);
    assert!(chip8.screen().pixel(4, 0));
    assert!(!chip8.screen().pixel(0, 0));
    assert_eq!(chip8.register(0xF), 0);
}

#[test]
fn draw_wraps_the_corner() {
    // V0 = 64 + 2, V1 = 32 + 1.
    let mut chip8 = engine(&[0x60, 0x42, 0x61, 0x21, 0xA0, 0x00, 0xD0, 0x11]);
    run(&mut chip8, 4);
    assert!(chip8.screen().pixel(2, 1));
    assert!(chip8.screen().pixel(5, 1));
    assert_eq!(count_set(chip8.screen()), 4);
}

#[test]
fn only_clear_and_draw_hand_the_screen_back() {
    let mut chip8 = engine(&[0x60, 0x01, 0x00, 0xE0, 0xA0, 0x00, 0xD0, 0x01]);
    assert_eq!(chip8.step(Keys::new(), false, 0), Ok((None, false)));
    assert!(chip8.step(Keys::new(), false, 0).unwrap().0.is_some());
    assert_eq!(chip8.step(Keys::new(), false, 0), Ok((None, false)));
    assert!(chip8.step(Keys::new(), false, 0).unwrap().0.is_some());
}

#[test]
fn skip_if_key_is_held() {
    let mut keys = Keys::new();
    keys.press_key(5);
    let mut taken = engine(&[0x60, 0x05, 0xE0, 0x9E]);
    taken.step(keys, false, 0).unwrap();
    taken.step(keys, false, 0).unwrap();
    assert_eq!(taken.pc(), 0x206);
    let mut passed = engine(&[0x60, 0x05, 0xE0, 0x9E]);
    run(&mut passed, 2);
    assert_eq!(passed.pc(), 0x204);
}

#[test]
fn skip_if_key_is_not_held() {
    let mut keys = Keys::new();
    keys.press_key(5);
    let mut passed = engine(&[0x60, 0x05, 0xE0, 0xA1]);
    passed.step(keys, false, 0).unwrap();
    passed.step(keys, false, 0).unwrap();
    assert_eq!(passed.pc(), 0x204);
    let mut taken = engine(&[0x60, 0x05, 0xE0, 0xA1]);
    run(&mut taken, 2);
    assert_eq!(taken.pc(), 0x206);
}

#[test]
fn value_that_names_no_key_is_never_held() {
    let mut keys = Keys::new();
    for key in 0..16 {
        keys.press_key(key);
    }
    let mut chip8 = engine(&[0x60, 0x10, 0xE0, 0x9E, 0xE0, 0xA1]);
    chip8.step(keys, false, 0).unwrap();
    chip8.step(keys, false, 0).unwrap();
    assert_eq!(chip8.pc(), 0x204);
    chip8.step(keys, false, 0).unwrap();
    assert_eq!(chip8.pc(), 0x208);
}

#[test]
fn wait_for_key_repeats_until_a_key_comes() {
    let mut chip8 = engine(&[0xF3, 0x0A, 0x61, 0x01]);
    for _ in 0..5 {
        assert_eq!(chip8.step(Keys::new(), false, 0), Ok((None, false)));
        assert_eq!(chip8.pc(), 0x200);
        assert_eq!(chip8.register(3), 0);
    }
    let mut keys = Keys::new();
    keys.press_key(0xB);
    chip8.step(keys, false, 0).unwrap();
    assert_eq!(chip8.pc(), 0x202);
    assert_eq!(chip8.register(3), 0xB);
}

#[test]
fn wait_for_key_takes_a_press_that_was_released() {
    let mut keys = Keys::new();
    keys.press_key(2);
    keys.release_key(2);
    let mut chip8 = engine(&[0xF0, 0x0A]);
    chip8.step(keys, false, 0).unwrap();
    assert_eq!(chip8.register(0), 2);
    assert_eq!(chip8.pc(), 0x202);
}

#[test]
fn wait_for_key_ignores_a_held_key_after_reset() {
    let mut keys = Keys::new();
    keys.press_key(2);
    keys.reset_last_pressed();
    let mut chip8 = engine(&[0xF0, 0x0A]);
    chip8.step(keys, false, 0).unwrap();
    assert_eq!(chip8.pc(), 0x200);
}

#[test]
fn delay_timer_is_set_and_read() {
    let mut chip8 = engine(&[0x60, 0x09, 0xF0, 0x15, 0xF1, 0x07]);
    run(&mut chip8, 3);
    assert_eq!(chip8.delay_timer(), 9);
    assert_eq!(chip8.register(1), 9);
}

#[test]
fn timers_go_down_by_one_when_due() {
    let rom = [0x60, 0x02, 0xF0, 0x15, 0xF0, 0x18, 0x00, 0x00, 0x00, 0x00, 0x00, 0x00];
    let mut chip8 = engine(&rom);
    run(&mut chip8, 3);
    assert_eq!((chip8.delay_timer(), chip8.sound_timer()), (2, 2));
    assert_eq!(chip8.step(Keys::new(), true, 0), Ok((None, true)));
    assert_eq!((chip8.delay_timer(), chip8.sound_timer()), (1, 1));
    assert_eq!(chip8.step(Keys::new(), false, 0), Ok((None, true)));
    assert_eq!((chip8.delay_timer(), chip8.sound_timer()), (1, 1));
    assert_eq!(chip8.step(Keys::new(), true, 0), Ok((None, false)));
    assert_eq!((chip8.delay_timer(), chip8.sound_timer()), (0, 0));
}

#[test]
fn timers_stay_at_zero() {
    let mut chip8 = engine(&[0x00, 0x00, 0x00, 0x00]);
    chip8.step(Keys::new(), true, 0).unwrap();
    chip8.step(Keys::new(), true, 0).unwrap();
    assert_eq!((chip8.delay_timer(), chip8.sound_timer()), (0, 0));
}

#[test]
fn timers_tick_before_the_instruction_runs() {
    // The timer is due in the cycle that sets it: the old value ticks, the new one stays.
    let mut chip8 = engine(&[0x60, 0x05, 0xF0, 0x15]);
    run(&mut chip8, 1);
    chip8.step(Keys::new(), true, 0).unwrap();
    assert_eq!(chip8.delay_timer(), 5);
}

#[test]
fn beep_follows_the_sound_timer() {
    let mut chip8 = engine(&[0x60, 0x01, 0xF0, 0x18, 0x00, 0x00]);
    assert_eq!(chip8.step(Keys::new(), false, 0), Ok((None, false)));
    assert_eq!(chip8.step(Keys::new(), false, 0), Ok((None, true)));
    assert_eq!(chip8.step(Keys::new(), true, 0), Ok((None, false)));
}

#[test]
fn random_byte_is_masked() {
    let mut chip8 = engine(&[0xC0, 0x0F, 0xC1, 0xFF, 0xC2, 0x00]);
    chip8.step(Keys::new(), false, 0xAB).unwrap();
    assert_eq!(chip8.register(0), 0x0B);
    chip8.step(Keys::new(), false, 0xAB).unwrap();
    assert_eq!(chip8.register(1), 0xAB);
    chip8.step(Keys::new(), false, 0xAB).unwrap();
    assert_eq!(chip8.register(2), 0);
}

#[test]
fn random_byte_is_used_by_no_other_instruction() {
    let mut one = engine(&[0x60, 0x05, 0x70, 0x01]);
    let mut other = one.clone();
    one.step(Keys::new(), false, 0x00).unwrap();
    other.step(Keys::new(), false, 0xFF).unwrap();
    assert_eq!(one.register(0), other.register(0));
    assert_eq!(one.pc(), other.pc());
}

#[test]
fn unknown_instruction_is_reported_with_the_program_counter_past_it() {
    let mut chip8 = engine(&[0x50, 0x01]);
    assert_eq!(
        chip8.step(Keys::new(), false, 0),
        Err(Chip8Error::UnknownInstruction(Instruction::new(0x5001), 0x202))
    );
    assert_eq!(chip8.pc(), 0x202);
}

#[test]
fn unknown_patterns() {
    for raw in [0x0001u16, 0x00E1, 0x5001, 0x8008, 0x800F, 0x9001, 0xE09F, 0xE0A0, 0xF000, 0xF056, 0xF0FF] {
        let mut chip8 = engine(&raw.to_be_bytes());
        assert_eq!(
            chip8.step(Keys::new(), false, 0),
            Err(Chip8Error::UnknownInstruction(Instruction::new(raw), 0x202))
        );
    }
}

#[test]
fn cycle_goes_on_after_an_unknown_instruction() {
    let mut chip8 = engine(&[0x50, 0x01, 0x60, 0x07]);
    assert!(chip8.step(Keys::new(), false, 0).is_err());
    assert_eq!(chip8.step(Keys::new(), false, 0), Ok((None, false)));
    assert_eq!(chip8.register(0), 7);
}

#[test]
fn running_off_the_memory_ends_the_program() {
    let mut chip8 = engine(&[0x1F, 0xFF]);
    run(&mut chip8, 1);
    assert_eq!(chip8.pc(), 0xFFF);
    assert_eq!(chip8.step(Keys::new(), false, 0), Err(Chip8Error::NoMoreInstructions));
    assert_eq!(chip8.pc(), 0xFFF);
    assert_eq!(chip8.step(Keys::new(), false, 0), Err(Chip8Error::NoMoreInstructions));
}

#[test]
fn last_instruction_of_the_memory_is_fetched() {
    let mut rom = vec![0u8; 3584];
    rom[0] = 0x1F;
    rom[1] = 0xFE;
    rom[3582] = 0x6A;
    rom[3583] = 0x55;
    let mut chip8 = engine(&rom);
    run(&mut chip8, 2);
    assert_eq!(chip8.register(0xA), 0x55);
    assert_eq!(chip8.pc(), 0x1000);
    assert_eq!(chip8.step(Keys::new(), false, 0), Err(Chip8Error::NoMoreInstructions));
}

#[test]
fn timers_tick_even_when_nothing_is_fetched() {
    let mut chip8 = engine(&[0x60, 0x03, 0xF0, 0x15, 0x1F, 0xFF]);
    run(&mut chip8, 3);
    assert_eq!(chip8.step(Keys::new(), true, 0), Err(Chip8Error::NoMoreInstructions));
    assert_eq!(chip8.delay_timer(), 2);
}

#[test]
fn instruction_cycle_runs_a_program() {
    let mut chip8 = engine(&[0x61, 0x05, 0x71, 0x05, 0x00, 0xE0]);
    assert_eq!(chip8.instruction_cycle(Keys::new()), Ok((None, false)));
    assert_eq!(chip8.instruction_cycle(Keys::new()), Ok((None, false)));
    assert_eq!(chip8.register(1), 10);
    assert_eq!(chip8.instruction_cycle(Keys::new()), Ok((Some(Screen::new()), false)));
    assert_eq!(chip8.pc(), 0x206);
}

#[test]
fn instruction_cycle_reports_errors() {
    let mut unknown = engine(&[0xFF, 0xFF]);
    assert_eq!(
        unknown.instruction_cycle(Keys::new()),
        Err(Chip8Error::UnknownInstruction(Instruction::new(0xFFFF), 0x202))
    );
    let mut ended = engine(&[0x1F, 0xFF]);
    ended.instruction_cycle(Keys::new()).unwrap();
    assert_eq!(ended.instruction_cycle(Keys::new()), Err(Chip8Error::NoMoreInstructions));
}

#[test]
fn instruction_cycle_draws_random_bytes_below_the_bound() {
    // 0x200: V0 = random & 0xFF; 0x202: jump 0x200.
    let mut chip8 = engine(&[0xC0, 0xFF, 0x12, 0x00]);
    let mut seen = [false; 256];
    for _ in 0..2000 {
        chip8.instruction_cycle(Keys::new()).unwrap();
        assert!(chip8.register(0) < RANDOM_BOUND);
        seen[chip8.register(0) as usize] = true;
        chip8.instruction_cycle(Keys::new()).unwrap();
    }
    assert!(seen.iter().filter(|hit| **hit).count() > 100);
    assert!(!seen[255]);
}

#[test]
fn instruction_cycle_masks_the_random_byte() {
    let mut chip8 = engine(&[0xC0, 0x0F, 0x12, 0x00]);
    for _ in 0..200 {
        chip8.instruction_cycle(Keys::new()).unwrap();
        assert!(chip8.register(0) < 16);
        chip8.instruction_cycle(Keys::new()).unwrap();
    }
}

#[test]
fn instruction_cycle_lets_the_timers_run_down() {
    // 0x200: V0 = 3; 0x202: dt = V0; 0x204: jump 0x204.
    let mut chip8 = engine(&[0x60, 0x03, 0xF0, 0x15, 0x12, 0x04]);
    chip8.instruction_cycle(Keys::new()).unwrap();
    chip8.instruction_cycle(Keys::new()).unwrap();
    assert!(chip8.delay_timer() <= 3);
    let start = std::time::Instant::now();
    while chip8.delay_timer() > 0 {
        assert!(start.elapsed() < std::time::Duration::from_secs(5));
        chip8.instruction_cycle(Keys::new()).unwrap();
    }
    assert!(start.elapsed() >= std::time::Duration::from_millis(16));
    assert_eq!(chip8.delay_timer(), 0);
}

#[test]
fn instruction_cycle_waits_for_a_key() {
    let mut chip8 = engine(&[0xF0, 0x0A]);
    chip8.instruction_cycle(Keys::new()).unwrap();
    assert_eq!(chip8.pc(), 0x200);
    let mut keys = Keys::new();
    keys.press_key(0xF);
    chip8.instruction_cycle(keys).unwrap();
    assert_eq!(chip8.pc(), 0x202);
    assert_eq!(chip8.register(0), 0xF);
}

#[test]
fn clone_is_an_equal_engine() {
    let mut chip8 = engine(&[0x60, 0x01]);
    run(&mut chip8, 1);
    let copy = chip8.clone();
    assert_eq!(copy.register(0), 1);
    assert_eq!(copy.pc(), chip8.pc());
}
