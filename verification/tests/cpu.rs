use chip8::cpu::CPU;
use chip8::error::Chip8Error;
use chip8::font::FONT_SET;
use chip8::instruction::{decode, Opcode};
use chip8::quirk::Quirk;

fn quirks(vf_reset: bool, mem_inc: bool, shift_x: bool, jump_vx: bool) -> Quirk {
    Quirk { vf_reset, mem_inc, display_wait: false, clipping: false, shift_x, jump_vx }
}

fn default_quirks() -> Quirk {
    quirks(true, true, false, false)
}

fn machine_with(program: &[u8]) -> CPU {
    let mut cpu = CPU::new(default_quirks());
    assert_eq!(cpu.load_rom(program.to_vec()), Ok(()));
    cpu
}

const NO_KEYS: [bool; 16] = [false; 16];

#[test]
fn new_machine_is_zeroed_with_font() {
    let cpu = CPU::new(default_quirks());
    assert_eq!(cpu.pc(), 0x200);
    assert_eq!(cpu.index(), 0);
    assert_eq!(cpu.stack_depth(), 0);
    assert_eq!(cpu.delay_timer(), 0);
    assert_eq!(cpu.sound_timer(), 0);
    assert!(cpu.redraw());
    for r in 0..16u8 {
        assert_eq!(cpu.read_v(r), 0);
    }
    for a in 0..80u16 {
        assert_eq!(cpu.peek(a), Some(FONT_SET[a as usize]));
    }
    for a in 80..0x1000u16 {
        assert_eq!(cpu.peek(a), Some(0));
    }
    assert!(cpu.vbuffer().iter().all(|p| !*p));
    assert!(cpu.pressed_keys().iter().all(|k| !*k));
}

#[test]
fn peek_outside_memory_is_none() {
    let cpu = CPU::new(default_quirks());
    assert_eq!(cpu.peek(0x0FFF), Some(0));
    assert_eq!(cpu.peek(0x1000), None);
    assert_eq!(cpu.peek(0xFFFF), None);
}

#[test]
fn load_rom_copies_to_0x200() {
    let cpu = machine_with(&[0xAB, 0xCD, 0xEF]);
    assert_eq!(cpu.peek(0x1FF), Some(0));
    assert_eq!(cpu.peek(0x200), Some(0xAB));
    assert_eq!(cpu.peek(0x201), Some(0xCD));
    assert_eq!(cpu.peek(0x202), Some(0xEF));
    assert_eq!(cpu.peek(0x203), Some(0));
    assert_eq!(cpu.peek(0), Some(0xF0));
}

#[test]
fn load_rom_accepts_the_largest_program() {
    let mut cpu = CPU::new(default_quirks());
    let rom = vec![0x5A; 3584];
    assert_eq!(cpu.load_rom(rom), Ok(()));
    assert_eq!(cpu.peek(0x200), Some(0x5A));
    assert_eq!(cpu.peek(0xFFF), Some(0x5A));
}

#[test]
fn load_rom_refuses_a_program_too_large() {
    let mut cpu = CPU::new(default_quirks());
    let rom = vec![0x5A; 3585];
    assert_eq!(cpu.load_rom(rom), Err(Chip8Error::ProgramTooLarge));
    assert_eq!(cpu.peek(0x200), Some(0));
    assert_eq!(cpu.peek(0xFFF), Some(0));
}

#[test]
fn add_registers_wraps_and_carries() {
    let mut cpu = CPU::new(default_quirks());
    cpu.write_v(0, 0xFF);
    cpu.write_v(1, 0x02);
    cpu.add_xy(0, 1);
    assert_eq!(cpu.read_v(0), 0x01);
    assert_eq!(cpu.read_v(0xF), 1);
}

#[test]
fn add_registers_without_carry_clears_flag() {
    let mut cpu = CPU::new(default_quirks());
    cpu.write_v(0xF, 1);
    cpu.write_v(0, 0xFE);
    cpu.write_v(1, 0x01);
    cpu.add_xy(0, 1);
    assert_eq!(cpu.read_v(0), 0xFF);
    assert_eq!(cpu.read_v(0xF), 0);
}

#[test]
fn add_registers_holds_for_every_pair_under_every_quirk() {
    for setting in 0..16u8 {
        let q = quirks(setting & 1 != 0, setting & 2 != 0, setting & 4 != 0, setting & 8 != 0);
        for a in (0..=255u16).step_by(5) {
            for b in (0..=255u16).step_by(3) {
                let mut cpu = CPU::new(q);
                cpu.write_v(3, a as u8);
                cpu.write_v(7, b as u8);
                cpu.add_xy(3, 7);
                assert_eq!(cpu.read_v(3) as u16, (a + b) % 256);
                assert_eq!(cpu.read_v(0xF), if a + b > 255 { 1 } else { 0 });
                assert_eq!(cpu.read_v(7), b as u8);
            }
        }
    }
}

#[test]
fn add_into_flag_register_keeps_the_carry() {
    let mut cpu = CPU::new(default_quirks());
    cpu.write_v(0xF, 0x80);
    cpu.write_v(1, 0x90);
    cpu.add_xy(0xF, 1);
    assert_eq!(cpu.read_v(0xF), 1);
}

#[test]
fn add_immediate_wraps_and_leaves_flag() {
    let mut cpu = CPU::new(default_quirks());
    cpu.write_v(0xF, 7);
    cpu.write_v(2, 0xF0);
    cpu.add(2, 0x20);
    assert_eq!(cpu.read_v(2), 0x10);
    assert_eq!(cpu.read_v(0xF), 7);
}

#[test]
fn sub_wraps_and_reports_no_borrow() {
    let mut cpu = CPU::new(default_quirks());
    cpu.write_v(0, 0x05);
    cpu.write_v(1, 0x0A);
    cpu.sub(0, 1);
    assert_eq!(cpu.read_v(0), 0xFB);
    assert_eq!(cpu.read_v(0xF), 0);
}

#[test]
fn sub_larger_minuend_sets_flag() {
    let mut cpu = CPU::new(default_quirks());
    cpu.write_v(0, 0x0A);
    cpu.write_v(1, 0x05);
    cpu.sub(0, 1);
    assert_eq!(cpu.read_v(0), 0x05);
    assert_eq!(cpu.read_v(0xF), 1);
}

#[test]
fn sub_equal_operands_clears_flag() {
    let mut cpu = CPU::new(default_quirks());
    cpu.write_v(0xF, 1);
    cpu.write_v(0, 0x33);
    cpu.write_v(1, 0x33);
    cpu.sub(0, 1);
    assert_eq!(cpu.read_v(0), 0);
    assert_eq!(cpu.read_v(0xF), 0);
}

#[test]
fn sub_holds_for_every_pair() {
    for a in (0..=255i32).step_by(7) {
        for b in (0..=255i32).step_by(5) {
            let mut cpu = CPU::new(default_quirks());
            cpu.write_v(4, a as u8);
            cpu.write_v(5, b as u8);
            cpu.sub(4, 5);
            assert_eq!(cpu.read_v(4) as i32, (a - b).rem_euclid(256));
            assert_eq!(cpu.read_v(0xF), if a > b { 1 } else { 0 });
        }
    }
}

#[test]
fn subn_subtracts_the_other_way() {
    let mut cpu = CPU::new(default_quirks());
    cpu.write_v(0, 0x05);
    cpu.write_v(1, 0x0A);
    cpu.subn(0, 1);
    assert_eq!(cpu.read_v(0), 0x05);
    assert_eq!(cpu.read_v(0xF), 1);
    cpu.write_v(0, 0x0A);
    cpu.write_v(1, 0x05);
    cpu.subn(0, 1);
    assert_eq!(cpu.read_v(0), 0xFB);
    assert_eq!(cpu.read_v(0xF), 0);
}

#[test]
fn bitwise_ops_compute_in_place() {
    let mut cpu = CPU::new(quirks(false, true, false, false));
    cpu.write_v(0, 0b1100_1010);
    cpu.write_v(1, 0b1010_0110);
    cpu.or(0, 1);
    assert_eq!(cpu.read_v(0), 0b1110_1110);
    cpu.write_v(0, 0b1100_1010);
    cpu.and(0, 1);
    assert_eq!(cpu.read_v(0), 0b1000_0010);
    cpu.write_v(0, 0b1100_1010);
    cpu.xor(0, 1);
    assert_eq!(cpu.read_v(0), 0b0110_1100);
    assert_eq!(cpu.read_v(1), 0b1010_0110);
}

#[test]
fn bitwise_ops_reset_flag_with_quirk() {
    let mut cpu = CPU::new(quirks(true, true, false, false));
    cpu.write_v(0, 0x0F);
    cpu.write_v(1, 0xF0);
    cpu.write_v(0xF, 0x55);
    cpu.or(0, 1);
    assert_eq!(cpu.read_v(0xF), 0);
    cpu.write_v(0xF, 0x55);
    cpu.and(0, 1);
    assert_eq!(cpu.read_v(0xF), 0);
    cpu.write_v(0xF, 0x55);
    cpu.xor(0, 1);
    assert_eq!(cpu.read_v(0xF), 0);
}

#[test]
fn bitwise_ops_leave_flag_without_quirk() {
    let mut cpu = CPU::new(quirks(false, true, false, false));
    cpu.write_v(0, 0x0F);
    cpu.write_v(1, 0xF0);
    cpu.write_v(0xF, 0x55);
    cpu.or(0, 1);
    assert_eq!(cpu.read_v(0xF), 0x55);
    cpu.and(0, 1);
    assert_eq!(cpu.read_v(0xF), 0x55);
    cpu.xor(0, 1);
    assert_eq!(cpu.read_v(0xF), 0x55);
}

#[test]
fn shift_right_reads_vy_by_default() {
    let mut cpu = CPU::new(quirks(true, true, false, false));
    cpu.write_v(0, 0xFF);
    cpu.write_v(1, 0b0000_0101);
    cpu.shr(0, 1);
    assert_eq!(cpu.read_v(0), 0b0000_0010);
    assert_eq!(cpu.read_v(1), 0b0000_0101);
    assert_eq!(cpu.read_v(0xF), 1);
}

#[test]
fn shift_right_reads_vx_with_quirk() {
    let mut cpu = CPU::new(quirks(true, true, true, false));
    cpu.write_v(0, 0b0000_0100);
    cpu.write_v(1, 0xFF);
    cpu.shr(0, 1);
    assert_eq!(cpu.read_v(0), 0b0000_0010);
    assert_eq!(cpu.read_v(0xF), 0);
}

#[test]
fn shift_left_pushes_out_the_high_bit() {
    let mut cpu = CPU::new(quirks(true, true, false, false));
    cpu.write_v(1, 0b1100_0001);
    cpu.shl(0, 1);
    assert_eq!(cpu.read_v(0), 0b1000_0010);
    assert_eq!(cpu.read_v(0xF), 1);
    cpu.write_v(1, 0b0100_0001);
    cpu.shl(0, 1);
    assert_eq!(cpu.read_v(0), 0b1000_0010);
    assert_eq!(cpu.read_v(0xF), 0);
}

#[test]
fn add_i_sets_flag_above_0x0f00() {
    let mut cpu = CPU::new(default_quirks());
    cpu.ld_i(0x0EFF);
    cpu.write_v(0, 1);
    cpu.add_i(0);
    assert_eq!(cpu.index(), 0x0F00);
    assert_eq!(cpu.read_v(0xF), 0);
    cpu.add_i(0);
    assert_eq!(cpu.index(), 0x0F01);
    assert_eq!(cpu.read_v(0xF), 1);
}

#[test]
fn loads_move_values() {
    let mut cpu = CPU::new(default_quirks());
    cpu.ld_x(3, 0x42);
    assert_eq!(cpu.read_v(3), 0x42);
    cpu.ld_xy(4, 3);
    assert_eq!(cpu.read_v(4), 0x42);
    cpu.ld_i(0x123);
    assert_eq!(cpu.index(), 0x123);
    cpu.ld_dtx(3);
    assert_eq!(cpu.delay_timer(), 0x42);
    cpu.ld_stx(3);
    assert_eq!(cpu.sound_timer(), 0x42);
    cpu.ld_xdt(5);
    assert_eq!(cpu.read_v(5), 0x42);
}

#[test]
fn digit_sprite_address_points_at_glyph_zero() {
    let mut cpu = CPU::new(default_quirks());
    cpu.write_v(2, 0);
    cpu.ld_ix(2);
    let i = cpu.index();
    let rows: Vec<u8> = (0..5).map(|k| cpu.peek(i + k).unwrap()).collect();
    assert_eq!(rows, vec![0xF0, 0x90, 0x90, 0x90, 0xF0]);
}

#[test]
fn digit_sprite_address_through_a_step() {
    // LD V0, 0x00 ; LD F, V0
    let mut cpu = machine_with(&[0x60, 0x00, 0xF0, 0x29]);
    assert_eq!(cpu.tick(NO_KEYS), Ok(()));
    assert_eq!(cpu.tick(NO_KEYS), Ok(()));
    let i = cpu.index();
    assert_eq!(i, 0);
    let rows: Vec<u8> = (0..5).map(|k| cpu.peek(i + k).unwrap()).collect();
    assert_eq!(rows, vec![0xF0, 0x90, 0x90, 0x90, 0xF0]);
}

#[test]
fn digit_sprite_address_is_five_times_digit() {
    for d in 0..16u8 {
        let mut cpu = CPU::new(default_quirks());
        cpu.write_v(1, d);
        cpu.ld_ix(1);
        assert_eq!(cpu.index(), 5 * d as u16);
        for k in 0..5u16 {
            assert_eq!(cpu.peek(cpu.index() + k), Some(FONT_SET[5 * d as usize + k as usize]));
        }
    }
    let mut cpu = CPU::new(default_quirks());
    cpu.write_v(1, 0xFF);
    cpu.ld_ix(1);
    assert_eq!(cpu.index(), 1275);
}

#[test]
fn bcd_stores_three_digits() {
    let mut cpu = CPU::new(default_quirks());
    cpu.write_v(0, 234);
    cpu.ld_i(0x300);
    assert_eq!(cpu.ld_ix_bcd(0), Ok(()));
    assert_eq!(cpu.peek(0x300), Some(2));
    assert_eq!(cpu.peek(0x301), Some(3));
    assert_eq!(cpu.peek(0x302), Some(4));
    assert_eq!(cpu.index(), 0x300);
    cpu.write_v(0, 7);
    assert_eq!(cpu.ld_ix_bcd(0), Ok(()));
    assert_eq!(cpu.peek(0x300), Some(0));
    assert_eq!(cpu.peek(0x301), Some(0));
    assert_eq!(cpu.peek(0x302), Some(7));
}

#[test]
fn bcd_at_the_end_of_memory() {
    let mut cpu = CPU::new(default_quirks());
    cpu.write_v(0, 255);
    cpu.ld_i(0xFFD);
    assert_eq!(cpu.ld_ix_bcd(0), Ok(()));
    assert_eq!(cpu.peek(0xFFD), Some(2));
    assert_eq!(cpu.peek(0xFFE), Some(5));
    assert_eq!(cpu.peek(0xFFF), Some(5));
    cpu.ld_i(0xFFE);
    cpu.write_v(0, 111);
    assert_eq!(cpu.ld_ix_bcd(0), Err(Chip8Error::AddressOutOfBounds));
    assert_eq!(cpu.peek(0xFFE), Some(5));
    assert_eq!(cpu.peek(0xFFF), Some(5));
}

#[test]
fn store_registers_with_increment() {
    let mut cpu = CPU::new(quirks(true, true, false, false));
    for r in 0..16u8 {
        cpu.write_v(r, 0x10 + r);
    }
    cpu.ld_i(0x400);
    assert_eq!(cpu.ld_ivx(3), Ok(()));
    for r in 0..4u16 {
        assert_eq!(cpu.peek(0x400 + r), Some(0x10 + r as u8));
    }
    assert_eq!(cpu.peek(0x404), Some(0));
    assert_eq!(cpu.index(), 0x404);
}

#[test]
fn store_registers_without_increment() {
    let mut cpu = CPU::new(quirks(true, false, false, false));
    cpu.write_v(0, 0xAA);
    cpu.ld_i(0x400);
    assert_eq!(cpu.ld_ivx(0), Ok(()));
    assert_eq!(cpu.peek(0x400), Some(0xAA));
    assert_eq!(cpu.peek(0x401), Some(0));
    assert_eq!(cpu.index(), 0x400);
}

#[test]
fn load_registers_with_and_without_increment() {
    let mut cpu = machine_with(&[1, 2, 3, 4, 5]);
    cpu.ld_i(0x200);
    cpu.write_v(3, 0x77);
    assert_eq!(cpu.ld_vxi(2), Ok(()));
    assert_eq!(cpu.read_v(0), 1);
    assert_eq!(cpu.read_v(1), 2);
    assert_eq!(cpu.read_v(2), 3);
    assert_eq!(cpu.read_v(3), 0x77);
    assert_eq!(cpu.index(), 0x203);

    let mut cpu = CPU::new(quirks(true, false, false, false));
    assert_eq!(cpu.load_rom(vec![9, 8, 7]), Ok(()));
    cpu.ld_i(0x200);
    assert_eq!(cpu.ld_vxi(1), Ok(()));
    assert_eq!(cpu.read_v(0), 9);
    assert_eq!(cpu.read_v(1), 8);
    assert_eq!(cpu.read_v(2), 0);
    assert_eq!(cpu.index(), 0x200);
}

#[test]
fn block_transfers_are_bounds_checked() {
    let mut cpu = CPU::new(default_quirks());
    cpu.write_v(0, 1);
    cpu.write_v(1, 2);
    cpu.ld_i(0xFFF);
    assert_eq!(cpu.ld_ivx(1), Err(Chip8Error::AddressOutOfBounds));
    assert_eq!(cpu.peek(0xFFF), Some(0));
    assert_eq!(cpu.index(), 0xFFF);
    assert_eq!(cpu.ld_vxi(1), Err(Chip8Error::AddressOutOfBounds));
    assert_eq!(cpu.read_v(0), 1);
    assert_eq!(cpu.ld_ivx(0), Ok(()));
    assert_eq!(cpu.peek(0xFFF), Some(1));
    assert_eq!(cpu.index(), 0x1000);
    assert_eq!(cpu.ld_vxi(0), Err(Chip8Error::AddressOutOfBounds));
}

#[test]
fn skips_compare_register_and_byte() {
    let mut cpu = CPU::new(default_quirks());
    cpu.write_v(0, 5);
    cpu.write_v(1, 5);
    cpu.write_v(2, 6);
    cpu.se_x(0, 5);
    assert_eq!(cpu.pc(), 0x202);
    cpu.se_x(0, 6);
    assert_eq!(cpu.pc(), 0x202);
    cpu.sne_x(0, 6);
    assert_eq!(cpu.pc(), 0x204);
    cpu.sne_x(0, 5);
    assert_eq!(cpu.pc(), 0x204);
    cpu.se_xy(0, 1);
    assert_eq!(cpu.pc(), 0x206);
    cpu.se_xy(0, 2);
    assert_eq!(cpu.pc(), 0x206);
    cpu.sne_xy(0, 2);
    assert_eq!(cpu.pc(), 0x208);
    cpu.sne_xy(0, 1);
    assert_eq!(cpu.pc(), 0x208);
}

#[test]
fn key_skips_follow_the_key_state() {
    let mut cpu = CPU::new(default_quirks());
    let mut keys = [false; 16];
    keys[0xA] = true;
    cpu.set_pressed_keys(keys);
    cpu.write_v(0, 0xA);
    cpu.write_v(1, 0xB);
    cpu.skp(0);
    assert_eq!(cpu.pc(), 0x202);
    cpu.skp(1);
    assert_eq!(cpu.pc(), 0x202);
    cpu.sknp(1);
    assert_eq!(cpu.pc(), 0x204);
    cpu.sknp(0);
    assert_eq!(cpu.pc(), 0x204);
}

#[test]
fn key_skips_treat_values_above_15_as_no_key() {
    let mut cpu = CPU::new(default_quirks());
    cpu.set_pressed_keys([true; 16]);
    cpu.write_v(0, 0x10);
    cpu.skp(0);
    assert_eq!(cpu.pc(), 0x200);
    cpu.sknp(0);
    assert_eq!(cpu.pc(), 0x202);
}

#[test]
fn key_wait_without_key_repeats_the_instruction() {
    // LD V3, K
    let mut cpu = machine_with(&[0xF3, 0x0A]);
    assert_eq!(cpu.tick(NO_KEYS), Ok(()));
    assert_eq!(cpu.pc(), 0x200);
    assert_eq!(cpu.read_v(3), 0);
    assert_eq!(cpu.tick(NO_KEYS), Ok(()));
    assert_eq!(cpu.pc(), 0x200);
}

#[test]
fn key_wait_latches_lowest_pressed_key() {
    let mut cpu = machine_with(&[0xF3, 0x0A]);
    let mut keys = [false; 16];
    keys[0x9] = true;
    keys[0x4] = true;
    keys[0xE] = true;
    assert_eq!(cpu.tick(keys), Ok(()));
    assert_eq!(cpu.pc(), 0x202);
    assert_eq!(cpu.read_v(3), 0x4);
}

#[test]
fn key_wait_sees_key_zero() {
    let mut cpu = machine_with(&[0xF3, 0x0A]);
    cpu.write_v(3, 0x55);
    let mut keys = [false; 16];
    keys[0] = true;
    assert_eq!(cpu.tick(keys), Ok(()));
    assert_eq!(cpu.pc(), 0x202);
    assert_eq!(cpu.read_v(3), 0);
}

#[test]
fn call_then_return_restores_pc() {
    // 0x200: CALL 0x204 ; 0x202: NOP ; 0x204: RET
    let mut cpu = machine_with(&[0x22, 0x04, 0x00, 0x00, 0x00, 0xEE]);
    assert_eq!(cpu.tick(NO_KEYS), Ok(()));
    assert_eq!(cpu.pc(), 0x204);
    assert_eq!(cpu.stack_depth(), 1);
    assert_eq!(cpu.tick(NO_KEYS), Ok(()));
    assert_eq!(cpu.pc(), 0x202);
    assert_eq!(cpu.stack_depth(), 0);
}

#[test]
fn sixteen_nested_calls_succeed_and_the_next_overflows() {
    // CALL 0x200, forever
    let mut cpu = machine_with(&[0x22, 0x00]);
    for depth in 1..=16 {
        assert_eq!(cpu.tick(NO_KEYS), Ok(()));
        assert_eq!(cpu.stack_depth(), depth);
        assert_eq!(cpu.pc(), 0x200);
    }
    assert_eq!(cpu.tick(NO_KEYS), Err(Chip8Error::StackOverflow));
    assert_eq!(cpu.stack_depth(), 16);
    assert_eq!(cpu.pc(), 0x200);
}

#[test]
fn nested_calls_return_in_reverse_order() {
    let mut cpu = CPU::new(default_quirks());
    for k in 0..16u16 {
        cpu.jp(0x300 + 2 * k);
        assert_eq!(cpu.call(0x400), Ok(()));
        assert_eq!(cpu.pc(), 0x400);
    }
    assert_eq!(cpu.call(0x400), Err(Chip8Error::StackOverflow));
    for k in (0..16u16).rev() {
        assert_eq!(cpu.ret(), Ok(()));
        assert_eq!(cpu.pc(), 0x300 + 2 * k);
    }
    assert_eq!(cpu.ret(), Err(Chip8Error::StackUnderflow));
}

#[test]
fn return_on_empty_stack_underflows() {
    let mut cpu = machine_with(&[0x00, 0xEE]);
    assert_eq!(cpu.tick(NO_KEYS), Err(Chip8Error::StackUnderflow));
    assert_eq!(cpu.pc(), 0x200);
    assert_eq!(cpu.stack_depth(), 0);
}

#[test]
fn stack_push_and_pop_are_bounded() {
    let mut cpu = CPU::new(default_quirks());
    assert_eq!(cpu.stack_pop(), Err(Chip8Error::StackUnderflow));
    for k in 0..16u16 {
        assert_eq!(cpu.stack_push(k), Ok(()));
    }
    assert_eq!(cpu.stack_push(99), Err(Chip8Error::StackOverflow));
    for k in (0..16u16).rev() {
        assert_eq!(cpu.stack_pop(), Ok(k));
    }
    assert_eq!(cpu.stack_pop(), Err(Chip8Error::StackUnderflow));
}

#[test]
fn jump_then_fetch_reads_the_target() {
    // 0x200: JP 0x300 ; 0x300: LD V1, 0x77
    let mut rom = vec![0u8; 0x102];
    rom[0] = 0x13;
    rom[1] = 0x00;
    rom[0x100] = 0x61;
    rom[0x101] = 0x77;
    let mut cpu = machine_with(&rom);
    assert_eq!(cpu.tick(NO_KEYS), Ok(()));
    assert_eq!(cpu.pc(), 0x300);
    assert_eq!(cpu.peek(0x300), Some(0x61));
    assert_eq!(cpu.peek(0x301), Some(0x77));
    assert_eq!(cpu.tick(NO_KEYS), Ok(()));
    assert_eq!(cpu.read_v(1), 0x77);
    assert_eq!(cpu.pc(), 0x302);
}

#[test]
fn jump_with_offset_uses_v0_by_default() {
    let mut cpu = CPU::new(quirks(true, true, false, false));
    cpu.write_v(0, 0x10);
    cpu.write_v(3, 0x20);
    cpu.jp_v0(0x300);
    assert_eq!(cpu.pc(), 0x310);
}

#[test]
fn jump_with_offset_uses_vx_with_quirk() {
    let mut cpu = CPU::new(quirks(true, true, false, true));
    cpu.write_v(0, 0x10);
    cpu.write_v(3, 0x20);
    cpu.jp_v0(0x300);
    assert_eq!(cpu.pc(), 0x320);
}

#[test]
fn jump_with_offset_wraps_at_sixteen_bits() {
    let mut cpu = CPU::new(default_quirks());
    cpu.write_v(0, 0x02);
    cpu.jp_v0(0xFFFF);
    assert_eq!(cpu.pc(), 0x0001);
}

#[test]
fn cls_then_draw_sets_pixels_and_redraw() {
    let mut cpu = machine_with(&[0xFF]);
    cpu.set_redraw(false);
    cpu.cls();
    cpu.ld_i(0x200);
    assert_eq!(cpu.drw(0, 1, 1), Ok(()));
    assert!(cpu.redraw());
    for x in 0..8 {
        assert!(cpu.vbuffer()[x]);
    }
    for p in 8..2048 {
        assert!(!cpu.vbuffer()[p]);
    }
    assert_eq!(cpu.read_v(0xF), 0);

    cpu.set_redraw(false);
    assert_eq!(cpu.drw(0, 1, 1), Ok(()));
    assert!(cpu.redraw());
    for p in 0..2048 {
        assert!(!cpu.vbuffer()[p]);
    }
    assert_eq!(cpu.read_v(0xF), 1);
}

#[test]
fn cls_then_draw_through_steps() {
    // CLS ; LD I, 0x208 ; DRW V0, V1, 1 ; DRW V0, V1, 1 ; sprite 0xFF
    let mut cpu = machine_with(&[0x00, 0xE0, 0xA2, 0x08, 0xD0, 0x11, 0xD0, 0x11, 0xFF]);
    cpu.set_redraw(false);
    assert_eq!(cpu.tick(NO_KEYS), Ok(()));
    assert!(!cpu.redraw());
    assert_eq!(cpu.tick(NO_KEYS), Ok(()));
    assert!(!cpu.redraw());
    assert_eq!(cpu.tick(NO_KEYS), Ok(()));
    assert!(cpu.redraw());
    assert!(cpu.vbuffer()[..8].iter().all(|p| *p));
    assert!(cpu.vbuffer()[8..].iter().all(|p| !*p));
    assert_eq!(cpu.read_v(0xF), 0);
    assert_eq!(cpu.tick(NO_KEYS), Ok(()));
    assert!(cpu.vbuffer().iter().all(|p| !*p));
    assert_eq!(cpu.read_v(0xF), 1);
}

#[test]
fn draw_wraps_columns() {
    let mut cpu = machine_with(&[0xFF]);
    cpu.ld_i(0x200);
    cpu.write_v(0, 60);
    cpu.write_v(1, 5);
    assert_eq!(cpu.drw(0, 1, 1), Ok(()));
    for p in 0..2048usize {
        let (x, y) = (p % 64, p / 64);
        let lit = y == 5 && (x >= 60 || x <= 3);
        assert_eq!(cpu.vbuffer()[p], lit);
    }
    assert_eq!(cpu.read_v(0xF), 0);
}

#[test]
fn draw_wraps_rows() {
    let mut cpu = machine_with(&[0x80, 0x80, 0x80]);
    cpu.ld_i(0x200);
    cpu.write_v(0, 10);
    cpu.write_v(1, 31);
    assert_eq!(cpu.drw(0, 1, 3), Ok(()));
    for p in 0..2048usize {
        let (x, y) = (p % 64, p / 64);
        let lit = x == 10 && (y == 31 || y == 0 || y == 1);
        assert_eq!(cpu.vbuffer()[p], lit);
    }
}

#[test]
fn draw_wraps_coordinates_beyond_the_screen() {
    let mut cpu = machine_with(&[0xC0]);
    cpu.ld_i(0x200);
    cpu.write_v(0, 255);
    cpu.write_v(1, 255);
    assert_eq!(cpu.drw(0, 1, 1), Ok(()));
    for p in 0..2048usize {
        let (x, y) = (p % 64, p / 64);
        let lit = y == 31 && (x == 63 || x == 0);
        assert_eq!(cpu.vbuffer()[p], lit);
    }
}

#[test]
fn draw_uses_the_most_significant_bit_first() {
    let mut cpu = machine_with(&[0b1010_0001]);
    cpu.ld_i(0x200);
    assert_eq!(cpu.drw(0, 0, 1), Ok(()));
    let row: Vec<bool> = cpu.vbuffer()[..8].to_vec();
    assert_eq!(row, vec![true, false, true, false, false, false, false, true]);
}

#[test]
fn draw_reports_collision_only_on_overlap() {
    let mut cpu = machine_with(&[0xF0, 0x0F]);
    cpu.ld_i(0x200);
    assert_eq!(cpu.drw(0, 0, 1), Ok(()));
    cpu.ld_i(0x201);
    assert_eq!(cpu.drw(0, 0, 1), Ok(()));
    assert_eq!(cpu.read_v(0xF), 0);
    assert!(cpu.vbuffer()[..8].iter().all(|p| *p));
    cpu.ld_i(0x200);
    assert_eq!(cpu.drw(0, 0, 1), Ok(()));
    assert_eq!(cpu.read_v(0xF), 1);
    let row: Vec<bool> = cpu.vbuffer()[..8].to_vec();
    assert_eq!(row, vec![false, false, false, false, true, true, true, true]);
}

#[test]
fn draw_resets_flag_before_reading_coordinates() {
    let mut cpu = machine_with(&[0x80]);
    cpu.ld_i(0x200);
    cpu.write_v(0xF, 9);
    cpu.write_v(1, 2);
    assert_eq!(cpu.drw(0xF, 1, 1), Ok(()));
    assert!(cpu.vbuffer()[2 * 64]);
    assert!(!cpu.vbuffer()[2 * 64 + 9]);
    assert_eq!(cpu.read_v(0xF), 0);
}

#[test]
fn draw_of_no_rows_only_requests_redraw() {
    let mut cpu = CPU::new(default_quirks());
    cpu.set_redraw(false);
    cpu.write_v(0xF, 1);
    cpu.ld_i(0xFFFF);
    assert_eq!(cpu.drw(0, 0, 0), Ok(()));
    assert!(cpu.redraw());
    assert_eq!(cpu.read_v(0xF), 0);
    assert!(cpu.vbuffer().iter().all(|p| !*p));
}

#[test]
fn draw_is_bounds_checked() {
    let mut cpu = CPU::new(default_quirks());
    cpu.set_redraw(false);
    cpu.write_v(0xF, 1);
    cpu.ld_i(0xFFE);
    assert_eq!(cpu.drw(0, 0, 2), Ok(()));
    cpu.set_redraw(false);
    cpu.write_v(0xF, 1);
    assert_eq!(cpu.drw(0, 0, 3), Err(Chip8Error::AddressOutOfBounds));
    assert!(!cpu.redraw());
    assert_eq!(cpu.read_v(0xF), 1);
}

#[test]
fn cls_clears_the_screen_and_leaves_redraw() {
    let mut cpu = machine_with(&[0xFF]);
    cpu.ld_i(0x200);
    assert_eq!(cpu.drw(0, 0, 1), Ok(()));
    cpu.set_redraw(false);
    cpu.cls();
    assert!(cpu.vbuffer().iter().all(|p| !*p));
    assert!(!cpu.redraw());
}

#[test]
fn rnd_masks_the_random_byte() {
    let mut cpu = CPU::new(default_quirks());
    for _ in 0..64 {
        cpu.write_v(0, 0xFF);
        cpu.rnd(0, 0x0F);
        assert_eq!(cpu.read_v(0) & 0xF0, 0);
        cpu.write_v(0, 0xFF);
        cpu.rnd(0, 0x00);
        assert_eq!(cpu.read_v(0), 0);
    }
}

#[test]
fn rnd_draws_different_bytes() {
    let mut cpu = CPU::new(default_quirks());
    let mut seen = std::collections::BTreeSet::new();
    for _ in 0..256 {
        cpu.rnd(0, 0xFF);
        seen.insert(cpu.read_v(0));
    }
    assert!(seen.len() > 1);
}

#[test]
fn rnd_with_uses_the_given_byte() {
    let mut cpu = CPU::new(default_quirks());
    cpu.rnd_with(2, 0b0011_1100, 0b1010_1010);
    assert_eq!(cpu.read_v(2), 0b0010_1000);
}

#[test]
fn tick_with_injects_the_random_byte() {
    // RND V1, 0x3C
    let mut cpu = machine_with(&[0xC1, 0x3C]);
    assert_eq!(cpu.tick_with(NO_KEYS, 0xAA), Ok(()));
    assert_eq!(cpu.read_v(1), 0x28);
    assert_eq!(cpu.pc(), 0x202);
}

#[test]
fn tick_counts_timers_down_to_zero() {
    // JP 0x200
    let mut cpu = machine_with(&[0x12, 0x00]);
    cpu.write_v(0, 2);
    cpu.ld_dtx(0);
    cpu.write_v(0, 1);
    cpu.ld_stx(0);
    assert_eq!(cpu.tick(NO_KEYS), Ok(()));
    assert_eq!((cpu.delay_timer(), cpu.sound_timer()), (1, 0));
    assert_eq!(cpu.tick(NO_KEYS), Ok(()));
    assert_eq!((cpu.delay_timer(), cpu.sound_timer()), (0, 0));
    assert_eq!(cpu.tick(NO_KEYS), Ok(()));
    assert_eq!((cpu.delay_timer(), cpu.sound_timer()), (0, 0));
}

#[test]
fn tick_sets_timer_after_counting_down() {
    // LD V0, 9 ; LD DT, V0 ; LD V1, DT
    let mut cpu = machine_with(&[0x60, 0x09, 0xF0, 0x15, 0xF1, 0x07]);
    assert_eq!(cpu.tick(NO_KEYS), Ok(()));
    assert_eq!(cpu.tick(NO_KEYS), Ok(()));
    assert_eq!(cpu.delay_timer(), 9);
    assert_eq!(cpu.tick(NO_KEYS), Ok(()));
    assert_eq!(cpu.read_v(1), 8);
}

#[test]
fn tick_replaces_the_keys() {
    let mut cpu = machine_with(&[0x00, 0x00, 0x00, 0x00]);
    let mut keys = [false; 16];
    keys[3] = true;
    assert_eq!(cpu.tick(keys), Ok(()));
    assert_eq!(*cpu.pressed_keys(), keys);
    assert_eq!(cpu.tick(NO_KEYS), Ok(()));
    assert_eq!(*cpu.pressed_keys(), NO_KEYS);
}

#[test]
fn tick_leaves_redraw_alone_without_a_draw() {
    let mut cpu = machine_with(&[0x60, 0x01, 0x00, 0xE0]);
    assert!(cpu.redraw());
    assert_eq!(cpu.tick(NO_KEYS), Ok(()));
    assert!(cpu.redraw());
    cpu.set_redraw(false);
    assert_eq!(cpu.tick(NO_KEYS), Ok(()));
    assert!(!cpu.redraw());
}

#[test]
fn tick_skips_the_next_instruction() {
    // SE V0, 0 ; (skipped) ; LD V1, 1
    let mut cpu = machine_with(&[0x30, 0x00, 0x61, 0xFF, 0x61, 0x01]);
    assert_eq!(cpu.tick(NO_KEYS), Ok(()));
    assert_eq!(cpu.pc(), 0x204);
    assert_eq!(cpu.tick(NO_KEYS), Ok(()));
    assert_eq!(cpu.read_v(1), 1);
}

#[test]
fn tick_reports_an_invalid_instruction_and_changes_nothing() {
    // LD V0, 5 ; LD DT, V0 ; 0x8008 names nothing
    let mut cpu = machine_with(&[0x60, 0x05, 0xF0, 0x15, 0x80, 0x08]);
    assert_eq!(cpu.tick(NO_KEYS), Ok(()));
    assert_eq!(cpu.tick(NO_KEYS), Ok(()));
    let mut keys = [false; 16];
    keys[1] = true;
    assert_eq!(
        cpu.tick(keys),
        Err(Chip8Error::InvalidInstruction { opcode: 0x8008, pc: 0x204 })
    );
    assert_eq!(cpu.pc(), 0x204);
    assert_eq!(cpu.delay_timer(), 5);
    assert_eq!(*cpu.pressed_keys(), NO_KEYS);
}

#[test]
fn tick_reports_each_family_with_unknown_entries() {
    for (hi, lo, word) in [(0x00, 0x01, 0x0001), (0xE0, 0x00, 0xE000), (0xF0, 0xFF, 0xF0FF)] {
        let mut cpu = machine_with(&[hi, lo]);
        assert_eq!(
            cpu.tick(NO_KEYS),
            Err(Chip8Error::InvalidInstruction { opcode: word, pc: 0x200 })
        );
    }
}

#[test]
fn tick_fails_when_the_program_counter_leaves_memory() {
    let mut cpu = CPU::new(default_quirks());
    cpu.jp(0xFFE);
    assert_eq!(cpu.tick(NO_KEYS), Ok(()));
    assert_eq!(cpu.pc(), 0x1000);
    assert_eq!(cpu.tick(NO_KEYS), Err(Chip8Error::AddressOutOfBounds));
    assert_eq!(cpu.pc(), 0x1000);
    cpu.jp(0xFFF);
    assert_eq!(cpu.tick(NO_KEYS), Err(Chip8Error::AddressOutOfBounds));
}

#[test]
fn tick_restores_the_machine_when_an_instruction_fails() {
    // LD I, 0xFFF ; LD [I], V1
    let mut cpu = machine_with(&[0xAF, 0xFF, 0xF1, 0x55]);
    cpu.write_v(0, 3);
    cpu.ld_dtx(0);
    assert_eq!(cpu.tick(NO_KEYS), Ok(()));
    let mut keys = [false; 16];
    keys[7] = true;
    assert_eq!(cpu.tick(keys), Err(Chip8Error::AddressOutOfBounds));
    assert_eq!(cpu.pc(), 0x202);
    assert_eq!(cpu.delay_timer(), 2);
    assert_eq!(*cpu.pressed_keys(), NO_KEYS);
    assert_eq!(cpu.index(), 0xFFF);
}

#[test]
fn tick_refuses_to_move_i_beyond_sixteen_bits() {
    // ADD I, V0
    let mut cpu = machine_with(&[0xF0, 0x1E]);
    cpu.ld_i(0xFFFF);
    cpu.write_v(0, 1);
    assert_eq!(cpu.tick(NO_KEYS), Err(Chip8Error::AddressOutOfBounds));
    assert_eq!(cpu.index(), 0xFFFF);
    cpu.write_v(0, 0);
    assert_eq!(cpu.tick(NO_KEYS), Ok(()));
    assert_eq!(cpu.index(), 0xFFFF);
    assert_eq!(cpu.read_v(0xF), 1);
}

#[test]
fn tick_runs_a_small_program() {
    // V0 = 3 ; V1 = 0 ; loop: V1 += V0 ; V0 -= 1 (via V2 = 1) ; until V0 == 0
    let program = [
        0x60, 0x03, // 0x200 LD V0, 3
        0x61, 0x00, // 0x202 LD V1, 0
        0x62, 0x01, // 0x204 LD V2, 1
        0x81, 0x04, // 0x206 ADD V1, V0
        0x80, 0x25, // 0x208 SUB V0, V2
        0x30, 0x00, // 0x20A SE V0, 0
        0x12, 0x06, // 0x20C JP 0x206
        0x12, 0x0E, // 0x20E JP 0x20E
    ];
    let mut cpu = machine_with(&program);
    for _ in 0..40 {
        assert_eq!(cpu.tick(NO_KEYS), Ok(()));
    }
    assert_eq!(cpu.read_v(1), 6);
    assert_eq!(cpu.read_v(0), 0);
    assert_eq!(cpu.pc(), 0x20E);
}

#[test]
fn quirks_are_kept() {
    let q = quirks(false, true, true, false);
    let cpu = CPU::new(q);
    let kept = cpu.quirks();
    assert_eq!(
        (kept.vf_reset, kept.mem_inc, kept.display_wait, kept.clipping, kept.shift_x, kept.jump_vx),
        (false, true, false, false, true, false)
    );
}

#[test]
fn execute_runs_one_decoded_instruction() {
    let mut cpu = CPU::new(default_quirks());
    assert_eq!(cpu.execute(Opcode::LdByte { x: 1, byte: 9 }, 0), Ok(()));
    assert_eq!(cpu.read_v(1), 9);
    assert_eq!(cpu.execute(Opcode::Rnd { x: 2, byte: 0xF0 }, 0xAB), Ok(()));
    assert_eq!(cpu.read_v(2), 0xA0);
    assert_eq!(cpu.execute(Opcode::Nop, 0), Ok(()));
    assert_eq!(cpu.pc(), 0x200);
    assert_eq!(cpu.execute(Opcode::Ret, 0), Err(Chip8Error::StackUnderflow));
    let op = decode(0x8124).unwrap();
    assert_eq!(cpu.execute(op, 0), Ok(()));
    assert_eq!(cpu.read_v(1), 0xA9);
    assert_eq!(cpu.read_v(0xF), 0);
}

#[test]
fn execute_refuses_to_overflow_the_index_register() {
    let mut cpu = CPU::new(default_quirks());
    cpu.ld_i(0xFF80);
    cpu.write_v(4, 0x7F);
    assert_eq!(cpu.execute(Opcode::AddI { x: 4 }, 0), Ok(()));
    assert_eq!(cpu.index(), 0xFFFF);
    cpu.write_v(4, 0x01);
    cpu.write_v(0xF, 0);
    assert_eq!(cpu.execute(Opcode::AddI { x: 4 }, 0), Err(Chip8Error::AddressOutOfBounds));
    assert_eq!(cpu.index(), 0xFFFF);
    assert_eq!(cpu.read_v(0xF), 0);
}

#[test]
fn drawing_twice_restores_any_screen() {
    let mut cpu = machine_with(&[0xA5, 0x3C, 0xFF, 0x81, 0x18]);
    cpu.ld_i(0x200);
    cpu.write_v(0, 61);
    cpu.write_v(1, 30);
    assert_eq!(cpu.drw(0, 1, 5), Ok(()));
    cpu.ld_i(0x202);
    cpu.write_v(2, 62);
    cpu.write_v(3, 31);
    let before: Vec<bool> = cpu.vbuffer().to_vec();
    assert_eq!(cpu.drw(2, 3, 3), Ok(()));
    assert_ne!(cpu.vbuffer().to_vec(), before);
    assert_eq!(cpu.drw(2, 3, 3), Ok(()));
    assert_eq!(cpu.vbuffer().to_vec(), before);
}
