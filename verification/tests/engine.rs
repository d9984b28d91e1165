use chip8::display::{HEIGHT, WIDTH};
use chip8::memory::{PROGRAM_START, SIZE};
use chip8::opcode::decode;
use chip8::{Chip8, ExecError, Instruction};

fn machine() -> Chip8 {
    Chip8::new(&[]).unwrap()
}

fn glyphs() -> Vec<u8> {
    vec![
        0xF0, 0x90, 0x90, 0x90, 0xF0, 0x20, 0x60, 0x20, 0x20, 0x70, 0xF0, 0x10, 0xF0, 0x80, 0xF0,
    ]
}

#[test]
fn a_new_machine_is_zeroed_with_the_image_at_zero() {
    let image = glyphs();
    let c = Chip8::new(&image).unwrap();
    let r = c.registers();
    assert_eq!(r.v, [0; 16]);
    assert_eq!(r.i, 0);
    assert_eq!(r.pc, PROGRAM_START);
    assert_eq!(r.sp, 0);
    assert_eq!(r.stack, [0; 16]);
    assert_eq!(r.dt, 0);
    assert_eq!(r.st, 0);
    assert!(!c.is_running());
    for a in 0..SIZE {
        let expected = if a < image.len() { image[a] } else { 0 };
        assert_eq!(c.memory().read(a), expected);
    }
    for y in 0..HEIGHT {
        for x in 0..WIDTH {
            assert!(!c.display().pixel(x, y));
        }
    }
    for key in 0..16u8 {
        assert!(!c.keypad().is_down(key));
    }
}

#[test]
fn three_steps_add_two_registers() {
    let mut c = machine();
    c.load_rom(&[0x60, 0x05, 0x61, 0x0A, 0x80, 0x14]).unwrap();
    let start = c.registers().pc;
    for _ in 0..3 {
        assert!(c.can_step());
        assert_eq!(c.step(), Ok(()));
    }
    let r = c.registers();
    assert_eq!(r.v[0], 15);
    assert_eq!(r.v[1], 10);
    assert_eq!(r.v[0xF], 0);
    assert_eq!(r.pc, start + 6);
}

#[test]
fn three_steps_of_two_loads_into_one_register() {
    let mut c = machine();
    c.load_rom(&[0x60, 0x05, 0x60, 0x0A, 0x80, 0x14]).unwrap();
    let start = c.registers().pc;
    for _ in 0..3 {
        assert!(c.can_step());
        assert_eq!(c.step(), Ok(()));
    }
    let r = c.registers();
    assert_eq!(r.v[0], 10);
    assert_eq!(r.v[1], 0);
    assert_eq!(r.v[0xF], 0);
    assert_eq!(r.pc, start + 6);
}

#[test]
fn steps_with_a_given_random_byte() {
    let mut c = machine();
    c.load_rom(&[0xC3, 0x3C, 0x73, 0x01]).unwrap();
    assert_eq!(c.step_with(0xFF), Ok(()));
    assert_eq!(c.registers().v[3], 0x3C);
    assert_eq!(c.step_with(0xFF), Ok(()));
    assert_eq!(c.registers().v[3], 0x3D);
    assert_eq!(c.registers().pc, 0x204);
}

#[test]
fn steps_draw_a_random_byte_for_the_random_instruction() {
    let mut c = machine();
    c.load_rom(&[0xC3, 0x07, 0x12, 0x00]).unwrap();
    for _ in 0..100 {
        assert_eq!(c.step(), Ok(()));
        assert!(c.registers().v[3] <= 7);
        assert_eq!(c.step(), Ok(()));
        assert_eq!(c.registers().pc, 0x200);
    }
}

#[test]
fn an_unknown_word_is_reported_and_leaves_the_machine() {
    for word in [0x5001u16, 0x8008, 0x800F, 0x9001, 0xE000, 0xE19F, 0xF000, 0xF1FF, 0xFFFF] {
        let mut c = machine();
        c.load_rom(&[(word >> 8) as u8, word as u8]).unwrap();
        c.ld_vx_byte(1, 1);
        c.jp_addr(0x200);
        let before = c.registers();
        assert!(c.can_step());
        assert_eq!(c.step(), Err(ExecError::UnknownOpcode));
        assert_eq!(c.registers(), before);
        assert_eq!(c.step(), Err(ExecError::UnknownOpcode));
        assert_eq!(c.registers().pc, 0x200);
        assert_eq!(decode(word), None);
    }
}

#[test]
fn a_machine_code_call_holds_the_program_counter() {
    let mut c = machine();
    c.load_rom(&[0x01, 0x23]).unwrap();
    assert_eq!(c.step(), Ok(()));
    assert_eq!(c.step(), Ok(()));
    assert_eq!(c.registers().pc, 0x200);
    let zeroed = machine().registers();
    assert_eq!(c.registers(), zeroed);
}

#[test]
fn steps_report_stack_errors() {
    let mut c = machine();
    c.load_rom(&[0x00, 0xEE]).unwrap();
    assert_eq!(c.step(), Err(ExecError::StackUnderflow));
    assert_eq!(c.registers().pc, 0x200);
    let mut c = machine();
    c.load_rom(&[0x22, 0x00]).unwrap();
    for depth in 1..=15u8 {
        assert_eq!(c.step(), Ok(()));
        assert_eq!(c.registers().sp, depth);
        assert_eq!(c.registers().pc, 0x200);
    }
    assert_eq!(c.step(), Err(ExecError::StackOverflow));
    assert_eq!(c.registers().sp, 15);
    assert_eq!(c.registers().stack[15], 0x202);
}

#[test]
fn steps_call_and_return() {
    let mut c = machine();
    c.load_rom(&[0x22, 0x06, 0x61, 0x01, 0x00, 0x00, 0x62, 0x02, 0x00, 0xEE]).unwrap();
    assert_eq!(c.step(), Ok(()));
    assert_eq!(c.registers().pc, 0x206);
    assert_eq!(c.step(), Ok(()));
    assert_eq!(c.step(), Ok(()));
    assert_eq!(c.registers().pc, 0x202);
    assert_eq!(c.registers().sp, 0);
    assert_eq!(c.step(), Ok(()));
    assert_eq!(c.registers().v[1], 1);
    assert_eq!(c.registers().v[2], 2);
}

#[test]
fn steps_report_a_sprite_off_the_display() {
    let mut c = machine();
    c.load_rom(&[0x60, 0x3D, 0xD0, 0x11]).unwrap();
    assert_eq!(c.step(), Ok(()));
    let before = c.registers();
    assert!(c.can_step());
    assert_eq!(c.step(), Err(ExecError::DisplayOutOfBounds));
    assert_eq!(c.registers(), before);
}

#[test]
fn steps_never_touch_the_timers() {
    let mut c = machine();
    c.load_rom(&[0x60, 0x09, 0xF0, 0x15, 0xF0, 0x18, 0x70, 0x01, 0x12, 0x06]).unwrap();
    for _ in 0..3 {
        assert_eq!(c.step(), Ok(()));
    }
    for _ in 0..50 {
        assert_eq!(c.step(), Ok(()));
        assert_eq!(c.registers().dt, 9);
        assert_eq!(c.registers().st, 9);
    }
}

#[test]
fn a_step_that_leaves_memory_is_foreseen() {
    let mut c = machine();
    c.jp_addr(4095);
    assert!(!c.can_step());
    c.jp_addr(4094);
    assert!(c.can_step());
    c.jp_addr(0xFFFF);
    assert!(!c.can_step());

    let mut c = machine();
    c.load_rom(&[0xF0, 0x33]).unwrap();
    c.ld_i_addr(4094);
    c.jp_addr(0x200);
    assert!(!c.can_step());
    c.ld_i_addr(4093);
    c.jp_addr(0x200);
    assert!(c.can_step());

    let mut c = machine();
    c.load_rom(&[0xF3, 0x55, 0xF3, 0x65]).unwrap();
    c.ld_i_addr(4093);
    c.jp_addr(0x200);
    assert!(!c.can_step());
    c.jp_addr(0x202);
    assert!(!c.can_step());
    c.ld_i_addr(4092);
    c.jp_addr(0x200);
    assert!(c.can_step());
    c.jp_addr(0x202);
    assert!(c.can_step());

    let mut c = machine();
    c.load_rom(&[0xD0, 0x02, 0xD0, 0x00]).unwrap();
    c.ld_i_addr(4095);
    c.jp_addr(0x200);
    assert!(!c.can_step());
    c.jp_addr(0x202);
    assert!(c.can_step());
    c.ld_i_addr(4094);
    c.jp_addr(0x200);
    assert!(c.can_step());
    assert!(c.in_bounds(Instruction::Drw { x: 0, y: 0, n: 2 }));
    assert!(!c.in_bounds(Instruction::Drw { x: 0, y: 0, n: 3 }));
}

#[test]
fn a_sprite_off_the_display_needs_no_memory() {
    let mut c = machine();
    c.load_rom(&[0xD0, 0x0F]).unwrap();
    c.ld_vx_byte(0, 30);
    c.ld_i_addr(4095);
    c.jp_addr(0x200);
    assert!(c.can_step());
    assert_eq!(c.step(), Err(ExecError::DisplayOutOfBounds));
}

#[test]
fn reset_restores_the_machine_and_keeps_image_and_keys() {
    let image = glyphs();
    let mut c = Chip8::new(&image).unwrap();
    c.load_rom(&[0x60, 0x05, 0xA0, 0x00, 0xD0, 0x05, 0x23, 0x00]).unwrap();
    c.load_image(&[0xEE; 8], 0).unwrap();
    for _ in 0..4 {
        assert_eq!(c.step(), Ok(()));
    }
    c.ld_vx_byte(1, 50);
    c.ld_dt_vx(1);
    c.ld_st_vx(1);
    c.set_key(2, true);
    c.set_running(true);
    assert!(c.is_running());
    c.reset();
    let fresh = Chip8::new(&image).unwrap();
    assert_eq!(c.registers(), fresh.registers());
    assert!(!c.is_running());
    for a in 0..4096usize {
        assert_eq!(c.memory().read(a), fresh.memory().read(a));
    }
    for y in 0..HEIGHT {
        for x in 0..WIDTH {
            assert!(!c.display().pixel(x, y));
        }
    }
    assert!(c.keypad().is_down(2));
    assert_eq!(c.memory().read(0x200), 0);
    assert_eq!(c.memory().read(0), 0xF0);
}

#[test]
fn the_run_flag_is_set_and_cleared() {
    let mut c = machine();
    assert!(!c.is_running());
    c.set_running(true);
    assert!(c.is_running());
    c.set_running(false);
    assert!(!c.is_running());
}

#[test]
fn fetch_reads_the_high_byte_first() {
    let mut c = machine();
    c.load_rom(&[0x12, 0x34, 0xAB, 0xCD]).unwrap();
    assert_eq!(c.fetch(), 0x1234);
    c.jp_addr(0x201);
    assert_eq!(c.fetch(), 0x34AB);
    c.jp_addr(0x202);
    assert_eq!(c.fetch(), 0xABCD);
}

#[test]
fn execute_runs_a_decoded_instruction() {
    let mut c = machine();
    assert_eq!(c.execute(Instruction::LdByte { x: 2, kk: 9 }, 0), Ok(()));
    assert_eq!(c.execute(Instruction::Rnd { x: 3, kk: 0x0F }, 0xA5), Ok(()));
    assert_eq!(c.execute(Instruction::Ret, 0), Err(ExecError::StackUnderflow));
    let r = c.registers();
    assert_eq!(r.v[2], 9);
    assert_eq!(r.v[3], 5);
    assert_eq!(r.pc, 0x204);
}

#[test]
fn every_word_decodes_as_the_table_says() {
    assert_eq!(decode(0x00E0), Some(Instruction::Cls));
    assert_eq!(decode(0x00EE), Some(Instruction::Ret));
    assert_eq!(decode(0x0000), Some(Instruction::Sys));
    assert_eq!(decode(0x0123), Some(Instruction::Sys));
    assert_eq!(decode(0x00E1), Some(Instruction::Sys));
    assert_eq!(decode(0x1ABC), Some(Instruction::Jp { nnn: 0xABC }));
    assert_eq!(decode(0x2FFF), Some(Instruction::Call { nnn: 0xFFF }));
    assert_eq!(decode(0x3A12), Some(Instruction::SeByte { x: 0xA, kk: 0x12 }));
    assert_eq!(decode(0x4B34), Some(Instruction::SneByte { x: 0xB, kk: 0x34 }));
    assert_eq!(decode(0x5120), Some(Instruction::SeReg { x: 1, y: 2 }));
    assert_eq!(decode(0x6005), Some(Instruction::LdByte { x: 0, kk: 5 }));
    assert_eq!(decode(0x7FFF), Some(Instruction::AddByte { x: 0xF, kk: 0xFF }));
    assert_eq!(decode(0x8120), Some(Instruction::LdReg { x: 1, y: 2 }));
    assert_eq!(decode(0x8121), Some(Instruction::Or { x: 1, y: 2 }));
    assert_eq!(decode(0x8122), Some(Instruction::And { x: 1, y: 2 }));
    assert_eq!(decode(0x8123), Some(Instruction::Xor { x: 1, y: 2 }));
    assert_eq!(decode(0x8014), Some(Instruction::AddReg { x: 0, y: 1 }));
    assert_eq!(decode(0x8125), Some(Instruction::SubReg { x: 1, y: 2 }));
    assert_eq!(decode(0x8126), Some(Instruction::Shr { x: 1 }));
    assert_eq!(decode(0x8127), Some(Instruction::Subn { x: 1, y: 2 }));
    assert_eq!(decode(0x812E), Some(Instruction::Shl { x: 1 }));
    assert_eq!(decode(0x9120), Some(Instruction::SneReg { x: 1, y: 2 }));
    assert_eq!(decode(0xA123), Some(Instruction::LdI { nnn: 0x123 }));
    assert_eq!(decode(0xB123), Some(Instruction::JpV0 { nnn: 0x123 }));
    assert_eq!(decode(0xC1F0), Some(Instruction::Rnd { x: 1, kk: 0xF0 }));
    assert_eq!(decode(0xD125), Some(Instruction::Drw { x: 1, y: 2, n: 5 }));
    assert_eq!(decode(0xE19E), Some(Instruction::Skp { x: 1 }));
    assert_eq!(decode(0xE1A1), Some(Instruction::Sknp { x: 1 }));
    assert_eq!(decode(0xF107), Some(Instruction::LdVxDt { x: 1 }));
    assert_eq!(decode(0xF10A), Some(Instruction::LdVxK { x: 1 }));
    assert_eq!(decode(0xF115), Some(Instruction::LdDtVx { x: 1 }));
    assert_eq!(decode(0xF118), Some(Instruction::LdStVx { x: 1 }));
    assert_eq!(decode(0xF11E), Some(Instruction::AddI { x: 1 }));
    assert_eq!(decode(0xF129), Some(Instruction::LdF { x: 1 }));
    assert_eq!(decode(0xF133), Some(Instruction::LdB { x: 1 }));
    assert_eq!(decode(0xF155), Some(Instruction::LdIVx { x: 1 }));
    assert_eq!(decode(0xF165), Some(Instruction::LdVxI { x: 1 }));
}

#[test]
fn words_that_are_no_instruction_decode_to_none() {
    let mut unknown = 0;
    for word in 0..=0xFFFFu16 {
        let class = word >> 12;
        let n = word & 0xF;
        let kk = word & 0xFF;
        let known = match class {
            0x5 | 0x9 => n == 0,
            0x8 => n <= 7 || n == 0xE,
            0xE => kk == 0x9E || kk == 0xA1,
            0xF => [0x07, 0x0A, 0x15, 0x18, 0x1E, 0x29, 0x33, 0x55, 0x65].contains(&kk),
            _ => true,
        };
        assert_eq!(decode(word).is_some(), known);
        if !known {
            unknown += 1;
        }
    }
    assert_eq!(unknown, 2 * 15 * 256 + 7 * 256 + 254 * 16 + 247 * 16);
}
