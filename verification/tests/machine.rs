use chip8::{Chip8, Fault, LoadError};

fn memset(c: &mut Chip8, location: usize, values: &[u16]) {
    for (ind, mem) in values.iter().enumerate() {
        c.write_memory((location + ind * 2) as u16, (mem >> 8) as u8);
        c.write_memory((location + (ind * 2) + 1) as u16, (mem & 0x00FF) as u8);
    }
}

fn machine_with(program: &[u16]) -> Chip8 {
    let mut c = Chip8::init();
    memset(&mut c, 0x200, program);
    c
}

fn run(c: &mut Chip8, steps: usize) {
    for _ in 0..steps {
        c.step().unwrap();
    }
}

fn lit(c: &Chip8, x: usize, y: usize) -> bool {
    let (width, _) = c.screen_dimens();
    c.gfx()[x + y * width] == 255
}

#[test]
fn chip8test() {
    let mut c = Chip8::init();
    assert_eq!(c.pc(), 0x200);
    memset(&mut c, 0x200, &[0x1204]); //jump to 0x204
    println!("{}", c.reginfo());
    c.step().unwrap(); //0x200
    println!("{}", c.reginfo());
    assert_eq!(c.pc(), 0x204);
    memset(&mut c, 0x190, &[0x6C0F, 0x3C0F, 0x0000, 0x00EE]); //load 0xF into VC, skip next instruction (0x0000) if VC == 0xF, return from function.
    memset(&mut c, 0x204, &[0x2190]); //call function at 0x190
    c.step().unwrap(); //0x204
    println!("{}", c.reginfo());
    assert_eq!(c.pc(), 0x190);
    assert_eq!(c.sp(), 15);
    assert_eq!(c.stack()[15], 0x204);
    c.step().unwrap(); //0x190
    println!("{}", c.reginfo());
    assert_eq!(c.registers()[0xC], 0xF);
    c.step().unwrap(); //0x192: stops with a fault on 0x0000 if the skip fails
    println!("{}", c.reginfo());
    c.step().unwrap(); //0x196
    assert_eq!(c.sp(), 16);
    assert_eq!(c.pc(), 0x206);
}

#[test]
fn chip8drawtest() {
    let mut c = Chip8::init();
    memset(
        &mut c,
        0x200,
        &[0x6003, 0xF029, 0xD125, 0x00E0, 0x600A, 0xF029, 0xD125],
    );
    c.step().unwrap(); //0x6003
    assert_eq!(c.registers()[0], 0x3);
    c.step().unwrap(); //0xF029
    assert_eq!(c.index(), 0xF);
    c.step().unwrap(); //0xD125
    println!("{}", c.dumpgfx());
    c.step().unwrap(); //0x00E0
    c.step().unwrap(); //0x600A
    c.step().unwrap(); //0xF029
    c.step().unwrap(); //0xD125
    println!("{}", c.dumpgfx());
    assert!(c.draw_flag());
}

#[test]
fn init_gives_a_fresh_machine() {
    let c = Chip8::init();
    assert_eq!(c.pc(), 0x200);
    assert_eq!(c.sp(), 16);
    assert_eq!(c.index(), 0);
    assert_eq!(c.delay_timer(), 0);
    assert_eq!(c.sound_timer(), 0);
    assert!(c.draw_flag());
    assert!(!c.no_overdraw());
    assert!(!c.extended_mode());
    assert_eq!(c.screen_dimens(), (64, 32));
    assert_eq!(c.registers(), &[0u8; 16]);
    assert_eq!(c.stack(), &[0u16; 16]);
    assert_eq!(c.keys(), &[false; 16]);
    assert_eq!(c.user_flags(), &[0u8; 8]);
    assert!(c.gfx().iter().all(|cell| *cell == 0));
    assert_eq!(&c.memory()[0..5], &[0xF0, 0x90, 0x90, 0x90, 0xF0]);
    assert_eq!(&c.memory()[75..80], &[0xF0, 0x80, 0xF0, 0x80, 0x80]);
    assert_eq!(
        &c.memory()[80..90],
        &[0xF0, 0xF0, 0x90, 0x90, 0x90, 0x90, 0x90, 0x90, 0xF0, 0xF0]
    );
    assert_eq!(
        &c.memory()[230..240],
        &[0xF0, 0xF0, 0x80, 0x80, 0xF0, 0xF0, 0x80, 0x80, 0x80, 0x80]
    );
    assert!(c.memory()[240..].iter().all(|byte| *byte == 0));
}

#[test]
fn init_memory_holds_both_fonts() {
    let c = Chip8::init();
    assert_eq!(&c.memory()[0..80], &chip8::font::FONTSET[..]);
    assert_eq!(&c.memory()[80..240], &chip8::font::SFONTSET[..]);
}

#[test]
fn load_program_copies_the_image_to_0x200() {
    let mut c = Chip8::init();
    let image = [0x12u8, 0x04, 0xAB];
    assert_eq!(c.load_program(Some(&image)), Ok(()));
    assert_eq!(&c.memory()[0x200..0x203], &[0x12, 0x04, 0xAB]);
    assert_eq!(c.memory()[0x203], 0);
    assert_eq!(c.memory()[0x1FF], 0);
    assert_eq!(&c.memory()[0..5], &[0xF0, 0x90, 0x90, 0x90, 0xF0]);
    assert_eq!(c.pc(), 0x200);
}

#[test]
fn load_program_overwrites_an_earlier_program() {
    let mut c = Chip8::init();
    assert_eq!(c.load_program(Some(&[1, 2, 3, 4])), Ok(()));
    assert_eq!(c.load_program(Some(&[9, 8])), Ok(()));
    assert_eq!(&c.memory()[0x200..0x204], &[9, 8, 3, 4]);
}

#[test]
fn load_program_takes_an_image_that_fills_memory() {
    let mut c = Chip8::init();
    let image = vec![0x5Au8; 3584];
    assert_eq!(c.load_program(Some(&image)), Ok(()));
    assert_eq!(c.memory()[0x200], 0x5A);
    assert_eq!(c.memory()[0xFFF], 0x5A);
    assert_eq!(c.memory()[0x1FF], 0);
}

#[test]
fn load_program_takes_an_empty_image() {
    let mut c = Chip8::init();
    assert_eq!(c.load_program(Some(&[])), Ok(()));
    assert!(c.memory()[0x200..].iter().all(|byte| *byte == 0));
}

#[test]
fn load_program_refuses_an_image_that_is_too_large() {
    let mut c = Chip8::init();
    let image = vec![0x5Au8; 3585];
    assert_eq!(c.load_program(Some(&image)), Err(LoadError::TooLarge));
    assert!(c.memory()[0x200..].iter().all(|byte| *byte == 0));
}

#[test]
fn load_program_reports_an_unreadable_image() {
    let mut c = Chip8::init();
    assert_eq!(c.load_program(None), Err(LoadError::Unreadable));
    assert!(c.memory()[0x200..].iter().all(|byte| *byte == 0));
    assert_eq!(c.pc(), 0x200);
    assert_eq!(c.sp(), 16);
}

#[test]
fn jump_scenario() {
    let mut c = Chip8::init();
    assert_eq!(c.load_program(Some(&[0x12, 0x04])), Ok(()));
    assert_eq!(c.step(), Ok(()));
    assert_eq!(c.pc(), 0x204);
}

#[test]
fn skip_steps_over_a_faulty_word() {
    let mut c = Chip8::init();
    memset(&mut c, 0x190, &[0x6C0F, 0x3C0F, 0x0000, 0x00EE]);
    memset(&mut c, 0x200, &[0x2190]);
    assert_eq!(c.step(), Ok(()));
    assert_eq!(c.step(), Ok(()));
    assert_eq!(c.registers()[0xC], 0xF);
    assert_eq!(c.step(), Ok(()));
    assert_eq!(c.pc(), 0x196);
    assert_eq!(c.step(), Ok(()));
    assert_eq!(c.pc(), 0x202);
    assert_eq!(c.sp(), 16);
}

#[test]
fn load_immediate_reads_back_in_every_register() {
    for x in 0..16u16 {
        for nn in [0x00u16, 0x01, 0x7F, 0x80, 0xFF] {
            let mut c = machine_with(&[0x6000 | (x << 8) | nn]);
            c.step().unwrap();
            assert_eq!(c.registers()[x as usize], nn as u8);
            assert_eq!(c.pc(), 0x202);
            for other in 0..16 {
                if other != x as usize {
                    assert_eq!(c.registers()[other], 0);
                }
            }
        }
    }
}

#[test]
fn add_immediate_wraps_without_carry() {
    let mut c = machine_with(&[0x63FF, 0x7301]);
    run(&mut c, 2);
    assert_eq!(c.registers()[3], 0x00);
    assert_eq!(c.registers()[0xF], 0);
    assert_eq!(c.pc(), 0x204);
}

#[test]
fn add_immediate_leaves_a_set_flag_alone() {
    let mut c = machine_with(&[0x6F01, 0x63FF, 0x7302, 0x7F05]);
    run(&mut c, 3);
    assert_eq!(c.registers()[3], 0x01);
    assert_eq!(c.registers()[0xF], 1);
    run(&mut c, 1);
    assert_eq!(c.registers()[0xF], 6);
}

#[test]
fn skip_if_equal_advances_by_four_or_two() {
    let mut c = machine_with(&[0x6A42, 0x3A42]);
    run(&mut c, 2);
    assert_eq!(c.pc(), 0x202 + 4);
    let mut c = machine_with(&[0x6A42, 0x3A43]);
    run(&mut c, 2);
    assert_eq!(c.pc(), 0x202 + 2);
}

#[test]
fn skip_if_not_equal_advances_by_four_or_two() {
    let mut c = machine_with(&[0x6A42, 0x4A43]);
    run(&mut c, 2);
    assert_eq!(c.pc(), 0x206);
    let mut c = machine_with(&[0x6A42, 0x4A42]);
    run(&mut c, 2);
    assert_eq!(c.pc(), 0x204);
}

#[test]
fn skips_on_two_registers() {
    let mut c = machine_with(&[0x6107, 0x6207, 0x5120]);
    run(&mut c, 3);
    assert_eq!(c.pc(), 0x208);
    let mut c = machine_with(&[0x6107, 0x6208, 0x5120]);
    run(&mut c, 3);
    assert_eq!(c.pc(), 0x206);
    let mut c = machine_with(&[0x6107, 0x6208, 0x9120]);
    run(&mut c, 3);
    assert_eq!(c.pc(), 0x208);
    let mut c = machine_with(&[0x6107, 0x6207, 0x9120]);
    run(&mut c, 3);
    assert_eq!(c.pc(), 0x206);
}

#[test]
fn call_then_return_goes_on_behind_the_call() {
    let mut c = machine_with(&[0x2300]);
    memset(&mut c, 0x300, &[0x00EE]);
    c.step().unwrap();
    assert_eq!(c.pc(), 0x300);
    assert_eq!(c.sp(), 15);
    assert_eq!(c.stack()[15], 0x200);
    c.step().unwrap();
    assert_eq!(c.pc(), 0x202);
    assert_eq!(c.sp(), 16);
}

#[test]
fn nested_calls_return_in_turn() {
    let mut c = machine_with(&[0x2300, 0x1202]);
    memset(&mut c, 0x300, &[0x2400, 0x00EE]);
    memset(&mut c, 0x400, &[0x00EE]);
    run(&mut c, 2);
    assert_eq!(c.pc(), 0x400);
    assert_eq!(c.sp(), 14);
    assert_eq!(c.stack()[15], 0x200);
    assert_eq!(c.stack()[14], 0x300);
    c.step().unwrap();
    assert_eq!(c.pc(), 0x302);
    c.step().unwrap();
    assert_eq!(c.pc(), 0x202);
    assert_eq!(c.sp(), 16);
}

#[test]
fn the_stack_is_a_ring() {
    // a call at 0x200 that calls itself
    let mut c = machine_with(&[0x2200]);
    run(&mut c, 16);
    assert_eq!(c.sp(), 0);
    assert_eq!(c.stack(), &[0x200u16; 16]);
    c.step().unwrap();
    assert_eq!(c.sp(), 0xFFFF);
    assert_eq!(c.pc(), 0x200);
    // a return on an empty stack reads slot 0
    let mut c = machine_with(&[0x00EE]);
    c.step().unwrap();
    assert_eq!(c.pc(), 2);
    assert_eq!(c.sp(), 17);
}

#[test]
fn clear_turns_every_cell_off_and_raises_the_draw_flag() {
    let mut c = machine_with(&[0x6003, 0xF029, 0xD125, 0x00E0]);
    run(&mut c, 3);
    assert!(c.gfx().iter().any(|cell| *cell == 255));
    c.clear_draw_flag();
    assert!(!c.draw_flag());
    c.step().unwrap();
    assert!(c.gfx().iter().all(|cell| *cell == 0));
    assert!(c.draw_flag());
    assert_eq!(c.pc(), 0x208);
}

#[test]
fn drawing_twice_turns_the_pixels_back_off_and_collides() {
    let mut c = machine_with(&[0x6003, 0x6105, 0x6209, 0xF029, 0xD125, 0xD125]);
    run(&mut c, 5);
    assert_eq!(c.registers()[0xF], 0);
    assert!(c.gfx().iter().any(|cell| *cell == 255));
    c.step().unwrap();
    assert!(c.gfx().iter().all(|cell| *cell == 0));
    assert_eq!(c.registers()[0xF], 1);
}

#[test]
fn drawing_an_empty_sprite_twice_does_not_collide() {
    // the sprite at 0x300 is all zero
    let mut c = machine_with(&[0xA300, 0xD005, 0xD005]);
    run(&mut c, 3);
    assert!(c.gfx().iter().all(|cell| *cell == 0));
    assert_eq!(c.registers()[0xF], 0);
}

#[test]
fn glyph_for_every_digit_is_drawn_row_by_row() {
    for d in 0..16u16 {
        let mut c = machine_with(&[0x6000 | d, 0x610A, 0x6207, 0xF029, 0xD125]);
        run(&mut c, 5);
        assert_eq!(c.index(), 5 * d);
        for row in 0..5usize {
            let bits = chip8::font::FONTSET[5 * d as usize + row];
            for col in 0..8usize {
                let want = bits & (0x80 >> col) != 0;
                assert_eq!(lit(&c, 0x0A + col, 0x07 + row), want);
            }
        }
        let on = c.gfx().iter().filter(|cell| **cell == 255).count();
        let want: u32 = (0..5)
            .map(|row| chip8::font::FONTSET[5 * d as usize + row].count_ones())
            .sum();
        assert_eq!(on as u32, want);
        assert_eq!(c.registers()[0xF], 0);
    }
}

#[test]
fn glyph_three_looks_like_a_three() {
    let mut c = machine_with(&[0x6003, 0xF029, 0xD125]);
    run(&mut c, 3);
    let picture: Vec<String> = (0..5)
        .map(|y| {
            (0..4)
                .map(|x| if lit(&c, x, y) { '#' } else { '.' })
                .collect()
        })
        .collect();
    assert_eq!(picture, vec!["####", "...#", "####", "...#", "####"]);
}

#[test]
fn big_glyph_offset_is_ten_per_digit_behind_the_small_font() {
    let mut c = machine_with(&[0x6007, 0xF030]);
    run(&mut c, 2);
    assert_eq!(c.index(), 7 * 10 + 80);
    let mut c = machine_with(&[0x60FF, 0xF030]);
    run(&mut c, 2);
    assert_eq!(c.index(), 255 * 10 + 80);
    let mut c = machine_with(&[0x60FF, 0xF029]);
    run(&mut c, 2);
    assert_eq!(c.index(), 255 * 5);
}

#[test]
fn tick_never_takes_a_timer_below_zero() {
    let mut c = Chip8::init();
    c.tick();
    assert_eq!(c.delay_timer(), 0);
    assert_eq!(c.sound_timer(), 0);
    let mut c = machine_with(&[0x6002, 0xF015, 0x6101, 0xF118]);
    run(&mut c, 4);
    assert_eq!(c.delay_timer(), 2);
    assert_eq!(c.sound_timer(), 1);
    c.tick();
    assert_eq!(c.delay_timer(), 1);
    assert_eq!(c.sound_timer(), 0);
    c.tick();
    assert_eq!(c.delay_timer(), 0);
    assert_eq!(c.sound_timer(), 0);
    c.tick();
    assert_eq!(c.delay_timer(), 0);
    assert_eq!(c.sound_timer(), 0);
}

#[test]
fn tick_leaves_the_program_counter_alone() {
    let mut c = machine_with(&[0x60FF, 0xF015]);
    run(&mut c, 2);
    for _ in 0..10 {
        c.tick();
    }
    assert_eq!(c.delay_timer(), 245);
    assert_eq!(c.pc(), 0x204);
}

#[test]
fn delay_timer_reads_back() {
    let mut c = machine_with(&[0x6033, 0xF015, 0xF507]);
    run(&mut c, 2);
    c.tick();
    c.step().unwrap();
    assert_eq!(c.registers()[5], 0x32);
}

#[test]
fn unknown_word_is_a_fault_and_changes_nothing() {
    for word in [0x0000u16, 0x00FD, 0x5121, 0x9121, 0x8128, 0xE000, 0xF0FF] {
        let mut c = machine_with(&[0x6A42, word]);
        c.step().unwrap();
        let memory = *c.memory();
        let registers = *c.registers();
        c.clear_draw_flag();
        assert_eq!(c.step(), Err(Fault { pc: 0x202, opcode: word }));
        assert_eq!(c.pc(), 0x202);
        assert_eq!(c.sp(), 16);
        assert_eq!(c.memory(), &memory);
        assert_eq!(c.registers(), &registers);
        assert!(!c.draw_flag());
        // and it stays a fault
        assert_eq!(c.step_with(7), Err(Fault { pc: 0x202, opcode: word }));
    }
}

#[test]
fn jump_and_jump_with_offset() {
    let mut c = machine_with(&[0x1ABC]);
    c.step().unwrap();
    assert_eq!(c.pc(), 0xABC);
    let mut c = machine_with(&[0x60FF, 0xBFFF]);
    run(&mut c, 2);
    assert_eq!(c.pc(), 0xFFF + 0xFF);
    let mut c = machine_with(&[0x6010, 0xB300]);
    run(&mut c, 2);
    assert_eq!(c.pc(), 0x310);
}

#[test]
fn register_copy_and_bitwise_operations() {
    let mut c = machine_with(&[0x61CC, 0x62AA, 0x8320, 0x8411, 0x8421, 0x8511, 0x8522, 0x8611, 0x8623]);
    run(&mut c, 9);
    assert_eq!(c.registers()[3], 0xAA);
    assert_eq!(c.registers()[4], 0xCC | 0xAA);
    assert_eq!(c.registers()[5], 0xCC & 0xAA);
    assert_eq!(c.registers()[6], 0xCC ^ 0xAA);
    assert_eq!(c.registers()[0xF], 0);
    assert_eq!(c.pc(), 0x212);
}

#[test]
fn add_registers_sets_the_flag_on_carry() {
    let mut c = machine_with(&[0x61F0, 0x6220, 0x8124]);
    run(&mut c, 3);
    assert_eq!(c.registers()[1], 0x10);
    assert_eq!(c.registers()[0xF], 1);
    let mut c = machine_with(&[0x61F0, 0x620F, 0x8124]);
    run(&mut c, 3);
    assert_eq!(c.registers()[1], 0xFF);
    assert_eq!(c.registers()[0xF], 0);
}

#[test]
fn subtract_sets_the_flag_when_there_is_no_borrow() {
    let mut c = machine_with(&[0x6110, 0x6201, 0x8125]);
    run(&mut c, 3);
    assert_eq!(c.registers()[1], 0x0F);
    assert_eq!(c.registers()[0xF], 1);
    let mut c = machine_with(&[0x6101, 0x6210, 0x8125]);
    run(&mut c, 3);
    assert_eq!(c.registers()[1], 0xF1);
    assert_eq!(c.registers()[0xF], 0);
    let mut c = machine_with(&[0x6107, 0x6207, 0x8125]);
    run(&mut c, 3);
    assert_eq!(c.registers()[1], 0);
    assert_eq!(c.registers()[0xF], 1);
}

#[test]
fn reverse_subtract_sets_the_flag_when_there_is_no_borrow() {
    let mut c = machine_with(&[0x6101, 0x6210, 0x8127]);
    run(&mut c, 3);
    assert_eq!(c.registers()[1], 0x0F);
    assert_eq!(c.registers()[2], 0x10);
    assert_eq!(c.registers()[0xF], 1);
    let mut c = machine_with(&[0x6110, 0x6201, 0x8127]);
    run(&mut c, 3);
    assert_eq!(c.registers()[1], 0xF1);
    assert_eq!(c.registers()[0xF], 0);
}

#[test]
fn shifts_put_the_bit_shifted_out_in_the_flag() {
    let mut c = machine_with(&[0x6105, 0x8106]);
    run(&mut c, 2);
    assert_eq!(c.registers()[1], 0x02);
    assert_eq!(c.registers()[0xF], 1);
    let mut c = machine_with(&[0x61FE, 0x8106]);
    run(&mut c, 2);
    assert_eq!(c.registers()[1], 0x7F);
    assert_eq!(c.registers()[0xF], 0);
    let mut c = machine_with(&[0x6181, 0x810E]);
    run(&mut c, 2);
    assert_eq!(c.registers()[1], 0x02);
    assert_eq!(c.registers()[0xF], 1);
    let mut c = machine_with(&[0x617F, 0x810E]);
    run(&mut c, 2);
    assert_eq!(c.registers()[1], 0xFE);
    assert_eq!(c.registers()[0xF], 0);
}

#[test]
fn arithmetic_on_the_flag_register_itself() {
    // the sum goes in first, the carry over it
    let mut c = machine_with(&[0x6FF0, 0x6120, 0x8F14]);
    run(&mut c, 3);
    assert_eq!(c.registers()[0xF], 1);
    // the flag goes in first, then it is shifted
    let mut c = machine_with(&[0x6F03, 0x8F06]);
    run(&mut c, 2);
    assert_eq!(c.registers()[0xF], 0);
    let mut c = machine_with(&[0x6F81, 0x8F0E]);
    run(&mut c, 2);
    assert_eq!(c.registers()[0xF], 2);
}

#[test]
fn load_index_and_add_to_index() {
    let mut c = machine_with(&[0xA123, 0x6110, 0xF11E]);
    run(&mut c, 3);
    assert_eq!(c.index(), 0x133);
    assert_eq!(c.registers()[0xF], 0);
    assert_eq!(c.pc(), 0x206);
}

#[test]
fn add_to_index_sets_the_flag_on_overflow() {
    // reach 0xFFFF in the index register: 255 * 10 + 80 = 2630, then add up
    let mut program = vec![0x60FFu16, 0xF030];
    let mut index: u32 = 2630;
    while index + 255 <= 0xFFFF {
        program.push(0xF01E);
        index += 255;
    }
    let rest = 0xFFFF - index;
    program.push(0x6100 | rest as u16);
    program.push(0xF11E);
    program.push(0x6202);
    program.push(0xF21E);
    let mut c = machine_with(&program);
    run(&mut c, program.len() - 2);
    assert_eq!(c.index(), 0xFFFF);
    assert_eq!(c.registers()[0xF], 0);
    run(&mut c, 2);
    assert_eq!(c.index(), 1);
    assert_eq!(c.registers()[0xF], 1);
}

#[test]
fn random_masks_the_byte_it_is_handed() {
    let mut c = machine_with(&[0xC30F]);
    assert!(c.wants_random());
    assert_eq!(c.step_with(0xA5), Ok(()));
    assert_eq!(c.registers()[3], 0x05);
    assert_eq!(c.pc(), 0x202);
    let mut c = machine_with(&[0xC3F0]);
    assert_eq!(c.step_with(0xA5), Ok(()));
    assert_eq!(c.registers()[3], 0xA0);
    let mut c = machine_with(&[0xC3FF]);
    assert_eq!(c.step_with(0xA5), Ok(()));
    assert_eq!(c.registers()[3], 0xA5);
}

#[test]
fn random_stays_under_its_mask() {
    let mut seen = [false; 256];
    for _ in 0..2000 {
        let mut c = machine_with(&[0xC33C]);
        c.step().unwrap();
        let v = c.registers()[3];
        assert_eq!(v & !0x3C, 0);
        assert_eq!(c.pc(), 0x202);
        seen[v as usize] = true;
    }
    // sixteen values fit under the mask; a working generator finds several
    assert!(seen.iter().filter(|s| **s).count() > 1);
    let mut c = machine_with(&[0xC300]);
    c.step().unwrap();
    assert_eq!(c.registers()[3], 0);
}

#[test]
fn other_instructions_do_not_ask_for_a_random_byte() {
    let c = machine_with(&[0x6C0F]);
    assert!(!c.wants_random());
    let c = machine_with(&[0x0000]);
    assert!(!c.wants_random());
    let mut a = machine_with(&[0x6C0F]);
    let mut b = machine_with(&[0x6C0F]);
    a.step_with(0x00).unwrap();
    b.step_with(0xFF).unwrap();
    assert_eq!(a.registers(), b.registers());
    assert_eq!(a.pc(), b.pc());
}

#[test]
fn key_skips_look_at_the_key_named_by_the_register() {
    let mut c = machine_with(&[0x6105, 0xE19E]);
    c.update_keys(5, true);
    run(&mut c, 2);
    assert_eq!(c.pc(), 0x206);
    let mut c = machine_with(&[0x6105, 0xE19E]);
    c.update_keys(4, true);
    run(&mut c, 2);
    assert_eq!(c.pc(), 0x204);
    let mut c = machine_with(&[0x6105, 0xE1A1]);
    run(&mut c, 2);
    assert_eq!(c.pc(), 0x206);
    let mut c = machine_with(&[0x6105, 0xE1A1]);
    c.update_keys(5, true);
    run(&mut c, 2);
    assert_eq!(c.pc(), 0x204);
}

#[test]
fn key_skips_use_the_low_four_bits_of_the_register() {
    let mut c = machine_with(&[0x61F5, 0xE19E]);
    c.update_keys(5, true);
    run(&mut c, 2);
    assert_eq!(c.pc(), 0x206);
}

#[test]
fn update_keys_sets_and_clears_one_key() {
    let mut c = Chip8::init();
    c.update_keys(0, true);
    c.update_keys(15, true);
    let mut want = [false; 16];
    want[0] = true;
    want[15] = true;
    assert_eq!(c.keys(), &want);
    c.update_keys(0, false);
    want[0] = false;
    assert_eq!(c.keys(), &want);
}

#[test]
fn wait_for_key_runs_again_until_a_key_is_down() {
    let mut c = machine_with(&[0xF30A]);
    for _ in 0..5 {
        c.step().unwrap();
        assert_eq!(c.pc(), 0x200);
        assert_eq!(c.registers()[3], 0);
    }
    c.update_keys(0xB, true);
    c.step().unwrap();
    assert_eq!(c.pc(), 0x202);
    assert_eq!(c.registers()[3], 0xB);
}

#[test]
fn wait_for_key_with_several_keys_down() {
    let mut c = machine_with(&[0xF30A]);
    c.update_keys(2, true);
    c.update_keys(9, true);
    c.update_keys(4, true);
    c.step().unwrap();
    assert_eq!(c.registers()[3], 9);
    assert_eq!(c.pc(), 0x200 + 2 * 3);
}

#[test]
fn bcd_stores_hundreds_tens_and_ones() {
    let mut c = machine_with(&[0x61FE, 0xA300, 0xF133]);
    run(&mut c, 3);
    assert_eq!(&c.memory()[0x300..0x303], &[2, 5, 4]);
    assert_eq!(c.index(), 0x300);
    let mut c = machine_with(&[0x6107, 0xA300, 0xF133]);
    run(&mut c, 3);
    assert_eq!(&c.memory()[0x300..0x303], &[0, 0, 7]);
    let mut c = machine_with(&[0x6164, 0xA300, 0xF133]);
    run(&mut c, 3);
    assert_eq!(&c.memory()[0x300..0x303], &[1, 0, 0]);
}

#[test]
fn store_and_load_registers_leave_the_index_alone() {
    let mut c = machine_with(&[0x6011, 0x6122, 0x6233, 0x6344, 0xA300, 0xF255]);
    run(&mut c, 6);
    assert_eq!(&c.memory()[0x300..0x304], &[0x11, 0x22, 0x33, 0]);
    assert_eq!(c.index(), 0x300);
    let mut c = machine_with(&[0xA000, 0xF365, 0x00FF, 0xF365]);
    run(&mut c, 2);
    assert_eq!(&c.registers()[0..5], &[0xF0, 0x90, 0x90, 0x90, 0]);
    assert_eq!(c.index(), 0);
    // the same in extended mode
    run(&mut c, 2);
    assert_eq!(c.index(), 0);
}

#[test]
fn store_of_all_registers_reaches_the_flag_register() {
    let mut program: Vec<u16> = (0..16u16).map(|x| 0x6000 | (x << 8) | (0xA0 + x)).collect();
    program.push(0xA400);
    program.push(0xFF55);
    let mut c = machine_with(&program);
    run(&mut c, program.len());
    let want: Vec<u8> = (0..16u8).map(|x| 0xA0 + x).collect();
    assert_eq!(&c.memory()[0x400..0x410], &want[..]);
    assert_eq!(c.memory()[0x410], 0);
}

#[test]
fn memory_addresses_wrap_round() {
    let mut c = machine_with(&[0x6011, 0x6122, 0x6233, 0xAFFE, 0xF255]);
    run(&mut c, 5);
    assert_eq!(c.memory()[0xFFE], 0x11);
    assert_eq!(c.memory()[0xFFF], 0x22);
    assert_eq!(c.memory()[0x000], 0x33);
    let mut c = machine_with(&[0xAFFF, 0xF165]);
    c.write_memory(0xFFF, 0x77);
    run(&mut c, 2);
    assert_eq!(c.registers()[0], 0x77);
    assert_eq!(c.registers()[1], 0xF0);
    let mut c = machine_with(&[0x61FE, 0xAFFF, 0xF133]);
    run(&mut c, 3);
    assert_eq!(c.memory()[0xFFF], 2);
    assert_eq!(c.memory()[0x000], 5);
    assert_eq!(c.memory()[0x001], 4);
}

#[test]
fn write_memory_wraps_round() {
    let mut c = Chip8::init();
    c.write_memory(0x1234, 0x99);
    assert_eq!(c.memory()[0x234], 0x99);
    c.write_memory(0xFFFF, 0x98);
    assert_eq!(c.memory()[0xFFF], 0x98);
}

#[test]
fn the_program_counter_wraps_round_memory() {
    let mut c = machine_with(&[0x1FFF]);
    c.write_memory(0xFFF, 0x6A);
    c.write_memory(0x000, 0x42);
    run(&mut c, 2);
    assert_eq!(c.registers()[0xA], 0x42);
    assert_eq!(c.pc(), 0x1001);
    // 0x1001 names the bytes at 0x001 and 0x002
    c.write_memory(0x001, 0x6B);
    c.write_memory(0x002, 0x43);
    c.step().unwrap();
    assert_eq!(c.registers()[0xB], 0x43);
    assert_eq!(c.pc(), 0x1003);
}

#[test]
fn user_flags_hold_eight_registers() {
    let mut program: Vec<u16> = (0..10u16).map(|x| 0x6000 | (x << 8) | (0x10 + x)).collect();
    program.push(0xF975);
    let mut c = machine_with(&program);
    run(&mut c, program.len());
    assert_eq!(c.user_flags(), &[0x10, 0x11, 0x12, 0x13, 0x14, 0x15, 0x16, 0x17]);
    assert_eq!(c.pc(), 0x200 + 2 * program.len() as u16);
    // clear the registers and load them back
    let clear: Vec<u16> = (0..10u16).map(|x| 0x6000 | (x << 8)).collect();
    memset(&mut c, 0x200 + 2 * program.len(), &clear);
    memset(&mut c, 0x200 + 2 * (program.len() + clear.len()), &[0xF985]);
    run(&mut c, clear.len() + 1);
    assert_eq!(
        &c.registers()[0..10],
        &[0x10, 0x11, 0x12, 0x13, 0x14, 0x15, 0x16, 0x17, 0, 0]
    );
}

#[test]
fn user_flags_store_a_part() {
    let mut c = machine_with(&[0x6011, 0x6122, 0x6233, 0xF175]);
    run(&mut c, 4);
    assert_eq!(c.user_flags(), &[0x11, 0x22, 0, 0, 0, 0, 0, 0]);
}

#[test]
fn resolution_switches() {
    let mut c = machine_with(&[0x00FF, 0x00FE]);
    c.step().unwrap();
    assert!(c.extended_mode());
    assert_eq!(c.screen_dimens(), (128, 64));
    assert_eq!(c.pc(), 0x202);
    c.step().unwrap();
    assert!(!c.extended_mode());
    assert_eq!(c.screen_dimens(), (64, 32));
}

#[test]
fn sprites_wrap_round_the_screen() {
    // one row of eight pixels at column 60, row 31
    let mut c = machine_with(&[0x613C, 0x621F, 0xA300, 0xD122]);
    c.write_memory(0x300, 0xFF);
    c.write_memory(0x301, 0x81);
    run(&mut c, 4);
    for x in [60, 61, 62, 63, 0, 1, 2, 3] {
        assert!(lit(&c, x, 31));
    }
    assert!(!lit(&c, 4, 31));
    assert!(!lit(&c, 59, 31));
    assert!(lit(&c, 60, 0));
    assert!(lit(&c, 3, 0));
    assert!(!lit(&c, 61, 0));
    assert_eq!(c.gfx().iter().filter(|cell| **cell == 255).count(), 10);
}

#[test]
fn sprite_position_wraps_before_drawing() {
    // column 64 + 3 and row 32 + 2 name column 3, row 2
    let mut c = machine_with(&[0x6143, 0x6222, 0xA300, 0xD121]);
    c.write_memory(0x300, 0x80);
    run(&mut c, 4);
    assert!(lit(&c, 3, 2));
    assert_eq!(c.gfx().iter().filter(|cell| **cell == 255).count(), 1);
}

#[test]
fn row_count_zero_draws_sixteen_rows() {
    let mut c = machine_with(&[0xA300, 0xD010]);
    for row in 0..16u16 {
        c.write_memory(0x300 + row, 0x80);
    }
    c.write_memory(0x310, 0x80);
    run(&mut c, 2);
    for y in 0..16 {
        assert!(lit(&c, 0, y));
    }
    assert!(!lit(&c, 0, 16));
    assert_eq!(c.gfx().iter().filter(|cell| **cell == 255).count(), 16);
}

#[test]
fn row_count_zero_in_extended_mode_draws_sixteen_by_sixteen() {
    let mut c = machine_with(&[0x00FF, 0x6178, 0x6205, 0xA300, 0xD120]);
    for row in 0..16u16 {
        c.write_memory(0x300 + 2 * row, 0x80);
        c.write_memory(0x300 + 2 * row + 1, 0x01);
    }
    run(&mut c, 5);
    for y in 5..21 {
        assert!(lit(&c, 120, y));
        // column 120 + 15 wraps to column 7
        assert!(lit(&c, 7, y));
        assert!(!lit(&c, 121, y));
    }
    assert_eq!(c.gfx().iter().filter(|cell| **cell == 255).count(), 32);
    assert_eq!(c.registers()[0xF], 0);
}

#[test]
fn extended_mode_draws_narrow_sprites_on_the_wide_screen() {
    let mut c = machine_with(&[0x00FF, 0x6164, 0x6228, 0xA300, 0xD121]);
    c.write_memory(0x300, 0xC0);
    run(&mut c, 5);
    assert_eq!(c.gfx()[100 + 40 * 128], 255);
    assert_eq!(c.gfx()[101 + 40 * 128], 255);
    assert_eq!(c.gfx().iter().filter(|cell| **cell == 255).count(), 2);
}

#[test]
fn partial_overlap_collides_and_toggles() {
    let mut c = machine_with(&[0xA300, 0xD001, 0xA301, 0xD001]);
    c.write_memory(0x300, 0xF0);
    c.write_memory(0x301, 0x3C);
    run(&mut c, 2);
    assert_eq!(c.registers()[0xF], 0);
    run(&mut c, 2);
    assert_eq!(c.registers()[0xF], 1);
    let row: Vec<bool> = (0..8).map(|x| lit(&c, x, 0)).collect();
    assert_eq!(row, vec![true, true, false, false, true, true, false, false]);
}

#[test]
fn draw_always_raises_the_flag_without_no_overdraw() {
    let mut c = machine_with(&[0xA300, 0xD001, 0xD001, 0xA302, 0xD001]);
    c.write_memory(0x300, 0xF0);
    c.clear_draw_flag();
    run(&mut c, 2);
    assert!(c.draw_flag());
    c.clear_draw_flag();
    c.step().unwrap();
    assert!(c.draw_flag());
    // an empty sprite too
    c.clear_draw_flag();
    run(&mut c, 2);
    assert!(c.draw_flag());
}

#[test]
fn no_overdraw_holds_the_flag_back_unless_a_pixel_goes_dark() {
    let mut c = machine_with(&[0xA300, 0xD001, 0xD001]);
    c.write_memory(0x300, 0xF0);
    c.set_no_overdraw(true);
    assert!(c.no_overdraw());
    c.clear_draw_flag();
    run(&mut c, 2);
    // only dark pixels were lit
    assert!(!c.draw_flag());
    c.step().unwrap();
    // lit pixels went dark
    assert!(c.draw_flag());
}

#[test]
fn no_overdraw_keeps_a_flag_that_is_already_up() {
    let mut c = machine_with(&[0xA300, 0xD001]);
    c.write_memory(0x300, 0xF0);
    c.set_no_overdraw(true);
    assert!(c.draw_flag());
    run(&mut c, 2);
    assert!(c.draw_flag());
}

#[test]
fn scroll_down_moves_rows_and_blanks_the_top() {
    let mut c = machine_with(&[0xA300, 0xD001, 0x00C3]);
    c.write_memory(0x300, 0xA0);
    run(&mut c, 2);
    c.clear_draw_flag();
    c.step().unwrap();
    assert!(c.draw_flag());
    assert!(lit(&c, 0, 3));
    assert!(lit(&c, 2, 3));
    assert_eq!(c.gfx().iter().filter(|cell| **cell == 255).count(), 2);
    assert_eq!(c.pc(), 0x206);
}

#[test]
fn scroll_down_by_zero_rows_changes_no_cell() {
    let mut c = machine_with(&[0xA300, 0xD001, 0x00C0]);
    c.write_memory(0x300, 0xA0);
    run(&mut c, 2);
    let before = *c.gfx();
    c.step().unwrap();
    assert_eq!(c.gfx(), &before);
}

#[test]
fn scroll_down_moves_the_bottom_row_past_the_screen() {
    let mut c = machine_with(&[0x621F, 0xA300, 0xD121, 0x00C1]);
    c.write_memory(0x300, 0x80);
    run(&mut c, 4);
    assert_eq!(c.gfx()[32 * 64], 255);
    assert_eq!(c.gfx().iter().filter(|cell| **cell == 255).count(), 1);
}

#[test]
fn scroll_right_moves_two_pixels_in_standard_mode() {
    let mut c = machine_with(&[0x613D, 0xA300, 0xD121, 0x00FB]);
    c.write_memory(0x300, 0xE0);
    run(&mut c, 3);
    // columns 61, 62, 63 of row 0 are lit
    c.clear_draw_flag();
    c.step().unwrap();
    assert!(c.draw_flag());
    assert!(lit(&c, 63, 0));
    assert!(!lit(&c, 62, 0));
    assert!(!lit(&c, 0, 0));
    assert!(!lit(&c, 0, 1));
    assert!(!lit(&c, 1, 1));
    assert_eq!(c.gfx().iter().filter(|cell| **cell == 255).count(), 1);
}

#[test]
fn scroll_left_moves_two_pixels_in_standard_mode() {
    let mut c = machine_with(&[0x6101, 0x6205, 0xA300, 0xD121, 0x00FC]);
    c.write_memory(0x300, 0xE0);
    run(&mut c, 4);
    // columns 1, 2, 3 of row 5 are lit
    c.step().unwrap();
    assert!(lit(&c, 0, 5));
    assert!(lit(&c, 1, 5));
    assert!(!lit(&c, 2, 5));
    assert!(!lit(&c, 63, 4));
    assert_eq!(c.gfx().iter().filter(|cell| **cell == 255).count(), 2);
}

#[test]
fn sideways_scrolls_move_four_pixels_in_extended_mode() {
    let mut c = machine_with(&[0x00FF, 0x6108, 0xA300, 0xD121, 0x00FB, 0x00FC, 0x00FC]);
    c.write_memory(0x300, 0x80);
    run(&mut c, 4);
    assert_eq!(c.gfx()[8], 255);
    c.step().unwrap();
    assert_eq!(c.gfx()[12], 255);
    assert_eq!(c.gfx()[8], 0);
    run(&mut c, 2);
    assert_eq!(c.gfx()[4], 255);
    assert_eq!(c.gfx().iter().filter(|cell| **cell == 255).count(), 1);
}

#[test]
fn sideways_scrolls_leave_cells_past_the_screen_alone() {
    let mut c = machine_with(&[0x00FF, 0x6220, 0xA300, 0xD121, 0x00FE, 0x00FB, 0x00FC]);
    c.write_memory(0x300, 0x80);
    run(&mut c, 5);
    // row 32 of the wide screen lies past the standard screen
    assert_eq!(c.gfx()[32 * 128], 255);
    run(&mut c, 2);
    assert_eq!(c.gfx()[32 * 128], 255);
    assert_eq!(c.gfx().iter().filter(|cell| **cell == 255).count(), 1);
}

#[test]
fn every_cell_is_off_or_on_after_a_busy_program() {
    let mut c = machine_with(&[
        0x6003, 0x6105, 0x6209, 0xF029, 0xD125, 0xD015, 0x00C2, 0x00FB, 0xD125, 0x00FC, 0x00FF,
        0xD120, 0x00C5, 0xD125, 0x00FB,
    ]);
    run(&mut c, 15);
    assert!(c.gfx().iter().all(|cell| *cell == 0 || *cell == 255));
    assert!(c.gfx().iter().any(|cell| *cell == 255));
}

#[test]
fn fetch_reads_the_word_at_the_program_counter() {
    let c = machine_with(&[0xD125]);
    assert_eq!(c.fetch(), 0xD125);
    let c = Chip8::init();
    assert_eq!(c.fetch(), 0x0000);
}

#[test]
fn a_tone_is_due_while_the_sound_timer_runs() {
    let mut c = machine_with(&[0x6002, 0xF018]);
    assert!(!c.sound_active());
    run(&mut c, 2);
    assert_eq!(c.sound_timer(), 2);
    assert!(c.sound_active());
    c.tick();
    assert!(c.sound_active());
    c.tick();
    assert!(!c.sound_active());
}
