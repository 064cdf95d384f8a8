use chip_eight::{new_em, Em, Fault, Opcode, PC_START};

/// A machine with `program` loaded at the start address.
fn machine(program: &[u8]) -> Em {
    let mut em = new_em();
    assert_eq!(em.load_cart(program), Ok(()));
    em
}

/// Runs `count` cycles, none of which may fault.
fn run(em: &mut Em, count: usize) {
    for _ in 0..count {
        assert_eq!(em.pending_fault(), None);
        em.cycle_with(0);
    }
}

#[test]
fn load_register_advances_by_two() {
    let mut em = machine(&[0x63, 0x12]);
    let word = em.cycle_with(0);
    assert_eq!(word, 0x6312);
    assert_eq!(em.register(3), 0x12);
    assert_eq!(em.pc(), 0x202);
}

#[test]
fn straight_line_opcodes_advance_by_two() {
    let programs: [[u8; 2]; 16] = [
        [0x00, 0x00],
        [0x00, 0xE0],
        [0x61, 0x07],
        [0x71, 0x07],
        [0x81, 0x20],
        [0x81, 0x21],
        [0x81, 0x22],
        [0x81, 0x23],
        [0x81, 0x24],
        [0x81, 0x25],
        [0x81, 0x26],
        [0x81, 0x27],
        [0x81, 0x2E],
        [0xA1, 0x23],
        [0xC1, 0xFF],
        [0xF0, 0x07],
    ];
    for program in programs.iter() {
        let mut em = machine(program);
        assert_eq!(em.pending_fault(), None);
        em.cycle();
        assert_eq!(em.pc(), 0x202);
    }
}

#[test]
fn skip_if_equal_immediate() {
    let mut taken = machine(&[0x60, 0x2A, 0x30, 0x2A]);
    run(&mut taken, 2);
    assert_eq!(taken.pc(), 0x206);
    let mut not_taken = machine(&[0x60, 0x2A, 0x30, 0x2B]);
    run(&mut not_taken, 2);
    assert_eq!(not_taken.pc(), 0x204);
}

#[test]
fn skip_if_not_equal_immediate() {
    let mut taken = machine(&[0x60, 0x2A, 0x40, 0x2B]);
    run(&mut taken, 2);
    assert_eq!(taken.pc(), 0x206);
    let mut not_taken = machine(&[0x60, 0x2A, 0x40, 0x2A]);
    run(&mut not_taken, 2);
    assert_eq!(not_taken.pc(), 0x204);
}

#[test]
fn skip_if_registers_equal() {
    let mut taken = machine(&[0x60, 0x05, 0x61, 0x05, 0x50, 0x10]);
    run(&mut taken, 3);
    assert_eq!(taken.pc(), 0x208);
    let mut not_taken = machine(&[0x60, 0x05, 0x61, 0x06, 0x50, 0x10]);
    run(&mut not_taken, 3);
    assert_eq!(not_taken.pc(), 0x206);
}

#[test]
fn skip_if_registers_differ() {
    let mut taken = machine(&[0x60, 0x05, 0x61, 0x06, 0x90, 0x10]);
    run(&mut taken, 3);
    assert_eq!(taken.pc(), 0x208);
    let mut not_taken = machine(&[0x60, 0x05, 0x61, 0x05, 0x90, 0x10]);
    run(&mut not_taken, 3);
    assert_eq!(not_taken.pc(), 0x206);
}

#[test]
fn skip_if_registers_equal_ignores_the_last_nibble() {
    let mut equal = machine(&[0x50, 0x17]);
    run(&mut equal, 1);
    assert_eq!(equal.pc(), 0x204);
    let mut differ = machine(&[0x61, 0x01, 0x50, 0x17]);
    run(&mut differ, 2);
    assert_eq!(differ.pc(), 0x204);
}

#[test]
fn skip_if_registers_differ_needs_a_zero_last_nibble() {
    let mut differ = machine(&[0x61, 0x01, 0x90, 0x17]);
    run(&mut differ, 2);
    assert_eq!(differ.pc(), 0x204);
    let mut equal = machine(&[0x90, 0x17]);
    run(&mut equal, 1);
    assert_eq!(equal.pc(), 0x202);
    for last in 1..16u8 {
        let mut em = machine(&[0x61, 0x01, 0x90, 0x10 | last]);
        run(&mut em, 2);
        assert_eq!(em.pc(), 0x204);
        assert_eq!(em.register(0), 0);
        assert_eq!(em.register(1), 1);
        assert!(!em.finished());
    }
}

#[test]
fn call_then_return_resumes_behind_the_call() {
    // 0x200: call 0x206; 0x206: return
    let mut em = machine(&[0x22, 0x06, 0x00, 0x00, 0x00, 0x00, 0x00, 0xEE]);
    let sp_before = em.sp();
    assert_eq!(em.cycle_with(0), 0x2206);
    assert_eq!(em.pc(), 0x206);
    assert_eq!(em.sp(), sp_before + 1);
    assert_eq!(em.pending_fault(), None);
    assert_eq!(em.cycle_with(0), 0x00EE);
    assert_eq!(em.pc(), 0x202);
    assert_eq!(em.sp(), sp_before);
}

#[test]
fn jump_sets_the_program_counter() {
    let mut em = machine(&[0x1A, 0xBC]);
    run(&mut em, 1);
    assert_eq!(em.pc(), 0xABC);
}

#[test]
fn jump_with_offset_adds_register_zero() {
    let mut em = machine(&[0x60, 0x10, 0xB3, 0x00]);
    run(&mut em, 2);
    assert_eq!(em.pc(), 0x310);
}

#[test]
fn add_sets_carry_on_overflow() {
    let mut em = machine(&[0x60, 0xFF, 0x61, 0x01, 0x80, 0x14]);
    run(&mut em, 3);
    assert_eq!(em.register(0), 0x00);
    assert_eq!(em.register(0xF), 1);
}

#[test]
fn add_clears_carry_without_overflow() {
    let mut em = machine(&[0x6F, 0x01, 0x60, 0x01, 0x61, 0x01, 0x80, 0x14]);
    run(&mut em, 4);
    assert_eq!(em.register(0), 0x02);
    assert_eq!(em.register(0xF), 0);
}

#[test]
fn add_keeps_the_low_byte() {
    let mut em = machine(&[0x60, 0xF0, 0x61, 0x25, 0x80, 0x14]);
    run(&mut em, 3);
    assert_eq!(em.register(0), 0x15);
    assert_eq!(em.register(1), 0x25);
    assert_eq!(em.register(0xF), 1);
}

#[test]
fn add_into_the_flag_register_leaves_the_carry() {
    let mut em = machine(&[0x6F, 0xFF, 0x61, 0x03, 0x8F, 0x14]);
    run(&mut em, 3);
    assert_eq!(em.register(0xF), 1);
    let mut small = machine(&[0x6F, 0x02, 0x61, 0x03, 0x8F, 0x14]);
    run(&mut small, 3);
    assert_eq!(small.register(0xF), 0);
}

#[test]
fn sub_without_borrow_sets_the_flag() {
    let mut em = machine(&[0x60, 0x05, 0x61, 0x03, 0x80, 0x15]);
    run(&mut em, 3);
    assert_eq!(em.register(0), 0x02);
    assert_eq!(em.register(0xF), 1);
}

#[test]
fn sub_with_borrow_clears_the_flag() {
    let mut em = machine(&[0x6F, 0x01, 0x60, 0x02, 0x61, 0x05, 0x80, 0x15]);
    run(&mut em, 4);
    assert_eq!(em.register(0), 0xFD);
    assert_eq!(em.register(0xF), 0);
}

#[test]
fn sub_of_equal_values_borrows_nothing() {
    let mut em = machine(&[0x60, 0x07, 0x61, 0x07, 0x80, 0x15]);
    run(&mut em, 3);
    assert_eq!(em.register(0), 0x00);
    assert_eq!(em.register(0xF), 1);
}

#[test]
fn reverse_sub_subtracts_x_from_y() {
    let mut em = machine(&[0x60, 0x03, 0x61, 0x05, 0x80, 0x17]);
    run(&mut em, 3);
    assert_eq!(em.register(0), 0x02);
    assert_eq!(em.register(0xF), 1);
    let mut borrow = machine(&[0x60, 0x05, 0x61, 0x03, 0x80, 0x17]);
    run(&mut borrow, 3);
    assert_eq!(borrow.register(0), 0xFE);
    assert_eq!(borrow.register(0xF), 0);
}

#[test]
fn shift_right_moves_the_low_bit_to_the_flag() {
    let mut em = machine(&[0x61, 0x05, 0x80, 0x16]);
    run(&mut em, 2);
    assert_eq!(em.register(0), 0x02);
    assert_eq!(em.register(1), 0x05);
    assert_eq!(em.register(0xF), 1);
    let mut even = machine(&[0x6F, 0x01, 0x61, 0x04, 0x80, 0x16]);
    run(&mut even, 3);
    assert_eq!(even.register(0), 0x02);
    assert_eq!(even.register(0xF), 0);
}

#[test]
fn shift_right_of_the_flag_register_reads_the_new_flag() {
    let mut em = machine(&[0x6F, 0x07, 0x80, 0xF6]);
    run(&mut em, 2);
    assert_eq!(em.register(0xF), 1);
    assert_eq!(em.register(0), 0);
}

#[test]
fn shift_left_moves_the_high_bit_to_the_flag() {
    let mut em = machine(&[0x61, 0x81, 0x80, 0x1E]);
    run(&mut em, 2);
    assert_eq!(em.register(0), 0x02);
    assert_eq!(em.register(0xF), 1);
    let mut low = machine(&[0x6F, 0x01, 0x61, 0x41, 0x80, 0x1E]);
    run(&mut low, 3);
    assert_eq!(low.register(0), 0x82);
    assert_eq!(low.register(0xF), 0);
}

#[test]
fn add_immediate_adds_the_operand_and_wraps() {
    let mut em = machine(&[0x60, 0x10, 0x70, 0x05]);
    run(&mut em, 2);
    assert_eq!(em.register(0), 0x15);
    let mut wrap = machine(&[0x6F, 0x09, 0x60, 0xFF, 0x70, 0x02]);
    run(&mut wrap, 3);
    assert_eq!(wrap.register(0), 0x01);
    assert_eq!(wrap.register(0xF), 0x09);
}

#[test]
fn move_or_and_xor() {
    let mut mov = machine(&[0x61, 0x3C, 0x80, 0x10]);
    run(&mut mov, 2);
    assert_eq!(mov.register(0), 0x3C);
    let mut or = machine(&[0x60, 0xF0, 0x61, 0x3C, 0x80, 0x11]);
    run(&mut or, 3);
    assert_eq!(or.register(0), 0xFC);
    let mut and = machine(&[0x60, 0xF0, 0x61, 0x3C, 0x80, 0x12]);
    run(&mut and, 3);
    assert_eq!(and.register(0), 0x30);
    let mut xor = machine(&[0x60, 0xF0, 0x61, 0x3C, 0x80, 0x13]);
    run(&mut xor, 3);
    assert_eq!(xor.register(0), 0xCC);
}

#[test]
fn load_index_register() {
    let mut em = machine(&[0xA1, 0x23]);
    run(&mut em, 1);
    assert_eq!(em.index_register(), 0x123);
    assert_eq!(em.pc(), 0x202);
}

#[test]
fn random_byte_is_masked() {
    let mut em = machine(&[0xC2, 0x0F]);
    em.cycle_with(0xA7);
    assert_eq!(em.register(2), 0x07);
    assert_eq!(em.pc(), 0x202);
    let mut all = machine(&[0xC2, 0xFF]);
    all.cycle_with(0xA7);
    assert_eq!(all.register(2), 0xA7);
}

#[test]
fn random_with_zero_mask_is_zero() {
    for byte in 0..=255u8 {
        let mut em = machine(&[0x62, 0x55, 0xC2, 0x00]);
        em.cycle_with(byte);
        em.cycle_with(byte);
        assert_eq!(em.register(2), 0);
    }
    for _ in 0..64 {
        let mut em = machine(&[0x62, 0x55, 0xC2, 0x00]);
        em.cycle();
        em.cycle();
        assert_eq!(em.register(2), 0);
    }
}

#[test]
fn drawn_random_byte_stays_under_the_mask() {
    for _ in 0..256 {
        let mut em = machine(&[0xC5, 0x0F]);
        assert_eq!(em.cycle(), 0xC50F);
        assert!(em.register(5) <= 0x0F);
        assert_eq!(em.pc(), 0x202);
    }
}

#[test]
fn drawn_random_bytes_vary() {
    let mut seen = [false; 256];
    for _ in 0..4096 {
        let mut em = machine(&[0xC0, 0xFF]);
        em.cycle();
        seen[em.register(0) as usize] = true;
    }
    assert!(seen.iter().filter(|hit| **hit).count() > 1);
}

#[test]
fn unknown_word_is_stepped_over() {
    let mut em = machine(&[0xE0, 0x00]);
    assert_eq!(em.pending_fault(), None);
    assert_eq!(em.cycle(), 0xE000);
    assert!(!em.finished());
    assert_eq!(em.pc(), 0x202);
}

#[test]
fn unlisted_words_of_known_families_are_stepped_over() {
    for program in [[0x01u8, 0x23u8], [0x80, 0x18], [0x80, 0x1F], [0x90, 0x11], [0xD0, 0x15], [0xF1, 0x0A]] {
        let mut em = machine(&program);
        assert_eq!(em.pending_fault(), None);
        em.cycle();
        assert!(!em.finished());
        assert_eq!(em.pc(), 0x202);
        for x in 0..16u8 {
            assert_eq!(em.register(x), 0);
        }
    }
}

#[test]
fn halt_sets_the_flag() {
    let mut em = machine(&[0x60, 0x01, 0x00, 0x00]);
    assert!(!em.finished());
    run(&mut em, 1);
    assert!(!em.finished());
    assert_eq!(em.cycle(), 0x0000);
    assert!(em.finished());
    assert_eq!(em.pc(), 0x204);
}

#[test]
fn return_on_empty_stack_faults() {
    let em = machine(&[0x00, 0xEE]);
    assert_eq!(em.pending_fault(), Some(Fault::StackUnderflow));
}

#[test]
fn jump_to_the_start_address_or_below_faults() {
    assert_eq!(machine(&[0x12, 0x00]).pending_fault(), Some(Fault::BadJumpTarget));
    assert_eq!(machine(&[0x10, 0x00]).pending_fault(), Some(Fault::BadJumpTarget));
    assert_eq!(machine(&[0x12, 0x01]).pending_fault(), None);
    assert_eq!(machine(&[0x1F, 0xFF]).pending_fault(), None);
}

#[test]
fn call_to_the_start_address_or_below_faults() {
    assert_eq!(machine(&[0x22, 0x00]).pending_fault(), Some(Fault::BadJumpTarget));
    assert_eq!(machine(&[0x21, 0xFF]).pending_fault(), Some(Fault::BadJumpTarget));
    assert_eq!(machine(&[0x22, 0x02]).pending_fault(), None);
}

#[test]
fn thirteenth_nested_call_faults() {
    // Each instruction calls the one behind it.
    let mut program = Vec::new();
    for k in 0..13u16 {
        let target = PC_START + 2 * (k + 1);
        program.push(0x20 | (target >> 8) as u8);
        program.push((target & 0xFF) as u8);
    }
    let mut em = machine(&program);
    for depth in 0..12u8 {
        assert_eq!(em.sp(), depth);
        assert_eq!(em.pending_fault(), None);
        em.cycle();
    }
    assert_eq!(em.sp(), 12);
    assert_eq!(em.pending_fault(), Some(Fault::StackOverflow));
}

#[test]
fn fault_check_changes_nothing() {
    let em = machine(&[0x00, 0xEE]);
    assert_eq!(em.pending_fault(), Some(Fault::StackUnderflow));
    assert_eq!(em.pending_fault(), Some(Fault::StackUnderflow));
    assert_eq!(em.pc(), 0x200);
    assert_eq!(em.sp(), 0);
}

#[test]
fn program_counter_past_memory_restarts_at_the_start_address() {
    // V0 = 0xFF, then jump to 0xF00 + V0 = 0xFFF, where no whole word fits.
    let mut em = machine(&[0x60, 0xFF, 0xBF, 0x00]);
    run(&mut em, 2);
    assert_eq!(em.pc(), 0xFFF);
    assert_eq!(em.pending_fault(), None);
    assert_eq!(em.cycle(), 0x60FF);
    assert_eq!(em.pc(), 0x202);
}

#[test]
fn program_counter_beyond_memory_restarts_at_the_start_address() {
    let mut em = machine(&[0x60, 0xFF, 0xBF, 0xFF]);
    run(&mut em, 2);
    assert_eq!(em.pc(), 0x10FE);
    assert_eq!(em.cycle(), 0x60FF);
    assert_eq!(em.pc(), 0x202);
}

#[test]
fn last_whole_word_of_memory_is_fetched() {
    // V0 = 0xFE, then jump to 0xF00 + V0 = 0xFFE, the last fetch address.
    let mut image = vec![0u8; 0xE00];
    image[0] = 0x60;
    image[1] = 0xFE;
    image[2] = 0xBF;
    image[3] = 0x00;
    image[0xDFE] = 0x6A;
    image[0xDFF] = 0x77;
    let mut em = machine(&image);
    run(&mut em, 2);
    assert_eq!(em.pc(), 0xFFE);
    assert_eq!(em.cycle(), 0x6A77);
    assert_eq!(em.register(0xA), 0x77);
    assert_eq!(em.pc(), 0x1000);
}

#[test]
fn execute_runs_one_operation_without_a_fetch() {
    let mut em = machine(&[0x60, 0x11]);
    em.set_delay_timer(9);
    em.execute(Opcode::Load { x: 4, nn: 0x99 }, 0);
    assert_eq!(em.register(4), 0x99);
    assert_eq!(em.register(0), 0);
    assert_eq!(em.pc(), 0x202);
    assert_eq!(em.delay_timer(), 9);
}

#[test]
fn execute_skip_on_one_register() {
    let mut equal = machine(&[]);
    equal.execute(Opcode::SkipRegEq { x: 3, y: 3 }, 0);
    assert_eq!(equal.pc(), 0x204);
    let mut differ = machine(&[]);
    differ.execute(Opcode::SkipRegNe { x: 3, y: 3 }, 0);
    assert_eq!(differ.pc(), 0x202);
}

#[test]
fn execute_unknown_changes_only_the_program_counter() {
    let mut em = machine(&[0x6A, 0x05, 0xA1, 0x23, 0x22, 0x08, 0x00, 0x00]);
    run(&mut em, 3);
    em.set_delay_timer(7);
    em.set_sound_timer(8);
    em.set_pixel(100, 1);
    let memory = *em.memory();
    let screen = *em.framebuffer();
    let report = em.print_debug_info(0);
    assert_eq!(em.pc(), 0x208);
    em.execute(Opcode::Unknown, 0xFF);
    assert_eq!(em.pc(), 0x20A);
    assert_eq!(em.sp(), 1);
    assert_eq!(em.index_register(), 0x123);
    assert_eq!(em.register(0xA), 5);
    assert_eq!((em.delay_timer(), em.sound_timer()), (7, 8));
    assert!(!em.finished());
    assert!(*em.memory() == memory);
    assert!(*em.framebuffer() == screen);
    assert_eq!(em.print_debug_info(0), report.replace("PC: 0x208", "PC: 0x20a"));
}

#[test]
fn execute_random_masks_the_given_byte() {
    let mut em = machine(&[]);
    em.execute(Opcode::Load { x: 1, nn: 0x77 }, 0);
    em.execute(Opcode::Random { x: 2, mask: 0x3C }, 0xFF);
    assert_eq!(em.register(2), 0x3C);
    assert_eq!(em.register(1), 0x77);
    assert_eq!(em.pc(), 0x204);
}

#[test]
fn execute_return_behind_call() {
    let mut em = machine(&[]);
    em.execute(Opcode::Call { addr: 0x400 }, 0);
    assert_eq!((em.pc(), em.sp()), (0x400, 1));
    em.execute(Opcode::Ret, 0);
    assert_eq!((em.pc(), em.sp()), (0x202, 0));
}
