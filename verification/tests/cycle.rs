use chip8::chip::Chip8;
use chip8::cycle::{CycleController, Due, Exposure};
use chip8::error::Chip8Error;
use chip8::model::KeyWait;

fn machine_with(program: &[u8]) -> Chip8 {
    let mut chip = Chip8::new();
    chip.load(program).unwrap();
    chip
}

#[test]
fn step_executes_load_constant() {
    let mut chip = machine_with(&[0x60, 0x05]);
    assert_eq!(chip.step(), Ok(false));
    assert_eq!(chip.var_registers[0], 5);
    assert_eq!(chip.program_counter, 0x202);
}

#[test]
fn step_executes_add_constant() {
    let mut chip = machine_with(&[0x70, 0x05]);
    chip.var_registers[0] = 5;
    assert_eq!(chip.step(), Ok(false));
    assert_eq!(chip.var_registers[0], 10);
    assert_eq!(chip.var_registers[0xF], 0);
}

#[test]
fn step_on_return_with_empty_stack_underflows_and_stays() {
    let mut chip = machine_with(&[0x00, 0xEE]);
    assert_eq!(chip.step(), Err(Chip8Error::StackUnderflow));
    assert_eq!(chip.program_counter, 0x200);
    assert_eq!(chip.stack_ptr, 0);
}

#[test]
fn step_on_the_seventeenth_nested_call_overflows() {
    // Seventeen calls, each to the instruction after itself.
    let mut program = Vec::new();
    for depth in 0..17u16 {
        let target = 0x200 + 2 * (depth + 1);
        program.push(0x20 | (target >> 8) as u8);
        program.push(target as u8);
    }
    let mut chip = machine_with(&program);
    for depth in 0..16u16 {
        assert_eq!(chip.step(), Ok(false));
        assert_eq!(chip.stack_ptr as u16, depth + 1);
        assert_eq!(chip.stack[depth as usize], 0x202 + 2 * depth);
    }
    assert_eq!(chip.program_counter, 0x220);
    assert_eq!(chip.step(), Err(Chip8Error::StackOverflow));
    assert_eq!(chip.program_counter, 0x220);
    assert_eq!(chip.stack_ptr, 16);
}

#[test]
fn step_on_wait_for_key_blocks_until_a_key_goes_down() {
    let mut chip = machine_with(&[0xF3, 0x0A, 0x60, 0x01]);
    // A key that is already down when the wait begins does not count.
    chip.set_key(0x2, true).unwrap();
    for _ in 0..5 {
        assert_eq!(chip.step(), Ok(false));
        assert_eq!(chip.program_counter, 0x200);
        assert!(chip.awaiting_key());
    }
    // Neither does a key that stays down, nor one that goes up.
    chip.set_key(0x2, true).unwrap();
    assert_eq!(chip.step(), Ok(false));
    assert_eq!(chip.program_counter, 0x200);
    chip.set_key(0x2, false).unwrap();
    assert_eq!(chip.step(), Ok(false));
    assert_eq!(chip.program_counter, 0x200);
    // The timers go on while the instruction stream stands still.
    chip.delay_timer = 3;
    chip.tick_timers();
    assert_eq!(chip.delay_timer, 2);
    assert_eq!(chip.program_counter, 0x200);

    chip.set_key(0xB, true).unwrap();
    assert_eq!(chip.program_counter, 0x200);
    assert_eq!(chip.step(), Ok(false));
    assert_eq!(chip.program_counter, 0x202);
    assert_eq!(chip.var_registers[3], 0xB);
    assert!(!chip.awaiting_key());

    assert_eq!(chip.step(), Ok(false));
    assert_eq!(chip.var_registers[0], 1);
    assert_eq!(chip.program_counter, 0x204);
}

#[test]
fn wait_for_key_takes_the_first_key_that_went_down() {
    let mut chip = machine_with(&[0xF0, 0x0A]);
    assert_eq!(chip.step(), Ok(false));
    assert_eq!(chip.key_wait, KeyWait::Waiting);
    chip.set_key(0x4, true).unwrap();
    assert_eq!(chip.key_wait, KeyWait::Ready(4));
    chip.set_key(0x9, true).unwrap();
    chip.set_key(0x4, false).unwrap();
    assert_eq!(chip.step(), Ok(false));
    assert_eq!(chip.var_registers[0], 0x4);
    assert_eq!(chip.key_wait, KeyWait::Idle);
}

#[test]
fn wait_for_key_steps_back_onto_itself() {
    let mut chip = Chip8::new();
    chip.program_counter = 0x202;
    assert_eq!(chip.op_fx0a(1), Ok(()));
    assert_eq!(chip.program_counter, 0x200);
    assert_eq!(chip.key_wait, KeyWait::Waiting);

    chip.program_counter = 1;
    assert_eq!(chip.op_fx0a(1), Err(Chip8Error::InvalidOperand));
    assert_eq!(chip.program_counter, 1);
    assert_eq!(chip.op_fx0a(16), Err(Chip8Error::InvalidOperand));
}

#[test]
fn step_reports_whether_the_display_changed() {
    // CLS; LD I, 0x20A; DRW V0, V0, 1; DRW V0, V0, 0; CLS; sprite
    let mut chip = machine_with(&[
        0x00, 0xE0, 0xA2, 0x0C, 0xD0, 0x01, 0xD0, 0x00, 0x00, 0xE0, 0x00, 0xE0, 0x81, 0x00,
    ]);
    assert_eq!(chip.step(), Ok(false)); // nothing to clear
    assert_eq!(chip.step(), Ok(false));
    assert_eq!(chip.step(), Ok(true)); // two pixels lit
    assert_eq!(chip.display()[0][0], 1);
    assert_eq!(chip.display()[0][7], 1);
    assert_eq!(chip.step(), Ok(false)); // a sprite without rows
    assert_eq!(chip.step(), Ok(true)); // cleared
    assert_eq!(chip.step(), Ok(false)); // already clear
    assert!(chip.display().iter().all(|row| row.iter().all(|cell| *cell == 0)));
}

#[test]
fn step_on_a_blank_sprite_reports_no_change() {
    let mut chip = machine_with(&[0xA3, 0x00, 0xD0, 0x05]);
    assert_eq!(chip.step(), Ok(false));
    assert_eq!(chip.step(), Ok(false));
    assert_eq!(chip.var_registers[0xF], 0);
}

#[test]
fn step_on_an_undefined_opcode_fails_and_stays() {
    for opcode in [0x0000u16, 0x0123, 0x00E1, 0x5AB1, 0x8AB8, 0x8ABF, 0x9AB1, 0xE09F, 0xE1A2, 0xF0FF, 0xF165] {
        let program = [(opcode >> 8) as u8, opcode as u8];
        let mut chip = machine_with(&program);
        let expected = if opcode == 0xF165 { Ok(false) } else { Err(Chip8Error::UnimplementedOpcode) };
        assert_eq!(chip.step(), expected, "opcode {opcode:04X}");
        if expected.is_err() {
            assert_eq!(chip.program_counter, 0x200);
        }
    }
}

#[test]
fn step_restores_the_program_counter_when_the_instruction_fails() {
    // DRW with I pointing past the end of memory.
    let mut chip = machine_with(&[0xD0, 0x05]);
    chip.index_reg = 0xFFF;
    assert_eq!(chip.step(), Err(Chip8Error::InvalidOperand));
    assert_eq!(chip.program_counter, 0x200);
    assert_eq!(chip.var_registers[0xF], 0);
}

#[test]
fn step_reads_the_high_byte_first() {
    let mut chip = machine_with(&[0x12, 0x34]);
    assert_eq!(chip.fetch(), Ok(0x1234));
    assert_eq!(chip.step(), Ok(false));
    assert_eq!(chip.program_counter, 0x234);
}

#[test]
fn step_at_the_edge_of_memory() {
    // A jump in the last two bytes of memory executes.
    let mut chip = Chip8::new();
    chip.memory[0xFFE] = 0x12;
    chip.memory[0xFFF] = 0x00;
    chip.program_counter = 0xFFE;
    assert_eq!(chip.step(), Ok(false));
    assert_eq!(chip.program_counter, 0x200);

    // Anything else there would move the program counter out of memory.
    chip.memory[0xFFE] = 0x60;
    chip.memory[0xFFF] = 0x01;
    chip.program_counter = 0xFFE;
    assert_eq!(chip.step(), Err(Chip8Error::InvalidOperand));
    assert_eq!(chip.program_counter, 0xFFE);
    assert_eq!(chip.var_registers[0], 0);

    // Half an instruction cannot be fetched.
    chip.program_counter = 0xFFF;
    assert_eq!(chip.fetch(), Err(Chip8Error::InvalidOperand));
    assert_eq!(chip.step(), Err(Chip8Error::InvalidOperand));
    assert_eq!(chip.program_counter, 0xFFF);
}

#[test]
fn step_with_uses_the_given_random_byte() {
    let mut chip = machine_with(&[0xC1, 0x3C, 0xC2, 0xFF]);
    assert_eq!(chip.step_with(0xFF), Ok(false));
    assert_eq!(chip.var_registers[1], 0x3C);
    assert_eq!(chip.step_with(0x5A), Ok(false));
    assert_eq!(chip.var_registers[2], 0x5A);
    assert_eq!(chip.program_counter, 0x204);
}

#[test]
fn step_on_random_stays_inside_the_mask() {
    let mut chip = machine_with(&[0xC1, 0x0F, 0x12, 0x00]);
    for _ in 0..100 {
        assert_eq!(chip.step(), Ok(false));
        assert!(chip.var_registers[1] <= 0x0F);
        assert_eq!(chip.step(), Ok(false));
        assert_eq!(chip.program_counter, 0x200);
    }
}

#[test]
fn a_small_program_runs_to_its_end() {
    // V0 := 3; loop: V1 += V0; V0 -= 1 (V2 = 1); if V0 != 0 goto loop; spin
    let program = [
        0x60, 0x03, // 200: LD V0, 3
        0x62, 0x01, // 202: LD V2, 1
        0x81, 0x04, // 204: ADD V1, V0
        0x80, 0x25, // 206: SUB V0, V2
        0x30, 0x00, // 208: SE V0, 0
        0x12, 0x04, // 20A: JP 204
        0x12, 0x0C, // 20C: JP 20C
    ];
    let mut chip = machine_with(&program);
    for _ in 0..40 {
        assert_eq!(chip.step(), Ok(false));
        assert!(chip.is_valid());
    }
    assert_eq!(chip.var_registers[1], 6);
    assert_eq!(chip.var_registers[0], 0);
    assert_eq!(chip.program_counter, 0x20C);
}

#[test]
fn controller_carries_the_remainder_of_each_slice() {
    let mut controller = CycleController::new(500);
    assert_eq!(controller.elapse(16_667), Due { instructions: 8, ticks: 1 });
    assert_eq!(controller.instruction_credit, 333_500);
    assert_eq!(controller.timer_credit, 20);
    assert_eq!(controller.elapse(16_667), Due { instructions: 8, ticks: 1 });
    assert_eq!(controller.instruction_credit, 667_000);
    assert_eq!(controller.elapse(16_667), Due { instructions: 9, ticks: 1 });
    assert_eq!(controller.instruction_credit, 500);
    assert_eq!(controller.timer_credit, 60);
    assert_eq!(controller.instructions_per_second, 500);
}

#[test]
fn controller_keeps_both_rates_however_time_is_sliced() {
    let mut controller = CycleController::new(700);
    let mut instructions = 0u64;
    let mut ticks = 0u64;
    let mut elapsed = 0u64;
    let mut slice = 1u32;
    while elapsed < 3_000_000 {
        let due = controller.elapse(slice);
        instructions += due.instructions;
        ticks += due.ticks;
        elapsed += slice as u64;
        slice = slice * 7 % 4_001 + 1;
    }
    assert_eq!(instructions, elapsed * 700 / 1_000_000);
    assert_eq!(ticks, elapsed * 60 / 1_000_000);
}

#[test]
fn controller_with_no_time_or_no_rate_has_nothing_due() {
    let mut controller = CycleController::new(1_000);
    assert_eq!(controller.elapse(0), Due { instructions: 0, ticks: 0 });
    assert_eq!(controller.elapse(999), Due { instructions: 0, ticks: 0 });
    assert_eq!(controller.elapse(1), Due { instructions: 1, ticks: 0 });

    let mut paused = CycleController::new(0);
    assert_eq!(paused.elapse(1_000_000), Due { instructions: 0, ticks: 60 });
}

#[test]
fn controller_takes_the_longest_slice_at_the_highest_rate() {
    let mut controller = CycleController::new(u32::MAX);
    controller.instruction_credit = 999_999;
    controller.timer_credit = 999_999;
    let due = controller.elapse(u32::MAX);
    let time = 999_999u128 + (u32::MAX as u128) * (u32::MAX as u128);
    assert_eq!(due.instructions as u128, time / 1_000_000);
    assert_eq!(controller.instruction_credit as u128, time % 1_000_000);
    assert_eq!(due.ticks, (999_999 + u32::MAX as u64 * 60) / 1_000_000);
}

#[test]
fn cycle_shows_the_display_after_every_executed_instruction() {
    // LD I, 0x208; DRW V0, V0, 1; LD V1, 1; spin; sprite
    let mut chip = machine_with(&[0xA2, 0x08, 0xD0, 0x01, 0x61, 0x01, 0x12, 0x06, 0xFF]);
    let controller = CycleController::new(700);
    assert_eq!(controller.cycle(&mut chip), Ok(Exposure::Show { changed: false }));
    assert_eq!(controller.cycle(&mut chip), Ok(Exposure::Show { changed: true }));
    assert_eq!(chip.display()[0][..9], [1, 1, 1, 1, 1, 1, 1, 1, 0]);
    assert_eq!(controller.cycle(&mut chip), Ok(Exposure::Show { changed: false }));
    assert_eq!(chip.var_registers[1], 1);
    assert_eq!(controller.cycle(&mut chip), Ok(Exposure::Show { changed: false }));
    assert_eq!(chip.program_counter, 0x206);
}

#[test]
fn cycle_holds_the_display_while_a_key_is_awaited() {
    let mut chip = machine_with(&[0xF5, 0x0A, 0x00, 0xE0]);
    let controller = CycleController::new(700);
    for _ in 0..3 {
        assert_eq!(controller.cycle(&mut chip), Ok(Exposure::Hold));
        assert_eq!(chip.program_counter, 0x200);
    }
    chip.set_key(0xC, true).unwrap();
    assert_eq!(controller.cycle(&mut chip), Ok(Exposure::Show { changed: false }));
    assert_eq!(chip.var_registers[5], 0xC);
    assert_eq!(chip.program_counter, 0x202);
}

#[test]
fn cycle_hands_on_the_failure_of_the_instruction() {
    let mut chip = machine_with(&[0x00, 0xEE]);
    let controller = CycleController::new(700);
    assert_eq!(controller.cycle(&mut chip), Err(Chip8Error::StackUnderflow));
    assert_eq!(chip.program_counter, 0x200);
    let mut chip = machine_with(&[0xFF, 0xFF]);
    assert_eq!(controller.cycle(&mut chip), Err(Chip8Error::UnimplementedOpcode));
}
