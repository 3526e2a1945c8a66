use chip8::chip::Chip8;
use chip8::decode::Instruction;
use chip8::error::Chip8Error;

/// A machine with something in every part of its state.
fn busy_machine() -> Chip8 {
    let mut chip = Chip8::new();
    chip.load(&[0xD0, 0x15, 0x81, 0x24, 0xF0, 0x0A, 0xFF, 0x18, 0x3C]).unwrap();
    for register in 0..16 {
        chip.var_registers[register] = 0x11 * register as u8;
    }
    chip.index_reg = 0x206;
    chip.draw(1, 2, 3).unwrap();
    chip.op_2nnn(0x204).unwrap();
    chip.set_key(3, true).unwrap();
    chip.delay_timer = 7;
    chip.sound_timer = 9;
    assert!(chip.is_valid());
    chip
}

#[test]
fn a_failed_operation_leaves_the_machine_as_it_was() {
    let before = busy_machine();
    let mut chip = busy_machine();
    assert_eq!(chip, before);

    assert_eq!(chip.load(&vec![1u8; 4000]), Err(Chip8Error::ImageTooLarge));
    assert_eq!(chip, before);
    assert_eq!(chip.set_key(16, true), Err(Chip8Error::InvalidOperand));
    assert_eq!(chip, before);
    assert_eq!(chip.op_1nnn(0xFFFF), Err(Chip8Error::InvalidOperand));
    assert_eq!(chip, before);
    assert_eq!(chip.op_2nnn(0x1000), Err(Chip8Error::InvalidOperand));
    assert_eq!(chip, before);
    assert_eq!(chip.op_8xy4(1, 16), Err(Chip8Error::InvalidOperand));
    assert_eq!(chip, before);
    assert_eq!(chip.draw(1, 2, 16), Err(Chip8Error::InvalidOperand));
    assert_eq!(chip, before);
    assert_eq!(chip.op_fx0a(16), Err(Chip8Error::InvalidOperand));
    assert_eq!(chip, before);

    let mut before = busy_machine();
    before.index_reg = 0xFFF;
    chip.index_reg = 0xFFF;
    assert_eq!(chip.draw(1, 2, 2), Err(Chip8Error::InvalidOperand));
    assert_eq!(chip, before);
    assert_eq!(chip.op_fx33(1), Err(Chip8Error::InvalidOperand));
    assert_eq!(chip, before);
    assert_eq!(chip.op_fx55(1), Err(Chip8Error::InvalidOperand));
    assert_eq!(chip, before);
    assert_eq!(chip.op_fx65(1), Err(Chip8Error::InvalidOperand));
    assert_eq!(chip, before);
    // The instruction at 0x200 draws the sprite at I.
    before.program_counter = 0x200;
    chip.program_counter = 0x200;
    assert_eq!(chip.step(), Err(Chip8Error::InvalidOperand));
    assert_eq!(chip, before);
}

#[test]
fn a_failed_execute_puts_the_program_counter_back() {
    let before = busy_machine();
    let mut chip = busy_machine();
    assert_eq!(chip, before);
    for instruction in [
        Instruction::Load { x: 16, nn: 1 },
        Instruction::Draw { x: 0, y: 0, n: 16 },
        Instruction::Call { nnn: 0x1000 },
        Instruction::SkipIfKeyDown { x: 2 },
        Instruction::StoreRegisters { x: 16 },
        Instruction::Jump { nnn: 0x1000 },
        Instruction::JumpOffset { nnn: 0x1000 },
    ] {
        assert_eq!(chip.execute(instruction, 0), Err(Chip8Error::InvalidOperand));
        assert_eq!(chip, before);
    }
}

#[test]
fn execute_moves_the_program_counter_on_except_for_jumps() {
    let mut chip = Chip8::new();
    assert_eq!(chip.execute(Instruction::Load { x: 1, nn: 9 }, 0), Ok(false));
    assert_eq!(chip.program_counter, 0x202);
    assert_eq!(chip.execute(Instruction::SkipIfEqual { x: 1, nn: 9 }, 0), Ok(false));
    assert_eq!(chip.program_counter, 0x206);
    assert_eq!(chip.execute(Instruction::Call { nnn: 0x400 }, 0), Ok(false));
    assert_eq!(chip.program_counter, 0x400);
    assert_eq!(chip.stack[0], 0x208);
    assert_eq!(chip.execute(Instruction::Return, 0), Ok(false));
    assert_eq!(chip.program_counter, 0x208);
    assert_eq!(chip.execute(Instruction::Jump { nnn: 0x300 }, 0), Ok(false));
    assert_eq!(chip.program_counter, 0x300);
    assert_eq!(chip.execute(Instruction::Random { x: 2, nn: 0xF0 }, 0x3C), Ok(false));
    assert_eq!(chip.var_registers[2], 0x30);
    assert_eq!(chip.program_counter, 0x302);
}

#[test]
fn every_error_has_an_input_that_gives_it() {
    let mut chip = Chip8::new();
    assert_eq!(chip.op_6xnn(16, 0), Err(Chip8Error::InvalidOperand));
    assert_eq!(chip.op_00ee(), Err(Chip8Error::StackUnderflow));
    assert_eq!(chip.load(&vec![0u8; 3585]), Err(Chip8Error::ImageTooLarge));
    assert_eq!(chip.step(), Err(Chip8Error::UnimplementedOpcode));
    for _ in 0..16 {
        chip.op_2nnn(0x300).unwrap();
    }
    assert_eq!(chip.op_2nnn(0x300), Err(Chip8Error::StackOverflow));
}
