use chip8::chip::Chip8;
use chip8::error::Chip8Error;
use chip8::model::Quirks;

fn with_registers(x: usize, a: u8, y: usize, b: u8) -> Chip8 {
    let mut chip = Chip8::new();
    chip.var_registers[x] = a;
    chip.var_registers[y] = b;
    chip
}

#[test]
fn add_with_carry_for_every_pair_of_bytes() {
    for a in 0..=255u8 {
        for b in 0..=255u8 {
            let mut chip = with_registers(1, a, 2, b);
            chip.op_8xy4(1, 2).unwrap();
            let sum = a as u16 + b as u16;
            assert_eq!(chip.var_registers[1] as u16, sum % 256);
            assert_eq!(chip.var_registers[0xF], if sum > 255 { 1 } else { 0 });
        }
    }
}

#[test]
fn subtract_with_borrow_for_every_pair_of_bytes() {
    for a in 0..=255u8 {
        for b in 0..=255u8 {
            let mut chip = with_registers(1, a, 2, b);
            chip.op_8xy5(1, 2).unwrap();
            let difference = (a as i32 - b as i32).rem_euclid(256);
            assert_eq!(chip.var_registers[1] as i32, difference);
            assert_eq!(chip.var_registers[0xF], if a >= b { 1 } else { 0 });
        }
    }
}

#[test]
fn add_carries_out_of_eight_bits() {
    let mut chip = with_registers(3, 200, 4, 100);
    chip.op_8xy4(3, 4).unwrap();
    assert_eq!(chip.var_registers[3], 44);
    assert_eq!(chip.var_registers[0xF], 1);
}

#[test]
fn add_without_carry_clears_the_flag() {
    let mut chip = with_registers(3, 20, 4, 10);
    chip.var_registers[0xF] = 1;
    chip.op_8xy4(3, 4).unwrap();
    assert_eq!(chip.var_registers[3], 30);
    assert_eq!(chip.var_registers[0xF], 0);
}

#[test]
fn add_into_the_flag_register_keeps_the_flag() {
    // VF := VF + V1 is written first, the carry second.
    let mut chip = with_registers(0xF, 1, 1, 1);
    chip.op_8xy4(0xF, 1).unwrap();
    assert_eq!(chip.var_registers[0xF], 0);

    let mut chip = with_registers(0xF, 255, 1, 1);
    chip.op_8xy4(0xF, 1).unwrap();
    assert_eq!(chip.var_registers[0xF], 1);
}

#[test]
fn add_a_register_to_itself() {
    let mut chip = with_registers(6, 0x90, 6, 0x90);
    chip.op_8xy4(6, 6).unwrap();
    assert_eq!(chip.var_registers[6], 0x20);
    assert_eq!(chip.var_registers[0xF], 1);
}

#[test]
fn subtract_with_borrow_wraps() {
    let mut chip = with_registers(1, 5, 2, 7);
    chip.op_8xy5(1, 2).unwrap();
    assert_eq!(chip.var_registers[1], 254);
    assert_eq!(chip.var_registers[0xF], 0);
}

#[test]
fn subtract_equal_values_sets_the_flag() {
    let mut chip = with_registers(1, 9, 2, 9);
    chip.op_8xy5(1, 2).unwrap();
    assert_eq!(chip.var_registers[1], 0);
    assert_eq!(chip.var_registers[0xF], 1);
}

#[test]
fn reverse_subtract_with_and_without_borrow() {
    let mut chip = with_registers(1, 3, 2, 10);
    chip.op_8xy7(1, 2).unwrap();
    assert_eq!(chip.var_registers[1], 7);
    assert_eq!(chip.var_registers[0xF], 1);

    let mut chip = with_registers(1, 10, 2, 3);
    chip.op_8xy7(1, 2).unwrap();
    assert_eq!(chip.var_registers[1], 249);
    assert_eq!(chip.var_registers[0xF], 0);
}

#[test]
fn add_constant_leaves_the_flag_alone() {
    let mut chip = Chip8::new();
    chip.var_registers[0] = 0xFF;
    chip.var_registers[0xF] = 7;
    chip.op_7xnn(0, 2).unwrap();
    assert_eq!(chip.var_registers[0], 1);
    assert_eq!(chip.var_registers[0xF], 7);
}

#[test]
fn logic_operations_leave_the_flag_alone() {
    let mut chip = with_registers(1, 0b1100, 2, 0b1010);
    chip.var_registers[0xF] = 9;
    chip.op_8xy1(1, 2).unwrap();
    assert_eq!(chip.var_registers[1], 0b1110);
    chip.var_registers[1] = 0b1100;
    chip.op_8xy2(1, 2).unwrap();
    assert_eq!(chip.var_registers[1], 0b1000);
    chip.var_registers[1] = 0b1100;
    chip.op_8xy3(1, 2).unwrap();
    assert_eq!(chip.var_registers[1], 0b0110);
    assert_eq!(chip.var_registers[0xF], 9);
}

#[test]
fn shift_right_takes_its_source_from_vy() {
    let mut chip = with_registers(1, 0xFF, 2, 0b0000_0101);
    chip.op_8xy6(1, 2).unwrap();
    assert_eq!(chip.var_registers[1], 0b0000_0010);
    assert_eq!(chip.var_registers[2], 0b0000_0101);
    assert_eq!(chip.var_registers[0xF], 1);

    let mut chip = with_registers(1, 0xFF, 2, 0b0000_0100);
    chip.op_8xy6(1, 2).unwrap();
    assert_eq!(chip.var_registers[1], 0b0000_0010);
    assert_eq!(chip.var_registers[0xF], 0);
}

#[test]
fn shift_left_takes_its_source_from_vy() {
    let mut chip = with_registers(1, 0, 2, 0b1000_0001);
    chip.op_8xye(1, 2).unwrap();
    assert_eq!(chip.var_registers[1], 0b0000_0010);
    assert_eq!(chip.var_registers[2], 0b1000_0001);
    assert_eq!(chip.var_registers[0xF], 1);

    let mut chip = with_registers(1, 0, 2, 0b0100_0001);
    chip.op_8xye(1, 2).unwrap();
    assert_eq!(chip.var_registers[1], 0b1000_0010);
    assert_eq!(chip.var_registers[0xF], 0);
}

#[test]
fn shift_in_place_quirk_takes_its_source_from_vx() {
    let quirks = Quirks { shift_in_place: true, jump_with_vx: false, index_overflow_flag: false };
    let mut chip = Chip8::with_quirks(quirks);
    chip.var_registers[1] = 0b0000_0111;
    chip.var_registers[2] = 0b1000_0000;
    chip.op_8xy6(1, 2).unwrap();
    assert_eq!(chip.var_registers[1], 0b0000_0011);
    assert_eq!(chip.var_registers[0xF], 1);

    chip.var_registers[1] = 0b1100_0000;
    chip.op_8xye(1, 2).unwrap();
    assert_eq!(chip.var_registers[1], 0b1000_0000);
    assert_eq!(chip.var_registers[0xF], 1);
}

#[test]
fn shift_into_the_flag_register_keeps_the_shifted_value() {
    // The flag is written first, the shifted value second.
    let mut chip = with_registers(0xF, 0, 2, 0b0000_0111);
    chip.op_8xy6(0xF, 2).unwrap();
    assert_eq!(chip.var_registers[0xF], 0b0000_0011);
}

#[test]
fn every_arithmetic_operation_rejects_a_register_past_vf() {
    let mut chip = Chip8::new();
    assert_eq!(chip.op_6xnn(0x10, 1), Err(Chip8Error::InvalidOperand));
    assert_eq!(chip.op_7xnn(0x10, 1), Err(Chip8Error::InvalidOperand));
    assert_eq!(chip.op_8xy0(0x10, 0), Err(Chip8Error::InvalidOperand));
    assert_eq!(chip.op_8xy0(0, 0x10), Err(Chip8Error::InvalidOperand));
    assert_eq!(chip.op_8xy1(0x10, 0), Err(Chip8Error::InvalidOperand));
    assert_eq!(chip.op_8xy2(0, 0x10), Err(Chip8Error::InvalidOperand));
    assert_eq!(chip.op_8xy3(0x10, 0), Err(Chip8Error::InvalidOperand));
    assert_eq!(chip.op_8xy4(0x10, 25), Err(Chip8Error::InvalidOperand));
    assert_eq!(chip.op_8xy5(0, 16), Err(Chip8Error::InvalidOperand));
    assert_eq!(chip.op_8xy6(16, 0), Err(Chip8Error::InvalidOperand));
    assert_eq!(chip.op_8xy7(0, 16), Err(Chip8Error::InvalidOperand));
    assert_eq!(chip.op_8xye(16, 0), Err(Chip8Error::InvalidOperand));
    assert_eq!(chip.var_registers, [0; 16]);
    assert_eq!(chip.program_counter, 0x200);
}

#[test]
fn random_byte_is_masked_by_the_operand() {
    let mut chip = Chip8::new();
    chip.op_cxnn_with(4, 0x0F, 0xA7).unwrap();
    assert_eq!(chip.var_registers[4], 0x07);
    chip.op_cxnn_with(4, 0xF0, 0xA7).unwrap();
    assert_eq!(chip.var_registers[4], 0xA0);
    assert_eq!(chip.op_cxnn_with(16, 0xFF, 1), Err(Chip8Error::InvalidOperand));
}

#[test]
fn random_instruction_stays_inside_the_mask() {
    let mut chip = Chip8::new();
    for _ in 0..200 {
        chip.var_registers[2] = 0xFF;
        chip.op_cxnn(2, 0x3C).unwrap();
        assert_eq!(chip.var_registers[2] & !0x3C, 0);
    }
    chip.var_registers[2] = 0xFF;
    chip.op_cxnn(2, 0).unwrap();
    assert_eq!(chip.var_registers[2], 0);
    assert_eq!(chip.op_cxnn(16, 0xFF), Err(Chip8Error::InvalidOperand));
}

#[test]
fn random_instruction_draws_more_than_one_value() {
    let mut chip = Chip8::new();
    let mut seen = [false; 256];
    for _ in 0..2000 {
        chip.op_cxnn(0, 0xFF).unwrap();
        seen[chip.var_registers[0] as usize] = true;
    }
    assert!(seen.iter().filter(|hit| **hit).count() > 100);
}
