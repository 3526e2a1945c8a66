//! From opcodes to operand fields and to instructions.

use crate::error::Chip8Error;
use vstd::prelude::*;

verus! {

/// The operand fields of an opcode. Every opcode has all of them; which
/// ones mean something depends on the instruction.
#[derive(Clone, Copy, Debug, PartialEq, Eq)]
pub struct Operands {
    /// The four nibbles, the most significant first.
    pub nibbles: (u8, u8, u8, u8),
    /// The second nibble: a register index.
    pub x: usize,
    /// The third nibble: a register index.
    pub y: usize,
    /// The fourth nibble: a small immediate.
    pub n: usize,
    /// The low byte: an 8-bit immediate.
    pub nn: u8,
    /// The low twelve bits: an address.
    pub nnn: u16,
}

/// The operand fields of `opcode`, by arithmetic on its value.
pub open spec fn operands_of(opcode: u16) -> Operands {
    Operands {
        nibbles: (
            (opcode / 0x1000) as u8,
            (opcode / 0x100 % 0x10) as u8,
            (opcode / 0x10 % 0x10) as u8,
            (opcode % 0x10) as u8,
        ),
        x: (opcode / 0x100 % 0x10) as usize,
        y: (opcode / 0x10 % 0x10) as usize,
        n: (opcode % 0x10) as usize,
        nn: (opcode % 0x100) as u8,
        nnn: opcode % 0x1000,
    }
}

/// Splits an opcode into its operand fields. Every 16-bit value decodes.
pub fn decode(opcode: u16) -> (fields: Operands)
    ensures
        fields == operands_of(opcode),
{
    let first = ((opcode & 0xF000) >> 12u16) as u8;
    let second = ((opcode & 0x0F00) >> 8u16) as u8;
    let third = ((opcode & 0x00F0) >> 4u16) as u8;
    let fourth = (opcode & 0x000F) as u8;
    let nn = (opcode & 0x00FF) as u8;
    let nnn = opcode & 0x0FFF;
    assert(((opcode & 0xF000) >> 12u16) == opcode / 0x1000 && opcode / 0x1000 < 0x10)
        by (bit_vector);
    assert(((opcode & 0x0F00) >> 8u16) == opcode / 0x100 % 0x10) by (bit_vector);
    assert(((opcode & 0x00F0) >> 4u16) == opcode / 0x10 % 0x10) by (bit_vector);
    assert((opcode & 0x000F) == opcode % 0x10) by (bit_vector);
    assert((opcode & 0x00FF) == opcode % 0x100) by (bit_vector);
    assert((opcode & 0x0FFF) == opcode % 0x1000) by (bit_vector);
    Operands {
        nibbles: (first, second, third, fourth),
        x: second as usize,
        y: third as usize,
        n: fourth as usize,
        nn,
        nnn,
    }
}

/// The opcode whose high byte is `high` and whose low byte is `low`:
/// instructions lie in memory with the high byte first.
pub open spec fn opcode_of(high: u8, low: u8) -> u16 {
    (high * 0x100 + low) as u16
}

/// Puts two consecutive bytes of memory together into an opcode.
pub fn fetch_opcode(high: u8, low: u8) -> (opcode: u16)
    ensures
        opcode == opcode_of(high, low),
{
    let opcode = ((high as u16) << 8u16) | (low as u16);
    assert((((high as u16) << 8u16) | (low as u16)) == high * 0x100 + low) by (bit_vector);
    opcode
}

/// The instructions of the machine, each with the operands it uses.
#[derive(Clone, Copy, Debug, PartialEq, Eq)]
pub enum Instruction {
    /// `00E0`: clear the display.
    ClearDisplay,
    /// `00EE`: return from a subroutine.
    Return,
    /// `1NNN`: jump to `nnn`.
    Jump { nnn: u16 },
    /// `2NNN`: call the subroutine at `nnn`.
    Call { nnn: u16 },
    /// `3XNN`: skip the next instruction if `Vx == nn`.
    SkipIfEqual { x: usize, nn: u8 },
    /// `4XNN`: skip the next instruction if `Vx != nn`.
    SkipIfNotEqual { x: usize, nn: u8 },
    /// `5XY0`: skip the next instruction if `Vx == Vy`.
    SkipIfSame { x: usize, y: usize },
    /// `6XNN`: `Vx := nn`.
    Load { x: usize, nn: u8 },
    /// `7XNN`: `Vx := Vx + nn`, without a flag.
    AddConstant { x: usize, nn: u8 },
    /// `8XY0`: `Vx := Vy`.
    Copy { x: usize, y: usize },
    /// `8XY1`: `Vx := Vx OR Vy`.
    Or { x: usize, y: usize },
    /// `8XY2`: `Vx := Vx AND Vy`.
    And { x: usize, y: usize },
    /// `8XY3`: `Vx := Vx XOR Vy`.
    Xor { x: usize, y: usize },
    /// `8XY4`: `Vx := Vx + Vy`, with carry in `VF`.
    Add { x: usize, y: usize },
    /// `8XY5`: `Vx := Vx - Vy`, with no-borrow in `VF`.
    Subtract { x: usize, y: usize },
    /// `8XY6`: shift right by one, the bit shifted out in `VF`.
    ShiftRight { x: usize, y: usize },
    /// `8XY7`: `Vx := Vy - Vx`, with no-borrow in `VF`.
    SubtractFrom { x: usize, y: usize },
    /// `8XYE`: shift left by one, the bit shifted out in `VF`.
    ShiftLeft { x: usize, y: usize },
    /// `9XY0`: skip the next instruction if `Vx != Vy`.
    SkipIfDifferent { x: usize, y: usize },
    /// `ANNN`: `I := nnn`.
    LoadIndex { nnn: u16 },
    /// `BNNN`: jump to `nnn + V0`.
    JumpOffset { nnn: u16 },
    /// `CXNN`: `Vx :=` a random byte AND `nn`.
    Random { x: usize, nn: u8 },
    /// `DXYN`: draw the `n`-row sprite at `I` at `(Vx, Vy)`.
    Draw { x: usize, y: usize, n: usize },
    /// `EX9E`: skip the next instruction if key `Vx` is down.
    SkipIfKeyDown { x: usize },
    /// `EXA1`: skip the next instruction if key `Vx` is up.
    SkipIfKeyUp { x: usize },
    /// `FX07`: `Vx := delay_timer`.
    ReadDelay { x: usize },
    /// `FX0A`: wait for a key to go down, then `Vx :=` that key.
    WaitKey { x: usize },
    /// `FX15`: `delay_timer := Vx`.
    SetDelay { x: usize },
    /// `FX18`: `sound_timer := Vx`.
    SetSound { x: usize },
    /// `FX1E`: `I := I + Vx`.
    AddIndex { x: usize },
    /// `FX29`: `I :=` the address of the glyph for `Vx`.
    LoadGlyph { x: usize },
    /// `FX33`: store the decimal digits of `Vx` at `I`.
    StoreDigits { x: usize },
    /// `FX55`: store `V0` to `Vx` at `I`.
    StoreRegisters { x: usize },
    /// `FX65`: load `V0` to `Vx` from `I`.
    LoadRegisters { x: usize },
}

impl Instruction {
    /// Every operand fits the field of the opcode that carries it.
    pub open spec fn wf(self) -> bool {
        match self {
            Instruction::ClearDisplay => true,
            Instruction::Return => true,
            Instruction::Jump { nnn } => nnn <= 0xFFF,
            Instruction::Call { nnn } => nnn <= 0xFFF,
            Instruction::SkipIfEqual { x, nn } => x <= 0xF,
            Instruction::SkipIfNotEqual { x, nn } => x <= 0xF,
            Instruction::SkipIfSame { x, y } => x <= 0xF && y <= 0xF,
            Instruction::Load { x, nn } => x <= 0xF,
            Instruction::AddConstant { x, nn } => x <= 0xF,
            Instruction::Copy { x, y } => x <= 0xF && y <= 0xF,
            Instruction::Or { x, y } => x <= 0xF && y <= 0xF,
            Instruction::And { x, y } => x <= 0xF && y <= 0xF,
            Instruction::Xor { x, y } => x <= 0xF && y <= 0xF,
            Instruction::Add { x, y } => x <= 0xF && y <= 0xF,
            Instruction::Subtract { x, y } => x <= 0xF && y <= 0xF,
            Instruction::ShiftRight { x, y } => x <= 0xF && y <= 0xF,
            Instruction::SubtractFrom { x, y } => x <= 0xF && y <= 0xF,
            Instruction::ShiftLeft { x, y } => x <= 0xF && y <= 0xF,
            Instruction::SkipIfDifferent { x, y } => x <= 0xF && y <= 0xF,
            Instruction::LoadIndex { nnn } => nnn <= 0xFFF,
            Instruction::JumpOffset { nnn } => nnn <= 0xFFF,
            Instruction::Random { x, nn } => x <= 0xF,
            Instruction::Draw { x, y, n } => x <= 0xF && y <= 0xF && n <= 0xF,
            Instruction::SkipIfKeyDown { x } => x <= 0xF,
            Instruction::SkipIfKeyUp { x } => x <= 0xF,
            Instruction::ReadDelay { x } => x <= 0xF,
            Instruction::WaitKey { x } => x <= 0xF,
            Instruction::SetDelay { x } => x <= 0xF,
            Instruction::SetSound { x } => x <= 0xF,
            Instruction::AddIndex { x } => x <= 0xF,
            Instruction::LoadGlyph { x } => x <= 0xF,
            Instruction::StoreDigits { x } => x <= 0xF,
            Instruction::StoreRegisters { x } => x <= 0xF,
            Instruction::LoadRegisters { x } => x <= 0xF,
        }
    }

    /// The opcode that stands for this instruction.
    pub open spec fn encoding(self) -> int {
        match self {
            Instruction::ClearDisplay => 0x00E0,
            Instruction::Return => 0x00EE,
            Instruction::Jump { nnn } => 0x1000 + nnn,
            Instruction::Call { nnn } => 0x2000 + nnn,
            Instruction::SkipIfEqual { x, nn } => 0x3000 + 0x100 * x + nn,
            Instruction::SkipIfNotEqual { x, nn } => 0x4000 + 0x100 * x + nn,
            Instruction::SkipIfSame { x, y } => 0x5000 + 0x100 * x + 0x10 * y,
            Instruction::Load { x, nn } => 0x6000 + 0x100 * x + nn,
            Instruction::AddConstant { x, nn } => 0x7000 + 0x100 * x + nn,
            Instruction::Copy { x, y } => 0x8000 + 0x100 * x + 0x10 * y,
            Instruction::Or { x, y } => 0x8001 + 0x100 * x + 0x10 * y,
            Instruction::And { x, y } => 0x8002 + 0x100 * x + 0x10 * y,
            Instruction::Xor { x, y } => 0x8003 + 0x100 * x + 0x10 * y,
            Instruction::Add { x, y } => 0x8004 + 0x100 * x + 0x10 * y,
            Instruction::Subtract { x, y } => 0x8005 + 0x100 * x + 0x10 * y,
            Instruction::ShiftRight { x, y } => 0x8006 + 0x100 * x + 0x10 * y,
            Instruction::SubtractFrom { x, y } => 0x8007 + 0x100 * x + 0x10 * y,
            Instruction::ShiftLeft { x, y } => 0x800E + 0x100 * x + 0x10 * y,
            Instruction::SkipIfDifferent { x, y } => 0x9000 + 0x100 * x + 0x10 * y,
            Instruction::LoadIndex { nnn } => 0xA000 + nnn,
            Instruction::JumpOffset { nnn } => 0xB000 + nnn,
            Instruction::Random { x, nn } => 0xC000 + 0x100 * x + nn,
            Instruction::Draw { x, y, n } => 0xD000 + 0x100 * x + 0x10 * y + n,
            Instruction::SkipIfKeyDown { x } => 0xE09E + 0x100 * x,
            Instruction::SkipIfKeyUp { x } => 0xE0A1 + 0x100 * x,
            Instruction::ReadDelay { x } => 0xF007 + 0x100 * x,
            Instruction::WaitKey { x } => 0xF00A + 0x100 * x,
            Instruction::SetDelay { x } => 0xF015 + 0x100 * x,
            Instruction::SetSound { x } => 0xF018 + 0x100 * x,
            Instruction::AddIndex { x } => 0xF01E + 0x100 * x,
            Instruction::LoadGlyph { x } => 0xF029 + 0x100 * x,
            Instruction::StoreDigits { x } => 0xF033 + 0x100 * x,
            Instruction::StoreRegisters { x } => 0xF055 + 0x100 * x,
            Instruction::LoadRegisters { x } => 0xF065 + 0x100 * x,
        }
    }

    /// The instruction that `opcode` stands for, if it stands for one.
    pub open spec fn of(opcode: u16) -> Option<Instruction> {
        let fields = operands_of(opcode);
        match fields.nibbles {
            (0x0, 0x0, 0xE, 0x0) => Some(Instruction::ClearDisplay),
            (0x0, 0x0, 0xE, 0xE) => Some(Instruction::Return),
            (0x1, _, _, _) => Some(Instruction::Jump { nnn: fields.nnn }),
            (0x2, _, _, _) => Some(Instruction::Call { nnn: fields.nnn }),
            (0x3, _, _, _) => Some(Instruction::SkipIfEqual { x: fields.x, nn: fields.nn }),
            (0x4, _, _, _) => Some(Instruction::SkipIfNotEqual { x: fields.x, nn: fields.nn }),
            (0x5, _, _, 0x0) => Some(Instruction::SkipIfSame { x: fields.x, y: fields.y }),
            (0x6, _, _, _) => Some(Instruction::Load { x: fields.x, nn: fields.nn }),
            (0x7, _, _, _) => Some(Instruction::AddConstant { x: fields.x, nn: fields.nn }),
            (0x8, _, _, 0x0) => Some(Instruction::Copy { x: fields.x, y: fields.y }),
            (0x8, _, _, 0x1) => Some(Instruction::Or { x: fields.x, y: fields.y }),
            (0x8, _, _, 0x2) => Some(Instruction::And { x: fields.x, y: fields.y }),
            (0x8, _, _, 0x3) => Some(Instruction::Xor { x: fields.x, y: fields.y }),
            (0x8, _, _, 0x4) => Some(Instruction::Add { x: fields.x, y: fields.y }),
            (0x8, _, _, 0x5) => Some(Instruction::Subtract { x: fields.x, y: fields.y }),
            (0x8, _, _, 0x6) => Some(Instruction::ShiftRight { x: fields.x, y: fields.y }),
            (0x8, _, _, 0x7) => Some(Instruction::SubtractFrom { x: fields.x, y: fields.y }),
            (0x8, _, _, 0xE) => Some(Instruction::ShiftLeft { x: fields.x, y: fields.y }),
            (0x9, _, _, 0x0) => Some(Instruction::SkipIfDifferent { x: fields.x, y: fields.y }),
            (0xA, _, _, _) => Some(Instruction::LoadIndex { nnn: fields.nnn }),
            (0xB, _, _, _) => Some(Instruction::JumpOffset { nnn: fields.nnn }),
            (0xC, _, _, _) => Some(Instruction::Random { x: fields.x, nn: fields.nn }),
            (0xD, _, _, _) => Some(Instruction::Draw { x: fields.x, y: fields.y, n: fields.n }),
            (0xE, _, 0x9, 0xE) => Some(Instruction::SkipIfKeyDown { x: fields.x }),
            (0xE, _, 0xA, 0x1) => Some(Instruction::SkipIfKeyUp { x: fields.x }),
            (0xF, _, 0x0, 0x7) => Some(Instruction::ReadDelay { x: fields.x }),
            (0xF, _, 0x0, 0xA) => Some(Instruction::WaitKey { x: fields.x }),
            (0xF, _, 0x1, 0x5) => Some(Instruction::SetDelay { x: fields.x }),
            (0xF, _, 0x1, 0x8) => Some(Instruction::SetSound { x: fields.x }),
            (0xF, _, 0x1, 0xE) => Some(Instruction::AddIndex { x: fields.x }),
            (0xF, _, 0x2, 0x9) => Some(Instruction::LoadGlyph { x: fields.x }),
            (0xF, _, 0x3, 0x3) => Some(Instruction::StoreDigits { x: fields.x }),
            (0xF, _, 0x5, 0x5) => Some(Instruction::StoreRegisters { x: fields.x }),
            (0xF, _, 0x6, 0x5) => Some(Instruction::LoadRegisters { x: fields.x }),
            _ => None,
        }
    }

    /// Whether executing the instruction sets the program counter without
    /// regard to where it stood.
    pub open spec fn is_jump(self) -> bool {
        self is Jump || self is JumpOffset || self is Return
    }

    /// Recognises the instruction that `opcode` stands for: the one
    /// well-formed instruction whose encoding it is. Fails with
    /// `UnimplementedOpcode` if there is none.
    pub fn parse(opcode: u16) -> (res: Result<Instruction, Chip8Error>)
        ensures
            res == match Instruction::of(opcode) {
                Some(instruction) => Ok::<Instruction, Chip8Error>(instruction),
                None => Err::<Instruction, Chip8Error>(Chip8Error::UnimplementedOpcode),
            },
            res matches Ok(instruction) ==> instruction.wf() && instruction.encoding() == opcode,
            res is Err ==> forall|instruction: Instruction|
                instruction.wf() ==> #[trigger] instruction.encoding() != opcode,
    {
        proof {
            lemma_parse_sound(opcode);
            assert forall|instruction: Instruction| instruction.wf() && Instruction::of(
                opcode,
            ) is None implies #[trigger] instruction.encoding() != opcode by {
                lemma_parse_complete(instruction);
            }
        }
        let fields = decode(opcode);
        match fields.nibbles {
            (0x0, 0x0, 0xE, 0x0) => Ok(Instruction::ClearDisplay),
            (0x0, 0x0, 0xE, 0xE) => Ok(Instruction::Return),
            (0x1, _, _, _) => Ok(Instruction::Jump { nnn: fields.nnn }),
            (0x2, _, _, _) => Ok(Instruction::Call { nnn: fields.nnn }),
            (0x3, _, _, _) => Ok(Instruction::SkipIfEqual { x: fields.x, nn: fields.nn }),
            (0x4, _, _, _) => Ok(Instruction::SkipIfNotEqual { x: fields.x, nn: fields.nn }),
            (0x5, _, _, 0x0) => Ok(Instruction::SkipIfSame { x: fields.x, y: fields.y }),
            (0x6, _, _, _) => Ok(Instruction::Load { x: fields.x, nn: fields.nn }),
            (0x7, _, _, _) => Ok(Instruction::AddConstant { x: fields.x, nn: fields.nn }),
            (0x8, _, _, 0x0) => Ok(Instruction::Copy { x: fields.x, y: fields.y }),
            (0x8, _, _, 0x1) => Ok(Instruction::Or { x: fields.x, y: fields.y }),
            (0x8, _, _, 0x2) => Ok(Instruction::And { x: fields.x, y: fields.y }),
            (0x8, _, _, 0x3) => Ok(Instruction::Xor { x: fields.x, y: fields.y }),
            (0x8, _, _, 0x4) => Ok(Instruction::Add { x: fields.x, y: fields.y }),
            (0x8, _, _, 0x5) => Ok(Instruction::Subtract { x: fields.x, y: fields.y }),
            (0x8, _, _, 0x6) => Ok(Instruction::ShiftRight { x: fields.x, y: fields.y }),
            (0x8, _, _, 0x7) => Ok(Instruction::SubtractFrom { x: fields.x, y: fields.y }),
            (0x8, _, _, 0xE) => Ok(Instruction::ShiftLeft { x: fields.x, y: fields.y }),
            (0x9, _, _, 0x0) => Ok(Instruction::SkipIfDifferent { x: fields.x, y: fields.y }),
            (0xA, _, _, _) => Ok(Instruction::LoadIndex { nnn: fields.nnn }),
            (0xB, _, _, _) => Ok(Instruction::JumpOffset { nnn: fields.nnn }),
            (0xC, _, _, _) => Ok(Instruction::Random { x: fields.x, nn: fields.nn }),
            (0xD, _, _, _) => Ok(Instruction::Draw { x: fields.x, y: fields.y, n: fields.n }),
            (0xE, _, 0x9, 0xE) => Ok(Instruction::SkipIfKeyDown { x: fields.x }),
            (0xE, _, 0xA, 0x1) => Ok(Instruction::SkipIfKeyUp { x: fields.x }),
            (0xF, _, 0x0, 0x7) => Ok(Instruction::ReadDelay { x: fields.x }),
            (0xF, _, 0x0, 0xA) => Ok(Instruction::WaitKey { x: fields.x }),
            (0xF, _, 0x1, 0x5) => Ok(Instruction::SetDelay { x: fields.x }),
            (0xF, _, 0x1, 0x8) => Ok(Instruction::SetSound { x: fields.x }),
            (0xF, _, 0x1, 0xE) => Ok(Instruction::AddIndex { x: fields.x }),
            (0xF, _, 0x2, 0x9) => Ok(Instruction::LoadGlyph { x: fields.x }),
            (0xF, _, 0x3, 0x3) => Ok(Instruction::StoreDigits { x: fields.x }),
            (0xF, _, 0x5, 0x5) => Ok(Instruction::StoreRegisters { x: fields.x }),
            (0xF, _, 0x6, 0x5) => Ok(Instruction::LoadRegisters { x: fields.x }),
            _ => Err(Chip8Error::UnimplementedOpcode),
        }
    }
}

/// An opcode is the positional value of its four nibbles, and its `nn` and
/// `nnn` fields are the positional values of the last two and three.
pub proof fn lemma_nibbles(opcode: u16)
    ensures
        opcode / 0x1000 < 0x10,
        opcode / 0x100 % 0x10 < 0x10,
        opcode / 0x10 % 0x10 < 0x10,
        opcode % 0x10 < 0x10,
        opcode == 0x1000 * (opcode / 0x1000) + 0x100 * (opcode / 0x100 % 0x10) + 0x10 * (opcode
            / 0x10 % 0x10) + opcode % 0x10,
        opcode % 0x100 == 0x10 * (opcode / 0x10 % 0x10) + opcode % 0x10,
        opcode % 0x1000 == 0x100 * (opcode / 0x100 % 0x10) + 0x10 * (opcode / 0x10 % 0x10) + opcode
            % 0x10,
{
    assert(opcode / 0x1000 < 0x10 && opcode / 0x100 % 0x10 < 0x10 && opcode / 0x10 % 0x10 < 0x10
        && opcode % 0x10 < 0x10) by (bit_vector);
    assert(opcode == 0x1000 * (opcode / 0x1000) + 0x100 * (opcode / 0x100 % 0x10) + 0x10 * (opcode
        / 0x10 % 0x10) + opcode % 0x10) by (bit_vector);
    assert(opcode % 0x100 == 0x10 * (opcode / 0x10 % 0x10) + opcode % 0x10) by (bit_vector);
    assert(opcode % 0x1000 == 0x100 * (opcode / 0x100 % 0x10) + 0x10 * (opcode / 0x10 % 0x10)
        + opcode % 0x10) by (bit_vector);
}

/// What `parse` accepts is a well-formed instruction whose encoding is the
/// opcode that was parsed.
pub proof fn lemma_parse_sound(opcode: u16)
    ensures
        Instruction::of(opcode) matches Some(instruction) ==> instruction.wf()
            && instruction.encoding() == opcode,
{
    lemma_nibbles(opcode);
}

/// The fields of the opcode made of the four nibbles `a`, `b`, `c`, `d`.
pub proof fn lemma_nibble_opcode(a: u16, b: u16, c: u16, d: u16)
    requires
        a < 0x10,
        b < 0x10,
        c < 0x10,
        d < 0x10,
    ensures
        0x1000 * a + 0x100 * b + 0x10 * c + d <= 0xFFFF,
        operands_of((0x1000 * a + 0x100 * b + 0x10 * c + d) as u16).nibbles == (
            a as u8,
            b as u8,
            c as u8,
            d as u8,
        ),
{
    let opcode = (0x1000 * a + 0x100 * b + 0x10 * c + d) as u16;
    assert(opcode / 0x1000 == a && opcode / 0x100 % 0x10 == b && opcode / 0x10 % 0x10 == c && opcode
        % 0x10 == d) by (bit_vector)
        requires
            a < 0x10,
            b < 0x10,
            c < 0x10,
            d < 0x10,
            opcode == 0x1000 * a + 0x100 * b + 0x10 * c + d,
    ;
}

/// The fields of the opcode made of the nibble `a`, the nibble `x` and the
/// byte `nn`.
pub proof fn lemma_byte_opcode(a: u16, x: u16, nn: u16)
    requires
        a < 0x10,
        x < 0x10,
        nn < 0x100,
    ensures
        0x1000 * a + 0x100 * x + nn <= 0xFFFF,
        operands_of((0x1000 * a + 0x100 * x + nn) as u16).nibbles.0 == a,
        operands_of((0x1000 * a + 0x100 * x + nn) as u16).x == x,
        operands_of((0x1000 * a + 0x100 * x + nn) as u16).nn == nn,
{
    let opcode = (0x1000 * a + 0x100 * x + nn) as u16;
    assert(opcode / 0x1000 == a && opcode / 0x100 % 0x10 == x && opcode % 0x100 == nn)
        by (bit_vector)
        requires
            a < 0x10,
            x < 0x10,
            nn < 0x100,
            opcode == 0x1000 * a + 0x100 * x + nn,
    ;
}

/// The fields of the opcode made of the nibble `a` and the address `nnn`.
pub proof fn lemma_address_opcode(a: u16, nnn: u16)
    requires
        a < 0x10,
        nnn < 0x1000,
    ensures
        0x1000 * a + nnn <= 0xFFFF,
        operands_of((0x1000 * a + nnn) as u16).nibbles.0 == a,
        operands_of((0x1000 * a + nnn) as u16).nnn == nnn,
{
    let opcode = (0x1000 * a + nnn) as u16;
    assert(opcode / 0x1000 == a && opcode % 0x1000 == nnn) by (bit_vector)
        requires
            a < 0x10,
            nnn < 0x1000,
            opcode == 0x1000 * a + nnn,
    ;
}

/// Every well-formed instruction is recognised from its encoding, so no
/// two instructions share an opcode.
pub proof fn lemma_parse_complete(instruction: Instruction)
    requires
        instruction.wf(),
    ensures
        0 <= instruction.encoding() <= 0xFFFF,
        Instruction::of(instruction.encoding() as u16) == Some(instruction),
{
    match instruction {
        Instruction::ClearDisplay => lemma_nibble_opcode(0x0, 0x0, 0xE, 0x0),
        Instruction::Return => lemma_nibble_opcode(0x0, 0x0, 0xE, 0xE),
        Instruction::Jump { nnn } => lemma_address_opcode(0x1, nnn),
        Instruction::Call { nnn } => lemma_address_opcode(0x2, nnn),
        Instruction::SkipIfEqual { x, nn } => lemma_byte_opcode(0x3, x as u16, nn as u16),
        Instruction::SkipIfNotEqual { x, nn } => lemma_byte_opcode(0x4, x as u16, nn as u16),
        Instruction::SkipIfSame { x, y } => lemma_nibble_opcode(0x5, x as u16, y as u16, 0x0),
        Instruction::Load { x, nn } => lemma_byte_opcode(0x6, x as u16, nn as u16),
        Instruction::AddConstant { x, nn } => lemma_byte_opcode(0x7, x as u16, nn as u16),
        Instruction::Copy { x, y } => lemma_nibble_opcode(0x8, x as u16, y as u16, 0x0),
        Instruction::Or { x, y } => lemma_nibble_opcode(0x8, x as u16, y as u16, 0x1),
        Instruction::And { x, y } => lemma_nibble_opcode(0x8, x as u16, y as u16, 0x2),
        Instruction::Xor { x, y } => lemma_nibble_opcode(0x8, x as u16, y as u16, 0x3),
        Instruction::Add { x, y } => lemma_nibble_opcode(0x8, x as u16, y as u16, 0x4),
        Instruction::Subtract { x, y } => lemma_nibble_opcode(0x8, x as u16, y as u16, 0x5),
        Instruction::ShiftRight { x, y } => lemma_nibble_opcode(0x8, x as u16, y as u16, 0x6),
        Instruction::SubtractFrom { x, y } => lemma_nibble_opcode(0x8, x as u16, y as u16, 0x7),
        Instruction::ShiftLeft { x, y } => lemma_nibble_opcode(0x8, x as u16, y as u16, 0xE),
        Instruction::SkipIfDifferent { x, y } => lemma_nibble_opcode(0x9, x as u16, y as u16, 0x0),
        Instruction::LoadIndex { nnn } => lemma_address_opcode(0xA, nnn),
        Instruction::JumpOffset { nnn } => lemma_address_opcode(0xB, nnn),
        Instruction::Random { x, nn } => lemma_byte_opcode(0xC, x as u16, nn as u16),
        Instruction::Draw { x, y, n } => lemma_nibble_opcode(0xD, x as u16, y as u16, n as u16),
        Instruction::SkipIfKeyDown { x } => lemma_nibble_opcode(0xE, x as u16, 0x9, 0xE),
        Instruction::SkipIfKeyUp { x } => lemma_nibble_opcode(0xE, x as u16, 0xA, 0x1),
        Instruction::ReadDelay { x } => lemma_nibble_opcode(0xF, x as u16, 0x0, 0x7),
        Instruction::WaitKey { x } => lemma_nibble_opcode(0xF, x as u16, 0x0, 0xA),
        Instruction::SetDelay { x } => lemma_nibble_opcode(0xF, x as u16, 0x1, 0x5),
        Instruction::SetSound { x } => lemma_nibble_opcode(0xF, x as u16, 0x1, 0x8),
        Instruction::AddIndex { x } => lemma_nibble_opcode(0xF, x as u16, 0x1, 0xE),
        Instruction::LoadGlyph { x } => lemma_nibble_opcode(0xF, x as u16, 0x2, 0x9),
        Instruction::StoreDigits { x } => lemma_nibble_opcode(0xF, x as u16, 0x3, 0x3),
        Instruction::StoreRegisters { x } => lemma_nibble_opcode(0xF, x as u16, 0x5, 0x5),
        Instruction::LoadRegisters { x } => lemma_nibble_opcode(0xF, x as u16, 0x6, 0x5),
    }
}

} // verus!
