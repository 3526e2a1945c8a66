//! The machine as a mathematical value, and the effect of every
//! instruction on it.

use crate::bytes::overlay;
use crate::decode::{opcode_of, Instruction};
use crate::error::Chip8Error;
use crate::font::font_data;
use crate::screen::{blank, collides, grid_ok, sprite_at, xor_sprite, Pixels};
use vstd::prelude::*;

verus! {

/// Choices between behaviours on which interpreters have historically
/// disagreed. With every flag off the machine behaves as the COSMAC VIP
/// interpreter did.
#[derive(Clone, Copy, Debug, PartialEq, Eq, Structural)]
pub struct Quirks {
    /// `8XY6` and `8XYE` shift `Vx` in place instead of shifting `Vy` into
    /// `Vx`.
    pub shift_in_place: bool,
    /// `BNNN` adds the register named by the highest nibble of `nnn`
    /// instead of `V0`.
    pub jump_with_vx: bool,
    /// `FX1E` sets `VF` to 1 when the sum leaves the 12-bit address range.
    pub index_overflow_flag: bool,
}

impl Quirks {
    /// Every quirk off.
    pub open spec fn none() -> Quirks {
        Quirks { shift_in_place: false, jump_with_vx: false, index_overflow_flag: false }
    }
}

impl Default for Quirks {
    /// Every quirk off.
    fn default() -> (quirks: Quirks)
        ensures
            quirks == Quirks::none(),
    {
        Quirks { shift_in_place: false, jump_with_vx: false, index_overflow_flag: false }
    }
}

/// Progress of a pending `FX0A`.
#[derive(Clone, Copy, Debug, PartialEq, Eq, Structural)]
pub enum KeyWait {
    /// No instruction is waiting for a key.
    Idle,
    /// An `FX0A` has been issued and no key has gone down since.
    Waiting,
    /// The key that went down while an `FX0A` was waiting.
    Ready(u8),
}

/// The state of one virtual machine, as a mathematical value.
#[verifier::ext_equal]
pub struct Machine {
    /// The 4096 bytes of memory.
    pub memory: Seq<u8>,
    /// The registers `V0` to `VF`.
    pub registers: Seq<u8>,
    /// The index register `I`.
    pub index: u16,
    /// Address of the next instruction.
    pub pc: u16,
    /// Return addresses, the most recent call last.
    pub stack: Seq<u16>,
    pub delay_timer: u8,
    pub sound_timer: u8,
    /// The display.
    pub pixels: Pixels,
    /// For each of the sixteen keys, whether it is held down.
    pub keys: Seq<bool>,
    pub key_wait: KeyWait,
    pub quirks: Quirks,
}

/// `x` names one of the sixteen registers (or keys).
pub open spec fn is_register(x: int) -> bool {
    0 <= x <= 0xF
}

impl Machine {
    /// The invariants of the machine state.
    pub open spec fn wf(self) -> bool {
        &&& self.memory.len() == 4096
        &&& self.registers.len() == 16
        &&& self.pc <= 0xFFF
        &&& self.stack.len() <= 16
        &&& forall|i: int| 0 <= i < self.stack.len() ==> #[trigger] self.stack[i] <= 0xFFF
        &&& grid_ok(self.pixels)
        &&& self.keys.len() == 16
        &&& (self.key_wait matches KeyWait::Ready(k) ==> k <= 0xF)
    }

    /// The machine as it is switched on: the font in place, the program
    /// counter at the start of program space, all else zero.
    pub open spec fn power_on(quirks: Quirks) -> Machine {
        Machine {
            memory: Seq::new(
                4096,
                |a: int|
                    if 0x50 <= a < 0xA0 {
                        font_data()[a - 0x50]
                    } else {
                        0u8
                    },
            ),
            registers: Seq::new(16, |i: int| 0u8),
            index: 0,
            pc: 0x200,
            stack: Seq::empty(),
            delay_timer: 0,
            sound_timer: 0,
            pixels: blank(),
            keys: Seq::new(16, |i: int| false),
            key_wait: KeyWait::Idle,
            quirks,
        }
    }

    /// `Vx := v`.
    pub open spec fn set_reg(self, x: int, v: u8) -> Machine {
        Machine { registers: self.registers.update(x, v), ..self }
    }

    /// `VF := 1` if `on`, else `VF := 0`.
    pub open spec fn set_flag(self, on: bool) -> Machine {
        self.set_reg(
            0xF,
            if on {
                1u8
            } else {
                0u8
            },
        )
    }

    /// The machine with the program counter moved on by one instruction.
    pub open spec fn advanced(self) -> Machine {
        Machine { pc: (self.pc + 2) as u16, ..self }
    }

    /// Moves the program counter past one more instruction if `cond` holds.
    /// Fails if that would leave memory.
    pub open spec fn skip_if(self, cond: bool) -> Result<Machine, Chip8Error> {
        if !cond {
            Ok(self)
        } else if self.pc + 2 > 0xFFF {
            Err(Chip8Error::InvalidOperand)
        } else {
            Ok(self.advanced())
        }
    }

    /// A program image copied into memory from address `0x200` on. Memory
    /// outside the image is untouched.
    pub open spec fn load(self, program: Seq<u8>) -> Result<Machine, Chip8Error> {
        if program.len() > 0xE00 {
            Err(Chip8Error::ImageTooLarge)
        } else {
            Ok(
                Machine {
                    memory: overlay(self.memory, 0x200, program, 0, program.len() as int),
                    ..self
                },
            )
        }
    }

    /// One tick of the 60 Hz clock: each timer that is not zero goes down by
    /// one.
    pub open spec fn tick(self) -> Machine {
        Machine {
            delay_timer: if self.delay_timer > 0 {
                (self.delay_timer - 1) as u8
            } else {
                0
            },
            sound_timer: if self.sound_timer > 0 {
                (self.sound_timer - 1) as u8
            } else {
                0
            },
            ..self
        }
    }

    /// The host reports that key `key` is now down (`pressed`) or up. A key
    /// that goes from up to down while an `FX0A` is waiting is remembered for
    /// it; of several such keys the first one counts.
    pub open spec fn set_key(self, key: int, pressed: bool) -> Result<Machine, Chip8Error> {
        if !is_register(key) {
            Err(Chip8Error::InvalidOperand)
        } else {
            Ok(
                Machine {
                    keys: self.keys.update(key, pressed),
                    key_wait: if self.key_wait == KeyWait::Waiting && pressed && !self.keys[key] {
                        KeyWait::Ready(key as u8)
                    } else {
                        self.key_wait
                    },
                    ..self
                },
            )
        }
    }

    /// `00E0`: every pixel goes dark.
    pub open spec fn clear_display(self) -> Machine {
        Machine { pixels: blank(), ..self }
    }

    /// `00EE`: return from a subroutine.
    pub open spec fn op_00ee(self) -> Result<Machine, Chip8Error> {
        if self.stack.len() == 0 {
            Err(Chip8Error::StackUnderflow)
        } else {
            Ok(Machine { pc: self.stack.last(), stack: self.stack.drop_last(), ..self })
        }
    }

    /// `1NNN`: jump to `nnn`.
    pub open spec fn op_1nnn(self, nnn: u16) -> Result<Machine, Chip8Error> {
        if nnn > 0xFFF {
            Err(Chip8Error::InvalidOperand)
        } else {
            Ok(Machine { pc: nnn, ..self })
        }
    }

    /// `2NNN`: call the subroutine at `nnn`. The address pushed is the
    /// program counter, which at this point names the instruction after the
    /// call.
    pub open spec fn op_2nnn(self, nnn: u16) -> Result<Machine, Chip8Error> {
        if nnn > 0xFFF {
            Err(Chip8Error::InvalidOperand)
        } else if self.stack.len() >= 16 {
            Err(Chip8Error::StackOverflow)
        } else {
            Ok(Machine { pc: nnn, stack: self.stack.push(self.pc), ..self })
        }
    }

    /// `3XNN`: skip the next instruction if `Vx == nn`.
    pub open spec fn op_3xnn(self, x: int, nn: u8) -> Result<Machine, Chip8Error> {
        if !is_register(x) {
            Err(Chip8Error::InvalidOperand)
        } else {
            self.skip_if(self.registers[x] == nn)
        }
    }

    /// `4XNN`: skip the next instruction if `Vx != nn`.
    pub open spec fn op_4xnn(self, x: int, nn: u8) -> Result<Machine, Chip8Error> {
        if !is_register(x) {
            Err(Chip8Error::InvalidOperand)
        } else {
            self.skip_if(self.registers[x] != nn)
        }
    }

    /// `5XY0`: skip the next instruction if `Vx == Vy`.
    pub open spec fn op_5xy0(self, x: int, y: int) -> Result<Machine, Chip8Error> {
        if !is_register(x) || !is_register(y) {
            Err(Chip8Error::InvalidOperand)
        } else {
            self.skip_if(self.registers[x] == self.registers[y])
        }
    }

    /// `6XNN`: `Vx := nn`.
    pub open spec fn op_6xnn(self, x: int, nn: u8) -> Result<Machine, Chip8Error> {
        if !is_register(x) {
            Err(Chip8Error::InvalidOperand)
        } else {
            Ok(self.set_reg(x, nn))
        }
    }

    /// `7XNN`: `Vx := (Vx + nn) mod 256`. No flag is touched.
    pub open spec fn op_7xnn(self, x: int, nn: u8) -> Result<Machine, Chip8Error> {
        if !is_register(x) {
            Err(Chip8Error::InvalidOperand)
        } else {
            Ok(self.set_reg(x, ((self.registers[x] + nn) % 256) as u8))
        }
    }

    /// `8XY0`: `Vx := Vy`.
    pub open spec fn op_8xy0(self, x: int, y: int) -> Result<Machine, Chip8Error> {
        if !is_register(x) || !is_register(y) {
            Err(Chip8Error::InvalidOperand)
        } else {
            Ok(self.set_reg(x, self.registers[y]))
        }
    }

    /// `8XY1`: `Vx := Vx OR Vy`.
    pub open spec fn op_8xy1(self, x: int, y: int) -> Result<Machine, Chip8Error> {
        if !is_register(x) || !is_register(y) {
            Err(Chip8Error::InvalidOperand)
        } else {
            Ok(self.set_reg(x, self.registers[x] | self.registers[y]))
        }
    }

    /// `8XY2`: `Vx := Vx AND Vy`.
    pub open spec fn op_8xy2(self, x: int, y: int) -> Result<Machine, Chip8Error> {
        if !is_register(x) || !is_register(y) {
            Err(Chip8Error::InvalidOperand)
        } else {
            Ok(self.set_reg(x, self.registers[x] & self.registers[y]))
        }
    }

    /// `8XY3`: `Vx := Vx XOR Vy`.
    pub open spec fn op_8xy3(self, x: int, y: int) -> Result<Machine, Chip8Error> {
        if !is_register(x) || !is_register(y) {
            Err(Chip8Error::InvalidOperand)
        } else {
            Ok(self.set_reg(x, self.registers[x] ^ self.registers[y]))
        }
    }

    /// `8XY4`: `Vx := (Vx + Vy) mod 256`, then `VF := 1` if the sum did not
    /// fit in eight bits, else `VF := 0`.
    pub open spec fn op_8xy4(self, x: int, y: int) -> Result<Machine, Chip8Error> {
        if !is_register(x) || !is_register(y) {
            Err(Chip8Error::InvalidOperand)
        } else {
            let sum = self.registers[x] + self.registers[y];
            Ok(self.set_reg(x, (sum % 256) as u8).set_flag(sum > 255))
        }
    }

    /// `8XY5`: `Vx := (Vx - Vy) mod 256`, then `VF := 1` if there was no
    /// borrow, else `VF := 0`.
    pub open spec fn op_8xy5(self, x: int, y: int) -> Result<Machine, Chip8Error> {
        if !is_register(x) || !is_register(y) {
            Err(Chip8Error::InvalidOperand)
        } else {
            let a = self.registers[x];
            let b = self.registers[y];
            Ok(self.set_reg(x, ((a - b) % 256) as u8).set_flag(a >= b))
        }
    }

    /// The register that `8XY6` and `8XYE` shift.
    pub open spec fn shift_source(self, x: int, y: int) -> u8 {
        if self.quirks.shift_in_place {
            self.registers[x]
        } else {
            self.registers[y]
        }
    }

    /// `8XY6`: `VF :=` the lowest bit of the source, then `Vx :=` the source
    /// shifted right by one.
    pub open spec fn op_8xy6(self, x: int, y: int) -> Result<Machine, Chip8Error> {
        if !is_register(x) || !is_register(y) {
            Err(Chip8Error::InvalidOperand)
        } else {
            let source = self.shift_source(x, y);
            Ok(self.set_flag(source % 2 == 1).set_reg(x, source / 2))
        }
    }

    /// `8XY7`: `Vx := (Vy - Vx) mod 256`, then `VF := 1` if there was no
    /// borrow, else `VF := 0`.
    pub open spec fn op_8xy7(self, x: int, y: int) -> Result<Machine, Chip8Error> {
        if !is_register(x) || !is_register(y) {
            Err(Chip8Error::InvalidOperand)
        } else {
            let a = self.registers[x];
            let b = self.registers[y];
            Ok(self.set_reg(x, ((b - a) % 256) as u8).set_flag(b >= a))
        }
    }

    /// `8XYE`: `VF :=` the highest bit of the source, then `Vx :=` the source
    /// shifted left by one, the bit shifted out being lost.
    pub open spec fn op_8xye(self, x: int, y: int) -> Result<Machine, Chip8Error> {
        if !is_register(x) || !is_register(y) {
            Err(Chip8Error::InvalidOperand)
        } else {
            let source = self.shift_source(x, y);
            Ok(self.set_flag(source >= 128).set_reg(x, ((source * 2) % 256) as u8))
        }
    }

    /// `9XY0`: skip the next instruction if `Vx != Vy`.
    pub open spec fn op_9xy0(self, x: int, y: int) -> Result<Machine, Chip8Error> {
        if !is_register(x) || !is_register(y) {
            Err(Chip8Error::InvalidOperand)
        } else {
            self.skip_if(self.registers[x] != self.registers[y])
        }
    }

    /// `ANNN`: `I := nnn`.
    pub open spec fn op_annn(self, nnn: u16) -> Result<Machine, Chip8Error> {
        if nnn > 0xFFF {
            Err(Chip8Error::InvalidOperand)
        } else {
            Ok(Machine { index: nnn, ..self })
        }
    }

    /// The register whose value `BNNN` adds to `nnn`.
    pub open spec fn jump_offset_register(self, nnn: u16) -> int {
        if self.quirks.jump_with_vx {
            nnn as int / 0x100
        } else {
            0
        }
    }

    /// `BNNN`: jump to `nnn` plus the value of `V0` (or, with the
    /// jump-with-Vx quirk, of the register named by the highest nibble of
    /// `nnn`).
    pub open spec fn op_bnnn(self, nnn: u16) -> Result<Machine, Chip8Error> {
        let offset = self.registers[self.jump_offset_register(nnn)];
        if nnn > 0xFFF || nnn + offset > 0xFFF {
            Err(Chip8Error::InvalidOperand)
        } else {
            Ok(Machine { pc: (nnn + offset) as u16, ..self })
        }
    }

    /// `CXNN`, once the random byte has been drawn: `Vx := random AND nn`.
    pub open spec fn op_cxnn(self, x: int, nn: u8, random: u8) -> Result<Machine, Chip8Error> {
        if !is_register(x) {
            Err(Chip8Error::InvalidOperand)
        } else {
            Ok(self.set_reg(x, random & nn))
        }
    }

    /// The `n` bytes of memory from `I` on: the sprite that `DXYN` draws.
    pub open spec fn sprite(self, n: int) -> Seq<u8> {
        sprite_at(self.memory, self.index as int, n)
    }

    /// `DXYN`: XOR the `n`-row sprite at `I` onto the display with its
    /// top-left corner at column `Vx mod 64`, row `Vy mod 32`, then
    /// `VF := 1` if a lit pixel went dark, else `VF := 0`.
    pub open spec fn draw(self, x: int, y: int, n: int) -> Result<Machine, Chip8Error> {
        if !is_register(x) || !is_register(y) || !is_register(n) {
            Err(Chip8Error::InvalidOperand)
        } else if n > 0 && self.index + n > 0x1000 {
            Err(Chip8Error::InvalidOperand)
        } else {
            let x0 = self.registers[x] % 64;
            let y0 = self.registers[y] % 32;
            let sprite = self.sprite(n);
            Ok(
                Machine {
                    pixels: xor_sprite(self.pixels, sprite, x0 as int, y0 as int),
                    ..self
                }.set_flag(collides(self.pixels, sprite, x0 as int, y0 as int)),
            )
        }
    }

    /// `EX9E`: skip the next instruction if the key named by `Vx` is down.
    pub open spec fn op_ex9e(self, x: int) -> Result<Machine, Chip8Error> {
        if !is_register(x) || !is_register(self.registers[x] as int) {
            Err(Chip8Error::InvalidOperand)
        } else {
            self.skip_if(self.keys[self.registers[x] as int])
        }
    }

    /// `EXA1`: skip the next instruction if the key named by `Vx` is up.
    pub open spec fn op_exa1(self, x: int) -> Result<Machine, Chip8Error> {
        if !is_register(x) || !is_register(self.registers[x] as int) {
            Err(Chip8Error::InvalidOperand)
        } else {
            self.skip_if(!self.keys[self.registers[x] as int])
        }
    }

    /// `FX07`: `Vx := delay_timer`.
    pub open spec fn op_fx07(self, x: int) -> Result<Machine, Chip8Error> {
        if !is_register(x) {
            Err(Chip8Error::InvalidOperand)
        } else {
            Ok(self.set_reg(x, self.delay_timer))
        }
    }

    /// `FX0A`, with the program counter already past the instruction. If a
    /// key went down while the instruction was waiting, `Vx :=` that key and
    /// the wait is over. Otherwise the program counter goes back by one
    /// instruction, so that the same instruction is issued again, and the
    /// machine waits.
    pub open spec fn op_fx0a(self, x: int) -> Result<Machine, Chip8Error> {
        if !is_register(x) {
            Err(Chip8Error::InvalidOperand)
        } else {
            match self.key_wait {
                KeyWait::Ready(key) => Ok(
                    Machine { key_wait: KeyWait::Idle, ..self.set_reg(x, key) },
                ),
                _ => if self.pc < 2 {
                    Err(Chip8Error::InvalidOperand)
                } else {
                    Ok(Machine { pc: (self.pc - 2) as u16, key_wait: KeyWait::Waiting, ..self })
                },
            }
        }
    }

    /// `FX15`: `delay_timer := Vx`.
    pub open spec fn op_fx15(self, x: int) -> Result<Machine, Chip8Error> {
        if !is_register(x) {
            Err(Chip8Error::InvalidOperand)
        } else {
            Ok(Machine { delay_timer: self.registers[x], ..self })
        }
    }

    /// `FX18`: `sound_timer := Vx`.
    pub open spec fn op_fx18(self, x: int) -> Result<Machine, Chip8Error> {
        if !is_register(x) {
            Err(Chip8Error::InvalidOperand)
        } else {
            Ok(Machine { sound_timer: self.registers[x], ..self })
        }
    }

    /// `FX1E`: `I := (I + Vx) mod 65536`. With the index-overflow quirk on,
    /// `VF := 1` in addition when `I + Vx` exceeds `0xFFF`.
    pub open spec fn add_i_index(self, x: int) -> Result<Machine, Chip8Error> {
        if !is_register(x) {
            Err(Chip8Error::InvalidOperand)
        } else {
            let sum = self.index + self.registers[x];
            let moved = Machine { index: (sum % 0x10000) as u16, ..self };
            if self.quirks.index_overflow_flag && sum > 0xFFF {
                Ok(moved.set_flag(true))
            } else {
                Ok(moved)
            }
        }
    }

    /// `FX29`: `I :=` the address of the glyph for `Vx`, `0x50 + 5 * Vx`.
    pub open spec fn op_fx29(self, x: int) -> Result<Machine, Chip8Error> {
        if !is_register(x) {
            Err(Chip8Error::InvalidOperand)
        } else {
            Ok(Machine { index: (0x50 + 5 * self.registers[x]) as u16, ..self })
        }
    }

    /// `FX33`: the hundreds, tens and ones digit of `Vx` go to memory at
    /// `I`, `I + 1` and `I + 2`.
    pub open spec fn op_fx33(self, x: int) -> Result<Machine, Chip8Error> {
        if !is_register(x) || self.index + 2 > 0xFFF {
            Err(Chip8Error::InvalidOperand)
        } else {
            let v = self.registers[x];
            let i = self.index as int;
            Ok(
                Machine {
                    memory: self.memory.update(i, v / 100).update(i + 1, (v / 10) % 10).update(
                        i + 2,
                        v % 10,
                    ),
                    ..self
                },
            )
        }
    }

    /// `FX55`: `V0` to `Vx` go to memory at `I` to `I + x`.
    pub open spec fn op_fx55(self, x: int) -> Result<Machine, Chip8Error> {
        if !is_register(x) || self.index + x > 0xFFF {
            Err(Chip8Error::InvalidOperand)
        } else {
            Ok(
                Machine {
                    memory: overlay(self.memory, self.index as int, self.registers, 0, x + 1),
                    ..self
                },
            )
        }
    }

    /// `FX65`: `V0` to `Vx` are read from memory at `I` to `I + x`.
    pub open spec fn op_fx65(self, x: int) -> Result<Machine, Chip8Error> {
        if !is_register(x) || self.index + x > 0xFFF {
            Err(Chip8Error::InvalidOperand)
        } else {
            Ok(
                Machine {
                    registers: overlay(self.registers, 0, self.memory, self.index as int, x + 1),
                    ..self
                },
            )
        }
    }

    /// The opcode at the program counter. Fails if the two bytes do not both
    /// lie inside memory.
    pub open spec fn fetch(self) -> Result<u16, Chip8Error> {
        if self.pc + 1 > 0xFFF {
            Err(Chip8Error::InvalidOperand)
        } else {
            Ok(opcode_of(self.memory[self.pc as int], self.memory[self.pc + 1]))
        }
    }

    /// The effect of an instruction on a machine whose program counter has
    /// already moved past it. `random` is the byte that `CXNN` uses; no
    /// other instruction looks at it.
    pub open spec fn apply(self, instruction: Instruction, random: u8) -> Result<
        Machine,
        Chip8Error,
    > {
        match instruction {
            Instruction::ClearDisplay => Ok(self.clear_display()),
            Instruction::Return => self.op_00ee(),
            Instruction::Jump { nnn } => self.op_1nnn(nnn),
            Instruction::Call { nnn } => self.op_2nnn(nnn),
            Instruction::SkipIfEqual { x, nn } => self.op_3xnn(x as int, nn),
            Instruction::SkipIfNotEqual { x, nn } => self.op_4xnn(x as int, nn),
            Instruction::SkipIfSame { x, y } => self.op_5xy0(x as int, y as int),
            Instruction::Load { x, nn } => self.op_6xnn(x as int, nn),
            Instruction::AddConstant { x, nn } => self.op_7xnn(x as int, nn),
            Instruction::Copy { x, y } => self.op_8xy0(x as int, y as int),
            Instruction::Or { x, y } => self.op_8xy1(x as int, y as int),
            Instruction::And { x, y } => self.op_8xy2(x as int, y as int),
            Instruction::Xor { x, y } => self.op_8xy3(x as int, y as int),
            Instruction::Add { x, y } => self.op_8xy4(x as int, y as int),
            Instruction::Subtract { x, y } => self.op_8xy5(x as int, y as int),
            Instruction::ShiftRight { x, y } => self.op_8xy6(x as int, y as int),
            Instruction::SubtractFrom { x, y } => self.op_8xy7(x as int, y as int),
            Instruction::ShiftLeft { x, y } => self.op_8xye(x as int, y as int),
            Instruction::SkipIfDifferent { x, y } => self.op_9xy0(x as int, y as int),
            Instruction::LoadIndex { nnn } => self.op_annn(nnn),
            Instruction::JumpOffset { nnn } => self.op_bnnn(nnn),
            Instruction::Random { x, nn } => self.op_cxnn(x as int, nn, random),
            Instruction::Draw { x, y, n } => self.draw(x as int, y as int, n as int),
            Instruction::SkipIfKeyDown { x } => self.op_ex9e(x as int),
            Instruction::SkipIfKeyUp { x } => self.op_exa1(x as int),
            Instruction::ReadDelay { x } => self.op_fx07(x as int),
            Instruction::WaitKey { x } => self.op_fx0a(x as int),
            Instruction::SetDelay { x } => self.op_fx15(x as int),
            Instruction::SetSound { x } => self.op_fx18(x as int),
            Instruction::AddIndex { x } => self.add_i_index(x as int),
            Instruction::LoadGlyph { x } => self.op_fx29(x as int),
            Instruction::StoreDigits { x } => self.op_fx33(x as int),
            Instruction::StoreRegisters { x } => self.op_fx55(x as int),
            Instruction::LoadRegisters { x } => self.op_fx65(x as int),
        }
    }

    /// The effect of an instruction on a machine whose program counter
    /// still stands on it. A jump or return sets the program counter
    /// itself. Before any other instruction the program counter moves on
    /// by two, which fails if that leaves memory.
    pub open spec fn execute(self, instruction: Instruction, random: u8) -> Result<
        Machine,
        Chip8Error,
    > {
        if instruction.is_jump() {
            self.apply(instruction, random)
        } else if self.pc + 2 > 0xFFF {
            Err(Chip8Error::InvalidOperand)
        } else {
            self.advanced().apply(instruction, random)
        }
    }

    /// One cycle: fetch the opcode at the program counter, recognise the
    /// instruction, execute it.
    pub open spec fn step(self, random: u8) -> Result<Machine, Chip8Error> {
        match self.fetch() {
            Err(e) => Err(e),
            Ok(opcode) => match Instruction::of(opcode) {
                None => Err(Chip8Error::UnimplementedOpcode),
                Some(instruction) => self.execute(instruction, random),
            },
        }
    }

    /// One cycle after another, as many as `randoms` has bytes; cycle `k`
    /// uses `randoms[k]`. The first failure ends the run.
    pub open spec fn run(self, randoms: Seq<u8>) -> Result<Machine, Chip8Error>
        decreases randoms.len(),
    {
        if randoms.len() == 0 {
            Ok(self)
        } else {
            match self.step(randoms[0]) {
                Err(e) => Err(e),
                Ok(next) => next.run(randoms.drop_first()),
            }
        }
    }

    /// The program counter stands on an `FX0A` for register `x`, and no key
    /// press is waiting to be taken.
    pub open spec fn blocked_on_key(self, x: int) -> bool {
        &&& is_register(x)
        &&& self.pc + 2 <= 0xFFF
        &&& self.fetch() == Ok::<u16, Chip8Error>((0xF00A + 0x100 * x) as u16)
        &&& !(self.key_wait is Ready)
    }
}

} // verus!
