//! The fetch, decode, execute cycle.

use crate::chip::{random_byte, Chip8};
use crate::decode::{fetch_opcode, Instruction};
use crate::error::Chip8Error;
use crate::laws::lemma_draw_changes_display;
use crate::model::Machine;
use crate::screen::{any_lit, has_ink, lemma_pixels_determine_cells};
use vstd::prelude::*;

verus! {

impl Chip8 {
    /// What a cycle that was expected to end as `expected` has done: on
    /// success the machine is the expected one and the result says whether
    /// the display now differs from what it showed before; on failure the
    /// error is the expected one and nothing has changed.
    pub open spec fn stepped(
        pre: Chip8,
        post: Chip8,
        res: Result<bool, Chip8Error>,
        expected: Result<Machine, Chip8Error>,
    ) -> bool {
        match expected {
            Ok(m) => res == Ok::<bool, Chip8Error>(m.pixels != pre@.pixels) && post@ =~= m
                && post.wf(),
            Err(e) => res == Err::<bool, Chip8Error>(e) && post == pre,
        }
    }

    /// Reads the opcode at the program counter, high byte first. Fails with
    /// `InvalidOperand` if its two bytes do not both lie inside memory.
    pub fn fetch(&self) -> (res: Result<u16, Chip8Error>)
        ensures
            res == self@.fetch(),
    {
        let pc = self.program_counter as usize;
        if pc + 1 > 0xFFF {
            return Err(Chip8Error::InvalidOperand);
        }
        Ok(fetch_opcode(self.memory[pc], self.memory[pc + 1]))
    }

    /// Executes one instruction on a machine whose program counter stands
    /// on it, and says whether the display changed. `random` is the byte
    /// that `CXNN` uses.
    pub fn execute(&mut self, instruction: Instruction, random: u8) -> (res: Result<
        bool,
        Chip8Error,
    >)
        requires
            old(self).wf(),
        ensures
            Chip8::stepped(*old(self), *final(self), res, old(self)@.execute(instruction, random)),
            res matches Ok(changed) ==> changed == (final(self).display != old(self).display),
    {
        let jump = matches!(
            instruction,
            Instruction::Jump { .. } | Instruction::JumpOffset { .. } | Instruction::Return
        );
        if !jump {
            if self.program_counter > 0xFFD {
                return Err(Chip8Error::InvalidOperand);
            }
            self.program_counter += 2;
        }
        let ghost issued = self@;
        assert(issued =~= if jump {
            old(self)@
        } else {
            old(self)@.advanced()
        });
        let mut changed = false;
        let done = match instruction {
            Instruction::ClearDisplay => {
                changed = any_lit(&self.display);
                self.clear_display();
                Ok(())
            },
            Instruction::Return => self.op_00ee(),
            Instruction::Jump { nnn } => self.op_1nnn(nnn),
            Instruction::Call { nnn } => self.op_2nnn(nnn),
            Instruction::SkipIfEqual { x, nn } => self.op_3xnn(x, nn),
            Instruction::SkipIfNotEqual { x, nn } => self.op_4xnn(x, nn),
            Instruction::SkipIfSame { x, y } => self.op_5xy0(x, y),
            Instruction::Load { x, nn } => self.op_6xnn(x, nn),
            Instruction::AddConstant { x, nn } => self.op_7xnn(x, nn),
            Instruction::Copy { x, y } => self.op_8xy0(x, y),
            Instruction::Or { x, y } => self.op_8xy1(x, y),
            Instruction::And { x, y } => self.op_8xy2(x, y),
            Instruction::Xor { x, y } => self.op_8xy3(x, y),
            Instruction::Add { x, y } => self.op_8xy4(x, y),
            Instruction::Subtract { x, y } => self.op_8xy5(x, y),
            Instruction::ShiftRight { x, y } => self.op_8xy6(x, y),
            Instruction::SubtractFrom { x, y } => self.op_8xy7(x, y),
            Instruction::ShiftLeft { x, y } => self.op_8xye(x, y),
            Instruction::SkipIfDifferent { x, y } => self.op_9xy0(x, y),
            Instruction::LoadIndex { nnn } => self.op_annn(nnn),
            Instruction::JumpOffset { nnn } => self.op_bnnn(nnn),
            Instruction::Random { x, nn } => self.op_cxnn_with(x, nn, random),
            Instruction::Draw { x, y, n } => {
                let drawn = self.draw(x, y, n);
                if drawn.is_ok() {
                    changed = has_ink(&self.memory, self.index_reg as usize, n);
                    proof {
                        lemma_draw_changes_display(issued, x as int, y as int, n as int);
                    }
                }
                drawn
            },
            Instruction::SkipIfKeyDown { x } => self.op_ex9e(x),
            Instruction::SkipIfKeyUp { x } => self.op_exa1(x),
            Instruction::ReadDelay { x } => self.op_fx07(x),
            Instruction::WaitKey { x } => self.op_fx0a(x),
            Instruction::SetDelay { x } => self.op_fx15(x),
            Instruction::SetSound { x } => self.op_fx18(x),
            Instruction::AddIndex { x } => self.add_i_index(x),
            Instruction::LoadGlyph { x } => self.op_fx29(x),
            Instruction::StoreDigits { x } => self.op_fx33(x),
            Instruction::StoreRegisters { x } => self.op_fx55(x),
            Instruction::LoadRegisters { x } => self.op_fx65(x),
        };
        match done {
            Ok(()) => {
                proof {
                    if self@.pixels == old(self)@.pixels {
                        lemma_pixels_determine_cells(self.display, old(self).display);
                    }
                }
                Ok(changed)
            },
            Err(e) => {
                if !jump {
                    self.program_counter -= 2;
                }
                Err(e)
            },
        }
    }

    /// One cycle with the random byte supplied by the caller: fetches the
    /// opcode at the program counter, recognises the instruction, executes
    /// it, and says whether the display changed.
    pub fn step_with(&mut self, random: u8) -> (res: Result<bool, Chip8Error>)
        requires
            old(self).wf(),
        ensures
            Chip8::stepped(*old(self), *final(self), res, old(self)@.step(random)),
            res matches Ok(changed) ==> changed == (final(self).display != old(self).display),
    {
        let opcode = self.fetch()?;
        let instruction = Instruction::parse(opcode)?;
        self.execute(instruction, random)
    }

    /// One cycle: fetches the opcode at the program counter, recognises the
    /// instruction, executes it, and says whether the display changed. A
    /// `CXNN` draws its byte from the random generator.
    pub fn step(&mut self) -> (res: Result<bool, Chip8Error>)
        requires
            old(self).wf(),
        ensures
            exists|random: u8|
                Chip8::stepped(*old(self), *final(self), res, #[trigger] old(self)@.step(random)),
            res matches Ok(changed) ==> changed == (final(self).display != old(self).display),
    {
        let fetched = self.fetch();
        let parsed = match fetched {
            Ok(opcode) => Instruction::parse(opcode),
            Err(e) => Err(e),
        };
        match parsed {
            Ok(instruction) => {
                let random = match instruction {
                    Instruction::Random { .. } => random_byte(),
                    _ => 0,
                };
                let res = self.execute(instruction, random);
                assert(Chip8::stepped(*old(self), *self, res, old(self)@.step(random)));
                res
            },
            Err(e) => {
                assert(Chip8::stepped(*old(self), *self, Err(e), old(self)@.step(0u8)));
                Err(e)
            },
        }
    }
}

} // verus!
