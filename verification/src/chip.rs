//! The machine that runs: its state as plain arrays and integers, and one
//! operation for each instruction, for loading, for the timers and for the
//! keys.
//!
//! The operations named after an opcode expect the program counter to have
//! moved past the instruction already, as [`Chip8::execute`] sees to.

use crate::bytes::copy_bytes;
use crate::error::Chip8Error;
use crate::font::{font_table, FONT_SIZE, FONT_START, GLYPH_SIZE};
use crate::model::{KeyWait, Machine, Quirks};
use crate::rom::{ROM, ROM_SIZE};
use crate::screen::{cells_ok, pixels_of, xor_sprite_onto};
pub use crate::screen::{SCREEN_HEIGHT, SCREEN_WIDTH};
use crate::{MEMORY_SIZE, PROGRAM_START};
use vstd::prelude::*;

verus! {

/// One virtual machine.
///
/// The fields are public so that a host can inspect the machine (a debugger
/// can show them); whoever writes to them directly answers for
/// [`Chip8::wf`], which every operation expects and maintains.
#[derive(Debug, PartialEq, Eq)]
pub struct Chip8 {
    /// 4 KiB of memory.
    pub memory: [u8; MEMORY_SIZE],
    /// Return addresses; the entries below `stack_ptr` are in use.
    pub stack: [u16; 16],
    /// Number of return addresses on the stack.
    pub stack_ptr: u8,
    /// The index register `I`.
    pub index_reg: u16,
    pub delay_timer: u8,
    pub sound_timer: u8,
    /// The registers `V0` to `VF`.
    pub var_registers: [u8; 16],
    /// Address of the next instruction.
    pub program_counter: u16,
    /// The display, row by row; a cell holds 1 for a lit pixel and 0 for a
    /// dark one.
    pub display: [[u8; SCREEN_WIDTH]; SCREEN_HEIGHT],
    /// For each key, whether the host has reported it down.
    pub keys: [bool; 16],
    pub key_wait: KeyWait,
    pub quirks: Quirks,
}

impl View for Chip8 {
    type V = Machine;

    open spec fn view(&self) -> Machine {
        Machine {
            memory: self.memory@,
            registers: self.var_registers@,
            index: self.index_reg,
            pc: self.program_counter,
            stack: self.stack@.take(self.stack_ptr as int),
            delay_timer: self.delay_timer,
            sound_timer: self.sound_timer,
            pixels: pixels_of(self.display),
            keys: self.keys@,
            key_wait: self.key_wait,
            quirks: self.quirks,
        }
    }
}

impl Chip8 {
    /// The invariants of the representation and of the machine it stands
    /// for.
    pub open spec fn wf(&self) -> bool {
        &&& self.stack_ptr <= 16
        &&& cells_ok(self.display)
        &&& self@.wf()
    }

    /// What a call that was expected to end as `expected` has done: on
    /// success the machine is the expected one and still well formed; on
    /// failure the error is the expected one and nothing has changed.
    pub open spec fn outcome(
        pre: Chip8,
        post: Chip8,
        res: Result<(), Chip8Error>,
        expected: Result<Machine, Chip8Error>,
    ) -> bool {
        match expected {
            Ok(m) => res is Ok && post@ =~= m && post.wf(),
            Err(e) => res == Err::<(), Chip8Error>(e) && post == pre,
        }
    }

    /// A machine as it is switched on, with every quirk off.
    pub fn new() -> (chip: Self)
        ensures
            chip.wf(),
            chip@ == Machine::power_on(Quirks::none()),
            chip.stack@ == Seq::new(16, |i: int| 0u16),
            chip.stack_ptr == 0,
    {
        Self::with_quirks(Quirks::default())
    }

    /// A machine as it is switched on, with the given choice of quirks.
    pub fn with_quirks(quirks: Quirks) -> (chip: Self)
        ensures
            chip.wf(),
            chip@ == Machine::power_on(quirks),
            chip.stack@ == Seq::new(16, |i: int| 0u16),
            chip.stack_ptr == 0,
    {
        let mut memory: [u8; MEMORY_SIZE] = [0; MEMORY_SIZE];
        let fonts = font_table();
        let mut i: usize = 0;
        while i < FONT_SIZE
            invariant
                i <= FONT_SIZE,
                fonts@ == crate::font::font_data(),
                forall|a: int|
                    0 <= a < MEMORY_SIZE ==> #[trigger] memory[a] == if FONT_START <= a < FONT_START
                        + i {
                        fonts[a - FONT_START]
                    } else {
                        0u8
                    },
            decreases FONT_SIZE - i,
        {
            memory[FONT_START + i] = fonts[i];
            i += 1;
        }
        let chip = Chip8 {
            memory,
            stack: [0; 16],
            stack_ptr: 0,
            index_reg: 0,
            delay_timer: 0,
            sound_timer: 0,
            var_registers: [0; 16],
            program_counter: PROGRAM_START as u16,
            display: [[0; SCREEN_WIDTH]; SCREEN_HEIGHT],
            keys: [false; 16],
            key_wait: KeyWait::Idle,
            quirks,
        };
        proof {
            let m = Machine::power_on(quirks);
            assert(chip@.memory =~= m.memory);
            assert(chip@.registers =~= m.registers);
            assert(chip@.stack =~= m.stack);
            assert(chip@.keys =~= m.keys);
            assert(chip@.pixels =~~= m.pixels);
            assert(chip.stack@ =~= Seq::new(16, |i: int| 0u16));
        }
        chip
    }

    /// Copies a program image into memory from address `0x200` on. Fails
    /// with `ImageTooLarge` if the image is longer than the 3584 bytes
    /// between there and the end of memory.
    pub fn load(&mut self, program: &[u8]) -> (res: Result<(), Chip8Error>)
        requires
            old(self).wf(),
        ensures
            Chip8::outcome(*old(self), *final(self), res, old(self)@.load(program@)),
            res is Ok <==> program@.len() <= 0xE00,
            forall|a: int| 0 <= a < 0x200 ==> final(self).memory[a] == old(self).memory[a],
    {
        let len = program.len();
        if len > ROM_SIZE {
            return Err(Chip8Error::ImageTooLarge);
        }
        copy_bytes(&mut self.memory, PROGRAM_START, program, 0, len);
        Ok(())
    }

    /// Copies a whole ROM image into memory from address `0x200` to the end
    /// of memory.
    pub fn load_rom(&mut self, rom: ROM)
        requires
            old(self).wf(),
        ensures
            final(self).wf(),
            old(self)@.load(rom.memory@) == Ok::<Machine, Chip8Error>(final(self)@),
            forall|a: int| 0 <= a < 0x200 ==> final(self).memory[a] == old(self).memory[a],
    {
        copy_bytes(&mut self.memory, PROGRAM_START, &rom.memory, 0, ROM_SIZE);
        proof {
            assert(self@ =~= old(self)@.load(rom.memory@)->Ok_0);
        }
    }

    /// One tick of the 60 Hz clock: each timer that is not yet zero goes
    /// down by one. Nothing else changes.
    pub fn tick_timers(&mut self)
        ensures
            final(self).wf() == old(self).wf(),
            final(self)@ == old(self)@.tick(),
            final(self).delay_timer <= old(self).delay_timer,
            final(self).sound_timer <= old(self).sound_timer,
    {
        if self.delay_timer > 0 {
            self.delay_timer -= 1;
        }
        if self.sound_timer > 0 {
            self.sound_timer -= 1;
        }
    }

    /// Records that the host's key `index` is now down (`pressed`) or up.
    /// Fails with `InvalidOperand` if there is no such key.
    pub fn set_key(&mut self, index: usize, pressed: bool) -> (res: Result<(), Chip8Error>)
        requires
            old(self).wf(),
        ensures
            Chip8::outcome(*old(self), *final(self), res, old(self)@.set_key(index as int, pressed)),
    {
        if index > 0xF {
            return Err(Chip8Error::InvalidOperand);
        }
        let waiting = match self.key_wait {
            KeyWait::Waiting => true,
            _ => false,
        };
        if waiting && pressed && !self.keys[index] {
            self.key_wait = KeyWait::Ready(index as u8);
        }
        self.keys[index] = pressed;
        Ok(())
    }

    /// The display, row by row.
    pub fn display(&self) -> (grid: &[[u8; SCREEN_WIDTH]; SCREEN_HEIGHT])
        ensures
            *grid == self.display,
    {
        &self.display
    }

    /// Whether the host should be sounding its tone: the sound timer has
    /// not run out.
    pub fn sound_active(&self) -> (active: bool)
        ensures
            active == (self@.sound_timer > 0),
    {
        self.sound_timer > 0
    }

    /// Whether an `FX0A` is pending: the instruction stream stands still
    /// until a key goes down.
    pub fn awaiting_key(&self) -> (waiting: bool)
        ensures
            waiting == (self@.key_wait != KeyWait::Idle),
    {
        match self.key_wait {
            KeyWait::Idle => false,
            _ => true,
        }
    }

    /// Whether the machine satisfies its invariants, for a host that has
    /// written to the fields itself.
    pub fn is_valid(&self) -> (ok: bool)
        ensures
            ok == self.wf(),
    {
        if self.stack_ptr > 16 || self.program_counter > 0xFFF {
            return false;
        }
        if let KeyWait::Ready(key) = self.key_wait {
            if key > 0xF {
                return false;
            }
        }
        let mut i: usize = 0;
        while i < self.stack_ptr as usize
            invariant
                i <= self.stack_ptr <= 16,
                forall|k: int| 0 <= k < i ==> self.stack[k] <= 0xFFF,
            decreases self.stack_ptr - i,
        {
            if self.stack[i] > 0xFFF {
                assert(self@.stack[i as int] == self.stack[i as int]);
                return false;
            }
            i += 1;
        }
        let mut r: usize = 0;
        while r < SCREEN_HEIGHT
            invariant
                r <= 32,
                forall|a: int, b: int| 0 <= a < r && 0 <= b < 64 ==> #[trigger] self.display[a][b] <= 1,
            decreases 32 - r,
        {
            let mut c: usize = 0;
            while c < SCREEN_WIDTH
                invariant
                    r < 32,
                    c <= 64,
                    forall|a: int, b: int|
                        0 <= a < r && 0 <= b < 64 ==> #[trigger] self.display[a][b] <= 1,
                    forall|b: int| 0 <= b < c ==> #[trigger] self.display[r as int][b] <= 1,
                decreases 64 - c,
            {
                if self.display[r][c] > 1 {
                    return false;
                }
                c += 1;
            }
            r += 1;
        }
        proof {
            assert forall|k: int| 0 <= k < self@.stack.len() implies #[trigger] self@.stack[k]
                <= 0xFFF by {
                assert(self@.stack[k] == self.stack[k]);
            }
        }
        true
    }

    /// `00E0`: clears the display.
    pub fn clear_display(&mut self)
        requires
            old(self).wf(),
        ensures
            final(self).wf(),
            final(self)@ == old(self)@.clear_display(),
    {
        self.display = [[0; SCREEN_WIDTH]; SCREEN_HEIGHT];
        proof {
            assert(self@.pixels =~~= crate::screen::blank());
        }
    }

    /// `00EE`: returns from a subroutine: the most recent return address leaves
    /// the stack and becomes the program counter. Fails with `StackUnderflow`
    /// if the stack is empty.
    pub fn op_00ee(&mut self) -> (res: Result<(), Chip8Error>)
        requires
            old(self).wf(),
        ensures
            Chip8::outcome(*old(self), *final(self), res, old(self)@.op_00ee()),
    {
        if self.stack_ptr == 0 {
            return Err(Chip8Error::StackUnderflow);
        }
        self.stack_ptr -= 1;
        self.program_counter = self.stack[self.stack_ptr as usize];
        proof {
            assert(self@.stack =~= old(self)@.stack.drop_last());
        }
        Ok(())
    }

    /// `1NNN`: jumps to `addr`.
    pub fn op_1nnn(&mut self, addr: u16) -> (res: Result<(), Chip8Error>)
        requires
            old(self).wf(),
        ensures
            Chip8::outcome(*old(self), *final(self), res, old(self)@.op_1nnn(addr)),
    {
        if addr > 0xFFF {
            return Err(Chip8Error::InvalidOperand);
        }
        self.program_counter = addr;
        Ok(())
    }

    /// `2NNN`: calls the subroutine at `addr`. The program counter, which by
    /// now names the instruction after the call, goes onto the stack. Fails
    /// with `StackOverflow` if sixteen calls are already pending.
    pub fn op_2nnn(&mut self, addr: u16) -> (res: Result<(), Chip8Error>)
        requires
            old(self).wf(),
        ensures
            Chip8::outcome(*old(self), *final(self), res, old(self)@.op_2nnn(addr)),
    {
        if addr > 0xFFF {
            return Err(Chip8Error::InvalidOperand);
        }
        if self.stack_ptr >= 16 {
            return Err(Chip8Error::StackOverflow);
        }
        self.stack[self.stack_ptr as usize] = self.program_counter;
        self.stack_ptr += 1;
        self.program_counter = addr;
        proof {
            assert(self@.stack =~= old(self)@.stack.push(old(self).program_counter));
        }
        Ok(())
    }

    /// Moves the program counter past one more instruction if `condition`
    /// holds. Fails with `InvalidOperand` if that would leave memory.
    fn skip_if(&mut self, condition: bool) -> (res: Result<(), Chip8Error>)
        requires
            old(self).wf(),
        ensures
            Chip8::outcome(*old(self), *final(self), res, old(self)@.skip_if(condition)),
    {
        if condition {
            if self.program_counter > 0xFFD {
                return Err(Chip8Error::InvalidOperand);
            }
            self.program_counter += 2;
        }
        Ok(())
    }

    /// `3XNN`: skips the next instruction if `Vx == nn`.
    pub fn op_3xnn(&mut self, vx: usize, nn: u8) -> (res: Result<(), Chip8Error>)
        requires
            old(self).wf(),
        ensures
            Chip8::outcome(*old(self), *final(self), res, old(self)@.op_3xnn(vx as int, nn)),
    {
        if vx > 0xF {
            return Err(Chip8Error::InvalidOperand);
        }
        self.skip_if(self.var_registers[vx] == nn)
    }

    /// `4XNN`: skips the next instruction if `Vx != nn`.
    pub fn op_4xnn(&mut self, vx: usize, nn: u8) -> (res: Result<(), Chip8Error>)
        requires
            old(self).wf(),
        ensures
            Chip8::outcome(*old(self), *final(self), res, old(self)@.op_4xnn(vx as int, nn)),
    {
        if vx > 0xF {
            return Err(Chip8Error::InvalidOperand);
        }
        self.skip_if(self.var_registers[vx] != nn)
    }

    /// `5XY0`: skips the next instruction if `Vx == Vy`.
    pub fn op_5xy0(&mut self, vx: usize, vy: usize) -> (res: Result<(), Chip8Error>)
        requires
            old(self).wf(),
        ensures
            Chip8::outcome(*old(self), *final(self), res, old(self)@.op_5xy0(vx as int, vy as int)),
    {
        if vx > 0xF || vy > 0xF {
            return Err(Chip8Error::InvalidOperand);
        }
        self.skip_if(self.var_registers[vx] == self.var_registers[vy])
    }

    /// `6XNN`: sets `Vx` to `val`.
    pub fn op_6xnn(&mut self, vx: usize, val: u8) -> (res: Result<(), Chip8Error>)
        requires
            old(self).wf(),
        ensures
            Chip8::outcome(*old(self), *final(self), res, old(self)@.op_6xnn(vx as int, val)),
    {
        if vx > 0xF {
            return Err(Chip8Error::InvalidOperand);
        }
        self.var_registers[vx] = val;
        Ok(())
    }

    /// `7XNN`: adds `val` to `Vx`, wrapping around at 256. `VF` is not
    /// touched.
    pub fn op_7xnn(&mut self, vx: usize, val: u8) -> (res: Result<(), Chip8Error>)
        requires
            old(self).wf(),
        ensures
            Chip8::outcome(*old(self), *final(self), res, old(self)@.op_7xnn(vx as int, val)),
    {
        if vx > 0xF {
            return Err(Chip8Error::InvalidOperand);
        }
        self.var_registers[vx] = self.var_registers[vx].wrapping_add(val);
        Ok(())
    }

    /// `8XY0`: sets `Vx` to the value of `Vy`.
    pub fn op_8xy0(&mut self, vx: usize, vy: usize) -> (res: Result<(), Chip8Error>)
        requires
            old(self).wf(),
        ensures
            Chip8::outcome(*old(self), *final(self), res, old(self)@.op_8xy0(vx as int, vy as int)),
    {
        if vx > 0xF || vy > 0xF {
            return Err(Chip8Error::InvalidOperand);
        }
        self.var_registers[vx] = self.var_registers[vy];
        Ok(())
    }

    /// `8XY1`: sets `Vx` to `Vx | Vy`.
    pub fn op_8xy1(&mut self, vx: usize, vy: usize) -> (res: Result<(), Chip8Error>)
        requires
            old(self).wf(),
        ensures
            Chip8::outcome(*old(self), *final(self), res, old(self)@.op_8xy1(vx as int, vy as int)),
    {
        if vx > 0xF || vy > 0xF {
            return Err(Chip8Error::InvalidOperand);
        }
        let or_val: u8 = self.var_registers[vx] | self.var_registers[vy];
        self.var_registers[vx] = or_val;
        Ok(())
    }

    /// `8XY2`: sets `Vx` to `Vx & Vy`.
    pub fn op_8xy2(&mut self, vx: usize, vy: usize) -> (res: Result<(), Chip8Error>)
        requires
            old(self).wf(),
        ensures
            Chip8::outcome(*old(self), *final(self), res, old(self)@.op_8xy2(vx as int, vy as int)),
    {
        if vx > 0xF || vy > 0xF {
            return Err(Chip8Error::InvalidOperand);
        }
        let and_val: u8 = self.var_registers[vx] & self.var_registers[vy];
        self.var_registers[vx] = and_val;
        Ok(())
    }

    /// `8XY3`: sets `Vx` to `Vx ^ Vy`.
    pub fn op_8xy3(&mut self, vx: usize, vy: usize) -> (res: Result<(), Chip8Error>)
        requires
            old(self).wf(),
        ensures
            Chip8::outcome(*old(self), *final(self), res, old(self)@.op_8xy3(vx as int, vy as int)),
    {
        if vx > 0xF || vy > 0xF {
            return Err(Chip8Error::InvalidOperand);
        }
        let xor_val: u8 = self.var_registers[vx] ^ self.var_registers[vy];
        self.var_registers[vx] = xor_val;
        Ok(())
    }

    /// `8XY4`: adds `Vy` to `Vx`, wrapping around at 256, then sets `VF` to 1
    /// if the sum did not fit in eight bits and to 0 if it did.
    ///
    /// So `VF` ends as 1 exactly when the sum exceeds 255, and `Vx` ends as
    /// the sum modulo 256, unless `Vx` is `VF` itself and holds the carry.
    pub fn op_8xy4(&mut self, vx: usize, vy: usize) -> (res: Result<(), Chip8Error>)
        requires
            old(self).wf(),
        ensures
            Chip8::outcome(*old(self), *final(self), res, old(self)@.op_8xy4(vx as int, vy as int)),
            res is Ok <==> vx <= 0xF && vy <= 0xF,
            res is Ok ==> ({
                let a = old(self).var_registers[vx as int];
                let b = old(self).var_registers[vy as int];
                &&& final(self).var_registers[0xF] <= 1
                &&& final(self).var_registers[0xF] == 1 <==> a + b > 255
                &&& vx != 0xF ==> final(self).var_registers[vx as int] == (a + b) % 256
            }),
    {
        if vx > 0xF || vy > 0xF {
            return Err(Chip8Error::InvalidOperand);
        }
        let a = self.var_registers[vx];
        let b = self.var_registers[vy];
        let carry: u8 = if a as u16 + b as u16 > 0xFF {
            1
        } else {
            0
        };
        self.var_registers[vx] = a.wrapping_add(b);
        self.var_registers[0xF] = carry;
        Ok(())
    }

    /// `8XY5`: subtracts `Vy` from `Vx`, wrapping around at 256, then sets
    /// `VF` to 1 if `Vx` was at least `Vy` and to 0 if it was not.
    ///
    /// So `VF` ends as 1 exactly when there was no borrow, and `Vx` ends as
    /// the difference modulo 256, unless `Vx` is `VF` itself and holds the
    /// flag.
    pub fn op_8xy5(&mut self, vx: usize, vy: usize) -> (res: Result<(), Chip8Error>)
        requires
            old(self).wf(),
        ensures
            Chip8::outcome(*old(self), *final(self), res, old(self)@.op_8xy5(vx as int, vy as int)),
            res is Ok <==> vx <= 0xF && vy <= 0xF,
            res is Ok ==> ({
                let a = old(self).var_registers[vx as int];
                let b = old(self).var_registers[vy as int];
                &&& final(self).var_registers[0xF] <= 1
                &&& final(self).var_registers[0xF] == 1 <==> a >= b
                &&& vx != 0xF ==> final(self).var_registers[vx as int] == (a - b) % 256
            }),
    {
        if vx > 0xF || vy > 0xF {
            return Err(Chip8Error::InvalidOperand);
        }
        let a = self.var_registers[vx];
        let b = self.var_registers[vy];
        self.var_registers[vx] = a.wrapping_sub(b);
        self.var_registers[0xF] = if a >= b {
            1
        } else {
            0
        };
        Ok(())
    }

    /// `8XY6`: sets `VF` to the lowest bit of `Vy`, then `Vx` to `Vy` shifted
    /// right by one. With the shift-in-place quirk on, `Vx` takes the place
    /// of `Vy`.
    pub fn op_8xy6(&mut self, vx: usize, vy: usize) -> (res: Result<(), Chip8Error>)
        requires
            old(self).wf(),
        ensures
            Chip8::outcome(*old(self), *final(self), res, old(self)@.op_8xy6(vx as int, vy as int)),
    {
        if vx > 0xF || vy > 0xF {
            return Err(Chip8Error::InvalidOperand);
        }
        let source = if self.quirks.shift_in_place {
            self.var_registers[vx]
        } else {
            self.var_registers[vy]
        };
        assert(source & 1 == source % 2 && source >> 1u8 == source / 2) by (bit_vector);
        self.var_registers[0xF] = source & 1;
        self.var_registers[vx] = source >> 1u8;
        Ok(())
    }

    /// `8XY7`: sets `Vx` to `Vy - Vx`, wrapping around at 256, then sets `VF`
    /// to 1 if `Vy` was at least `Vx` and to 0 if it was not.
    pub fn op_8xy7(&mut self, vx: usize, vy: usize) -> (res: Result<(), Chip8Error>)
        requires
            old(self).wf(),
        ensures
            Chip8::outcome(*old(self), *final(self), res, old(self)@.op_8xy7(vx as int, vy as int)),
    {
        if vx > 0xF || vy > 0xF {
            return Err(Chip8Error::InvalidOperand);
        }
        let a = self.var_registers[vx];
        let b = self.var_registers[vy];
        self.var_registers[vx] = b.wrapping_sub(a);
        self.var_registers[0xF] = if b >= a {
            1
        } else {
            0
        };
        Ok(())
    }

    /// `8XYE`: sets `VF` to the highest bit of `Vy`, then `Vx` to `Vy` shifted
    /// left by one. With the shift-in-place quirk on, `Vx` takes the place of
    /// `Vy`.
    pub fn op_8xye(&mut self, vx: usize, vy: usize) -> (res: Result<(), Chip8Error>)
        requires
            old(self).wf(),
        ensures
            Chip8::outcome(*old(self), *final(self), res, old(self)@.op_8xye(vx as int, vy as int)),
    {
        if vx > 0xF || vy > 0xF {
            return Err(Chip8Error::InvalidOperand);
        }
        let source = if self.quirks.shift_in_place {
            self.var_registers[vx]
        } else {
            self.var_registers[vy]
        };
        let high = source >> 7u8;
        let low = (source & 0x7F) << 1u8;
        assert(high == (if source >= 128 { 1u8 } else { 0u8 }) && low == (source * 2) % 256)
            by (bit_vector)
            requires
                high == source >> 7u8,
                low == (source & 0x7F) << 1u8,
        ;
        self.var_registers[0xF] = high;
        self.var_registers[vx] = low;
        Ok(())
    }

    /// `9XY0`: skips the next instruction if `Vx != Vy`.
    pub fn op_9xy0(&mut self, vx: usize, vy: usize) -> (res: Result<(), Chip8Error>)
        requires
            old(self).wf(),
        ensures
            Chip8::outcome(*old(self), *final(self), res, old(self)@.op_9xy0(vx as int, vy as int)),
    {
        if vx > 0xF || vy > 0xF {
            return Err(Chip8Error::InvalidOperand);
        }
        self.skip_if(self.var_registers[vx] != self.var_registers[vy])
    }

    /// `ANNN`: sets the index register to `nnn`.
    pub fn op_annn(&mut self, nnn: u16) -> (res: Result<(), Chip8Error>)
        requires
            old(self).wf(),
        ensures
            Chip8::outcome(*old(self), *final(self), res, old(self)@.op_annn(nnn)),
    {
        if nnn > 0xFFF {
            return Err(Chip8Error::InvalidOperand);
        }
        self.index_reg = nnn;
        Ok(())
    }

    /// `BNNN`: jumps to `nnn + V0`. With the jump-with-Vx quirk on, the
    /// register named by the highest nibble of `nnn` takes the place of
    /// `V0`.
    pub fn op_bnnn(&mut self, nnn: u16) -> (res: Result<(), Chip8Error>)
        requires
            old(self).wf(),
        ensures
            Chip8::outcome(*old(self), *final(self), res, old(self)@.op_bnnn(nnn)),
    {
        if nnn > 0xFFF {
            return Err(Chip8Error::InvalidOperand);
        }
        let offset_register: usize = if self.quirks.jump_with_vx {
            (nnn >> 8u16) as usize
        } else {
            0x0
        };
        assert(nnn >> 8u16 == nnn / 0x100) by (bit_vector);
        let next_addr = nnn + self.var_registers[offset_register] as u16;
        if next_addr > 0xFFF {
            return Err(Chip8Error::InvalidOperand);
        }
        self.program_counter = next_addr;
        Ok(())
    }

    /// `CXNN`: sets `Vx` to a random byte ANDed with `nn`.
    pub fn op_cxnn(&mut self, x: usize, nn: u8) -> (res: Result<(), Chip8Error>)
        requires
            old(self).wf(),
        ensures
            exists|random: u8|
                Chip8::outcome(
                    *old(self),
                    *final(self),
                    res,
                    #[trigger] old(self)@.op_cxnn(x as int, nn, random),
                ),
    {
        let rand_num = random_byte();
        self.op_cxnn_with(x, nn, rand_num)
    }

    /// `CXNN` with the random byte supplied by the caller: sets `Vx` to
    /// `random & nn`.
    pub fn op_cxnn_with(&mut self, x: usize, nn: u8, random: u8) -> (res: Result<(), Chip8Error>)
        requires
            old(self).wf(),
        ensures
            Chip8::outcome(*old(self), *final(self), res, old(self)@.op_cxnn(x as int, nn, random)),
    {
        if x > 0xF {
            return Err(Chip8Error::InvalidOperand);
        }
        let new_val = random & nn;
        self.var_registers[x] = new_val;
        Ok(())
    }

    /// `DXYN`: draws the `n`-row sprite found at `I` at the position held in
    /// `Vx` and `Vy`, and records in `VF` whether a lit pixel went dark.
    pub fn draw(&mut self, vx: usize, vy: usize, n: usize) -> (res: Result<(), Chip8Error>)
        requires
            old(self).wf(),
        ensures
            Chip8::outcome(
                *old(self),
                *final(self),
                res,
                old(self)@.draw(vx as int, vy as int, n as int),
            ),
    {
        if vx > 0xF || vy > 0xF || n > 0xF {
            return Err(Chip8Error::InvalidOperand);
        }
        let base = self.index_reg as usize;
        if n > 0 && base + n > MEMORY_SIZE {
            return Err(Chip8Error::InvalidOperand);
        }
        let x0 = self.var_registers[vx] as usize % SCREEN_WIDTH;
        let y0 = self.var_registers[vy] as usize % SCREEN_HEIGHT;
        let erased = xor_sprite_onto(&mut self.display, &self.memory, base, n, x0, y0);
        self.var_registers[0xF] = if erased {
            1
        } else {
            0
        };
        Ok(())
    }

    /// `EX9E`: skips the next instruction if the key named by `Vx` is down.
    /// Fails with `InvalidOperand` if `Vx` names no key.
    pub fn op_ex9e(&mut self, vx: usize) -> (res: Result<(), Chip8Error>)
        requires
            old(self).wf(),
        ensures
            Chip8::outcome(*old(self), *final(self), res, old(self)@.op_ex9e(vx as int)),
    {
        if vx > 0xF {
            return Err(Chip8Error::InvalidOperand);
        }
        let key = self.var_registers[vx] as usize;
        if key > 0xF {
            return Err(Chip8Error::InvalidOperand);
        }
        self.skip_if(self.keys[key])
    }

    /// `EXA1`: skips the next instruction if the key named by `Vx` is up.
    /// Fails with `InvalidOperand` if `Vx` names no key.
    pub fn op_exa1(&mut self, vx: usize) -> (res: Result<(), Chip8Error>)
        requires
            old(self).wf(),
        ensures
            Chip8::outcome(*old(self), *final(self), res, old(self)@.op_exa1(vx as int)),
    {
        if vx > 0xF {
            return Err(Chip8Error::InvalidOperand);
        }
        let key = self.var_registers[vx] as usize;
        if key > 0xF {
            return Err(Chip8Error::InvalidOperand);
        }
        self.skip_if(!self.keys[key])
    }

    /// `FX07`: sets `Vx` to the delay timer.
    pub fn op_fx07(&mut self, vx: usize) -> (res: Result<(), Chip8Error>)
        requires
            old(self).wf(),
        ensures
            Chip8::outcome(*old(self), *final(self), res, old(self)@.op_fx07(vx as int)),
    {
        if vx > 0xF {
            return Err(Chip8Error::InvalidOperand);
        }
        self.var_registers[vx] = self.delay_timer;
        Ok(())
    }

    /// `FX0A`: waits for a key. Called with the program counter already past
    /// the instruction. If a key has gone down since the wait began, `Vx`
    /// takes its number and execution goes on; otherwise the program counter
    /// steps back onto the instruction, which is thereby issued again.
    pub fn op_fx0a(&mut self, vx: usize) -> (res: Result<(), Chip8Error>)
        requires
            old(self).wf(),
        ensures
            Chip8::outcome(*old(self), *final(self), res, old(self)@.op_fx0a(vx as int)),
    {
        if vx > 0xF {
            return Err(Chip8Error::InvalidOperand);
        }
        match self.key_wait {
            KeyWait::Ready(key) => {
                self.var_registers[vx] = key;
                self.key_wait = KeyWait::Idle;
            },
            _ => {
                if self.program_counter < 2 {
                    return Err(Chip8Error::InvalidOperand);
                }
                self.program_counter -= 2;
                self.key_wait = KeyWait::Waiting;
            },
        }
        Ok(())
    }

    /// `FX15`: sets the delay timer to `Vx`.
    pub fn op_fx15(&mut self, vx: usize) -> (res: Result<(), Chip8Error>)
        requires
            old(self).wf(),
        ensures
            Chip8::outcome(*old(self), *final(self), res, old(self)@.op_fx15(vx as int)),
    {
        if vx > 0xF {
            return Err(Chip8Error::InvalidOperand);
        }
        self.delay_timer = self.var_registers[vx];
        Ok(())
    }

    /// `FX18`: sets the sound timer to `Vx`.
    pub fn op_fx18(&mut self, vx: usize) -> (res: Result<(), Chip8Error>)
        requires
            old(self).wf(),
        ensures
            Chip8::outcome(*old(self), *final(self), res, old(self)@.op_fx18(vx as int)),
    {
        if vx > 0xF {
            return Err(Chip8Error::InvalidOperand);
        }
        self.sound_timer = self.var_registers[vx];
        Ok(())
    }

    /// `FX1E`: adds `Vx` to the index register, wrapping around at 65536.
    /// With the index-overflow quirk on, `VF` becomes 1 when the sum exceeds
    /// `0xFFF`.
    pub fn add_i_index(&mut self, v_reg: usize) -> (res: Result<(), Chip8Error>)
        requires
            old(self).wf(),
        ensures
            Chip8::outcome(*old(self), *final(self), res, old(self)@.add_i_index(v_reg as int)),
    {
        if v_reg > 0xF {
            return Err(Chip8Error::InvalidOperand);
        }
        let addend = self.var_registers[v_reg] as u16;
        let overflows = self.index_reg as u32 + addend as u32 > 0xFFF;
        self.index_reg = self.index_reg.wrapping_add(addend);
        if self.quirks.index_overflow_flag && overflows {
            self.var_registers[0xF] = 1;
        }
        Ok(())
    }

    /// `FX29`: points the index register at the glyph for the value of `Vx`.
    pub fn op_fx29(&mut self, vx: usize) -> (res: Result<(), Chip8Error>)
        requires
            old(self).wf(),
        ensures
            Chip8::outcome(*old(self), *final(self), res, old(self)@.op_fx29(vx as int)),
    {
        if vx > 0xF {
            return Err(Chip8Error::InvalidOperand);
        }
        let digit = self.var_registers[vx] as usize;
        assert(GLYPH_SIZE * digit == 5 * digit);
        self.index_reg = (FONT_START + GLYPH_SIZE * digit) as u16;
        Ok(())
    }

    /// `FX33`: writes the three decimal digits of `Vx`, hundreds first, to
    /// memory at `I`, `I + 1` and `I + 2`.
    pub fn op_fx33(&mut self, vx: usize) -> (res: Result<(), Chip8Error>)
        requires
            old(self).wf(),
        ensures
            Chip8::outcome(*old(self), *final(self), res, old(self)@.op_fx33(vx as int)),
    {
        if vx > 0xF {
            return Err(Chip8Error::InvalidOperand);
        }
        let base = self.index_reg as usize;
        if base > 0xFFD {
            return Err(Chip8Error::InvalidOperand);
        }
        let value = self.var_registers[vx];
        self.memory[base] = value / 100;
        self.memory[base + 1] = (value / 10) % 10;
        self.memory[base + 2] = value % 10;
        Ok(())
    }

    /// `FX55`: copies `V0` to `Vx` into memory at `I` to `I + x`.
    pub fn op_fx55(&mut self, vx: usize) -> (res: Result<(), Chip8Error>)
        requires
            old(self).wf(),
        ensures
            Chip8::outcome(*old(self), *final(self), res, old(self)@.op_fx55(vx as int)),
    {
        if vx > 0xF {
            return Err(Chip8Error::InvalidOperand);
        }
        let base = self.index_reg as usize;
        if base + vx > 0xFFF {
            return Err(Chip8Error::InvalidOperand);
        }
        copy_bytes(&mut self.memory, base, &self.var_registers, 0, vx + 1);
        Ok(())
    }

    /// `FX65`: fills `V0` to `Vx` from memory at `I` to `I + x`.
    pub fn op_fx65(&mut self, vx: usize) -> (res: Result<(), Chip8Error>)
        requires
            old(self).wf(),
        ensures
            Chip8::outcome(*old(self), *final(self), res, old(self)@.op_fx65(vx as int)),
    {
        if vx > 0xF {
            return Err(Chip8Error::InvalidOperand);
        }
        let base = self.index_reg as usize;
        if base + vx > 0xFFF {
            return Err(Chip8Error::InvalidOperand);
        }
        copy_bytes(&mut self.var_registers, 0, &self.memory, base, vx + 1);
        Ok(())
    }
}

/// A byte from `rand::random::<u8>()`, which samples the thread-local
/// generator of the `rand` crate. Nothing is claimed of the value: every
/// byte is possible, and two calls need not agree. The call takes no input;
/// it panics only if the operating system fails to seed the generator when
/// a thread first uses it.
#[verifier::external_body]
pub(crate) fn random_byte() -> (byte: u8) {
    rand::random::<u8>()
}

} // verus!
