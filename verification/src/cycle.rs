//! Pacing: how many instructions and timer ticks fall due as time passes,
//! and what the host is to show after each cycle.

use crate::chip::Chip8;
use crate::error::Chip8Error;
use crate::model::{KeyWait, Machine};
use vstd::prelude::*;

verus! {

/// Rate of the two countdown timers, in ticks per second.
pub const TIMER_HZ: u32 = 60;

/// Number of microseconds in a second.
pub const MICROS_PER_SECOND: u64 = 1_000_000;

/// What has fallen due over a stretch of time.
#[derive(Clone, Copy, Debug, PartialEq, Eq)]
pub struct Due {
    /// Number of instructions to execute.
    pub instructions: u64,
    /// Number of timer ticks to perform.
    pub ticks: u64,
}

/// What the host is to do with the display after a cycle.
#[derive(Clone, Copy, Debug, PartialEq, Eq, Structural)]
pub enum Exposure {
    /// An instruction has been executed: the display is to be shown.
    /// `changed` says whether it differs from what it showed before the
    /// cycle.
    Show { changed: bool },
    /// An `FX0A` is waiting for a key: nothing is to be shown.
    Hold,
}

/// Keeps the pace of the two periodic activities of a running machine:
/// instructions at a rate that the host chooses, timer ticks at 60 Hz.
///
/// The host reports how much time has passed; the controller answers how
/// many instructions and how many ticks have fallen due. Time that does not
/// add up to a whole instruction or tick is carried over, so that neither
/// rate drifts however the host slices its time.
#[derive(Clone, Copy, Debug, PartialEq, Eq)]
pub struct CycleController {
    /// The instruction rate, in instructions per second.
    pub instructions_per_second: u32,
    /// Time carried over towards the next instruction, in millionths of an
    /// instruction.
    pub instruction_credit: u64,
    /// Time carried over towards the next tick, in millionths of a tick.
    pub timer_credit: u64,
}

impl CycleController {
    /// A controller for the given instruction rate, with nothing carried
    /// over.
    pub fn new(instructions_per_second: u32) -> (controller: Self)
        ensures
            controller.instructions_per_second == instructions_per_second,
            controller.instruction_credit == 0,
            controller.timer_credit == 0,
    {
        CycleController { instructions_per_second, instruction_credit: 0, timer_credit: 0 }
    }

    /// Time towards instructions once `micros` more microseconds have
    /// passed, in millionths of an instruction: what was carried over, and
    /// the rate times the time.
    pub open spec fn instruction_time(self, micros: int) -> int {
        self.instruction_credit + micros * self.instructions_per_second
    }

    /// Time towards timer ticks once `micros` more microseconds have passed,
    /// in millionths of a tick.
    pub open spec fn timer_time(self, micros: int) -> int {
        self.timer_credit + micros * 60
    }

    /// Number of instructions that fall due in the next `micros`
    /// microseconds.
    pub open spec fn instructions_due(self, micros: int) -> int {
        self.instruction_time(micros) / 1_000_000
    }

    /// Number of timer ticks that fall due in the next `micros`
    /// microseconds.
    pub open spec fn ticks_due(self, micros: int) -> int {
        self.timer_time(micros) / 1_000_000
    }

    /// The controller after `micros` more microseconds: what is left of the
    /// time once the whole instructions and ticks are taken out of it.
    pub open spec fn after(self, micros: int) -> CycleController {
        CycleController {
            instructions_per_second: self.instructions_per_second,
            instruction_credit: (self.instruction_time(micros) % 1_000_000) as u64,
            timer_credit: (self.timer_time(micros) % 1_000_000) as u64,
        }
    }

    /// Accounts for `micros` microseconds that have passed and says what has
    /// fallen due in them.
    pub fn elapse(&mut self, micros: u32) -> (due: Due)
        ensures
            due.instructions == old(self).instructions_due(micros as int),
            due.ticks == old(self).ticks_due(micros as int),
            *final(self) == old(self).after(micros as int),
    {
        let rate = self.instructions_per_second as u64;
        assert(micros * rate <= 0xFFFF_FFFF * 0xFFFF_FFFF) by (nonlinear_arith)
            requires
                micros <= 0xFFFF_FFFF,
                rate <= 0xFFFF_FFFF,
        ;
        let second = MICROS_PER_SECOND as u128;
        let instruction_time = self.instruction_credit as u128 + (micros as u64 * rate) as u128;
        let timer_time = self.timer_credit as u128 + (micros as u64 * TIMER_HZ as u64) as u128;
        let due = Due {
            instructions: (instruction_time / second) as u64,
            ticks: (timer_time / second) as u64,
        };
        self.instruction_credit = (instruction_time % second) as u64;
        self.timer_credit = (timer_time % second) as u64;
        due
    }

    /// What a cycle that took the machine to `m` leaves for the host to do.
    pub open spec fn exposure(before: Machine, m: Machine) -> Exposure {
        if m.key_wait == KeyWait::Idle {
            Exposure::Show { changed: m.pixels != before.pixels }
        } else {
            Exposure::Hold
        }
    }

    /// What a cycle that was expected to end as `expected` has done: on
    /// success the machine is the expected one and the result says what to
    /// do with the display; on failure the error is the expected one and
    /// nothing has changed.
    pub open spec fn cycled(
        pre: Chip8,
        post: Chip8,
        res: Result<Exposure, Chip8Error>,
        expected: Result<Machine, Chip8Error>,
    ) -> bool {
        match expected {
            Ok(m) => res == Ok::<Exposure, Chip8Error>(CycleController::exposure(pre@, m)) && post@
                =~= m && post.wf(),
            Err(e) => res == Err::<Exposure, Chip8Error>(e) && post == pre,
        }
    }

    /// Runs one cycle of the machine and says what the host is to do with
    /// the display: show it after every instruction that was executed, but
    /// not while an `FX0A` holds the instruction stream.
    pub fn cycle(&self, chip: &mut Chip8) -> (res: Result<Exposure, Chip8Error>)
        requires
            old(chip).wf(),
        ensures
            exists|random: u8|
                CycleController::cycled(
                    *old(chip),
                    *final(chip),
                    res,
                    #[trigger] old(chip)@.step(random),
                ),
    {
        let stepped = chip.step();
        let ghost random = choose|random: u8|
            Chip8::stepped(*old(chip), *chip, stepped, #[trigger] old(chip)@.step(random));
        let res = match stepped {
            Ok(changed) => if chip.awaiting_key() {
                Ok(Exposure::Hold)
            } else {
                Ok(Exposure::Show { changed })
            },
            Err(e) => Err(e),
        };
        assert(CycleController::cycled(*old(chip), *chip, res, old(chip)@.step(random)));
        res
    }
}

} // verus!
