//! What holds of the machine beyond the effect of each single operation.

use crate::cycle::CycleController;
use crate::decode::{lemma_parse_complete, Instruction};
use crate::error::Chip8Error;
use crate::model::{is_register, KeyWait, Machine};
use crate::screen::{
    grid_ok, lemma_col_offset, lemma_row_offset, sprite_bit, sprite_covers, sprite_has_ink,
    xor_sprite, Pixels,
};
use vstd::prelude::*;

verus! {

/// A byte that is not zero has a set bit.
pub proof fn lemma_nonzero_has_bit(row: u8) -> (col: int)
    requires
        row != 0,
    ensures
        0 <= col < 8,
        sprite_bit(row, col),
{
    assert(row != 0 ==> (row >> 7u8) & 1u8 == 1u8 || (row >> 6u8) & 1u8 == 1u8 || (row >> 5u8) & 1u8
        == 1u8 || (row >> 4u8) & 1u8 == 1u8 || (row >> 3u8) & 1u8 == 1u8 || (row >> 2u8) & 1u8
        == 1u8 || (row >> 1u8) & 1u8 == 1u8 || (row >> 0u8) & 1u8 == 1u8) by (bit_vector);
    if sprite_bit(row, 0) {
        0
    } else if sprite_bit(row, 1) {
        1
    } else if sprite_bit(row, 2) {
        2
    } else if sprite_bit(row, 3) {
        3
    } else if sprite_bit(row, 4) {
        4
    } else if sprite_bit(row, 5) {
        5
    } else if sprite_bit(row, 6) {
        6
    } else {
        7
    }
}

/// The zero byte has no set bit.
pub proof fn lemma_zero_has_no_bit(col: int)
    requires
        0 <= col < 8,
    ensures
        !sprite_bit(0u8, col),
{
    let shift = (7 - col) as u8;
    assert((0u8 >> shift) & 1u8 == 0u8) by (bit_vector);
}

/// Drawing a sprite changes the display exactly when the sprite has a set
/// bit.
pub proof fn lemma_xor_changes_iff_ink(grid: Pixels, sprite: Seq<u8>, x0: int, y0: int)
    requires
        grid_ok(grid),
        sprite.len() <= 32,
        0 <= x0 < 64,
        0 <= y0 < 32,
    ensures
        (xor_sprite(grid, sprite, x0, y0) != grid) == sprite_has_ink(sprite),
{
    let drawn = xor_sprite(grid, sprite, x0, y0);
    if sprite_has_ink(sprite) {
        let i = choose|i: int| 0 <= i < sprite.len() && #[trigger] sprite[i] != 0;
        let j = lemma_nonzero_has_bit(sprite[i]);
        let r = (y0 + i) % 32;
        let c = (x0 + j) % 64;
        lemma_row_offset(r, y0, i);
        lemma_col_offset(c, x0, j);
        assert(sprite_covers(sprite, x0, y0, r, c));
        assert(drawn[r][c] != grid[r][c]);
    } else {
        assert forall|r: int, c: int| 0 <= r < 32 && 0 <= c < 64 implies !sprite_covers(
            sprite,
            x0,
            y0,
            r,
            c,
        ) by {
            let row = (r - y0) % 32;
            let col = (c - x0) % 64;
            if row < sprite.len() && col < 8 {
                assert(sprite[row] == 0);
                lemma_zero_has_no_bit(col);
            }
        }
        assert(drawn =~~= grid);
    }
}

/// A `DXYN` that succeeds changes the display exactly when its sprite has
/// a set bit.
pub proof fn lemma_draw_changes_display(m: Machine, x: int, y: int, n: int)
    requires
        m.wf(),
        m.draw(x, y, n) is Ok,
    ensures
        (m.draw(x, y, n)->Ok_0.pixels != m.pixels) == sprite_has_ink(m.sprite(n)),
{
    let x0 = (m.registers[x] % 64) as int;
    let y0 = (m.registers[y] % 32) as int;
    lemma_xor_changes_iff_ink(m.pixels, m.sprite(n), x0, y0);
}

/// XORing the same sprite onto the same place twice gives back the grid.
pub proof fn lemma_xor_twice(grid: Pixels, sprite: Seq<u8>, x0: int, y0: int)
    requires
        grid_ok(grid),
    ensures
        xor_sprite(xor_sprite(grid, sprite, x0, y0), sprite, x0, y0) == grid,
{
    assert(xor_sprite(xor_sprite(grid, sprite, x0, y0), sprite, x0, y0) =~~= grid);
}

/// `DXYN` undoes itself: drawing the same sprite at the same place a second
/// time restores every pixel.
///
/// The second draw is at the same place when the two coordinate registers
/// give the same position as before. That is so whenever neither of them is
/// `VF`, which the first draw overwrites.
pub proof fn lemma_draw_twice_restores(m: Machine, x: int, y: int, n: int)
    requires
        m.wf(),
        m.draw(x, y, n) is Ok,
        m.draw(x, y, n)->Ok_0.registers[x] % 64 == m.registers[x] % 64,
        m.draw(x, y, n)->Ok_0.registers[y] % 32 == m.registers[y] % 32,
    ensures
        m.draw(x, y, n)->Ok_0.draw(x, y, n) is Ok,
        m.draw(x, y, n)->Ok_0.draw(x, y, n)->Ok_0.pixels == m.pixels,
{
    let once = m.draw(x, y, n)->Ok_0;
    let x0 = (m.registers[x] % 64) as int;
    let y0 = (m.registers[y] % 32) as int;
    assert(once.sprite(n) =~= m.sprite(n));
    lemma_xor_twice(m.pixels, m.sprite(n), x0, y0);
}

/// Neither coordinate register of a `DXYN` being `VF`, the second of two
/// equal draws restores the display.
pub proof fn lemma_draw_twice_restores_without_flag(m: Machine, x: int, y: int, n: int)
    requires
        m.wf(),
        m.draw(x, y, n) is Ok,
        x != 0xF,
        y != 0xF,
    ensures
        m.draw(x, y, n)->Ok_0.draw(x, y, n) is Ok,
        m.draw(x, y, n)->Ok_0.draw(x, y, n)->Ok_0.pixels == m.pixels,
{
    lemma_draw_twice_restores(m, x, y, n);
}

/// A cycle on a pending `FX0A` changes nothing but to note that the machine
/// waits: the program counter stays on the instruction.
pub proof fn lemma_wait_blocks(m: Machine, x: int, random: u8)
    requires
        m.wf(),
        m.blocked_on_key(x),
    ensures
        m.step(random) == Ok::<Machine, Chip8Error>(Machine { key_wait: KeyWait::Waiting, ..m }),
        m.step(random)->Ok_0.pc == m.pc,
        m.step(random)->Ok_0.wf(),
        m.step(random)->Ok_0.blocked_on_key(x),
{
    lemma_parse_complete(Instruction::WaitKey { x: x as usize });
    let after = m.advanced().op_fx0a(x)->Ok_0;
    assert(after =~= Machine { key_wait: KeyWait::Waiting, ..m });
}

/// However many cycles run on a pending `FX0A`, the program counter stays
/// on the instruction as long as no key goes down.
pub proof fn lemma_wait_blocks_repeatedly(m: Machine, x: int, randoms: Seq<u8>)
    requires
        m.wf(),
        m.blocked_on_key(x),
        randoms.len() > 0,
    ensures
        m.run(randoms) == Ok::<Machine, Chip8Error>(Machine { key_wait: KeyWait::Waiting, ..m }),
        m.run(randoms)->Ok_0.pc == m.pc,
    decreases randoms.len(),
{
    lemma_wait_blocks(m, x, randoms[0]);
    let next = m.step(randoms[0])->Ok_0;
    let rest = randoms.drop_first();
    if rest.len() > 0 {
        lemma_wait_blocks_repeatedly(next, x, rest);
    } else {
        assert(next.run(rest) == Ok::<Machine, Chip8Error>(next));
    }
}

/// A key that goes from up to down while an `FX0A` waits ends the wait: the
/// next cycle puts the key's number into `Vx` and moves the program counter
/// on by two.
pub proof fn lemma_key_press_ends_wait(m: Machine, x: int, key: int, random: u8)
    requires
        m.wf(),
        m.blocked_on_key(x),
        m.key_wait == KeyWait::Waiting,
        is_register(key),
        !m.keys[key],
    ensures
        m.set_key(key, true) is Ok,
        m.set_key(key, true)->Ok_0.step(random) is Ok,
        m.set_key(key, true)->Ok_0.step(random)->Ok_0.pc == m.pc + 2,
        m.set_key(key, true)->Ok_0.step(random)->Ok_0.registers[x] == key,
        m.set_key(key, true)->Ok_0.step(random)->Ok_0.key_wait == KeyWait::Idle,
{
    lemma_parse_complete(Instruction::WaitKey { x: x as usize });
}

/// A key event that is no transition from up to down leaves a waiting
/// `FX0A` waiting.
pub proof fn lemma_other_key_events_keep_wait(m: Machine, x: int, key: int, pressed: bool)
    requires
        m.wf(),
        m.blocked_on_key(x),
        is_register(key),
        !pressed || m.keys[key],
    ensures
        m.set_key(key, pressed) is Ok,
        m.set_key(key, pressed)->Ok_0.wf(),
        m.set_key(key, pressed)->Ok_0.blocked_on_key(x),
        m.set_key(key, pressed)->Ok_0.pc == m.pc,
{
}

/// Executing an instruction keeps the invariants of the machine: the
/// program counter stays inside memory, the stack holds at most sixteen
/// addresses, the display keeps its dimensions.
pub proof fn lemma_execute_preserves_wf(m: Machine, instruction: Instruction, random: u8)
    requires
        m.wf(),
        m.execute(instruction, random) is Ok,
    ensures
        m.execute(instruction, random)->Ok_0.wf(),
{
}

/// Only `FX15` changes the delay timer and only `FX18` the sound timer:
/// apart from these two instructions the timers change by ticking alone.
pub proof fn lemma_timers_set_only_by_their_instructions(
    m: Machine,
    instruction: Instruction,
    random: u8,
)
    requires
        m.wf(),
        m.execute(instruction, random) is Ok,
    ensures
        !(instruction is SetDelay) ==> m.execute(instruction, random)->Ok_0.delay_timer
            == m.delay_timer,
        !(instruction is SetSound) ==> m.execute(instruction, random)->Ok_0.sound_timer
            == m.sound_timer,
{
}

/// A tick never raises a timer, and never takes one below zero.
pub proof fn lemma_tick_counts_down(m: Machine)
    ensures
        m.tick().delay_timer <= m.delay_timer,
        m.tick().sound_timer <= m.sound_timer,
        m.delay_timer > 0 ==> m.tick().delay_timer == m.delay_timer - 1,
        m.sound_timer > 0 ==> m.tick().sound_timer == m.sound_timer - 1,
        m.tick().wf() == m.wf(),
{
}

/// A return undoes the call before it: the program counter and the stack
/// are what they were.
pub proof fn lemma_return_undoes_call(m: Machine, nnn: u16)
    requires
        m.wf(),
        m.op_2nnn(nnn) is Ok,
    ensures
        m.op_2nnn(nnn)->Ok_0.op_00ee() == Ok::<Machine, Chip8Error>(m),
{
    let called = m.op_2nnn(nnn)->Ok_0;
    assert(called.stack.drop_last() =~= m.stack);
}

/// `FX65` reads back what `FX55` has stored.
pub proof fn lemma_load_reads_back_store(m: Machine, x: int)
    requires
        m.wf(),
        m.op_fx55(x) is Ok,
    ensures
        m.op_fx55(x)->Ok_0.op_fx65(x) is Ok,
        m.op_fx55(x)->Ok_0.op_fx65(x)->Ok_0.registers == m.registers,
{
    let stored = m.op_fx55(x)->Ok_0;
    assert(stored.op_fx65(x)->Ok_0.registers =~= m.registers);
}

/// The three digits that `FX33` stores are decimal digits, and they make up
/// the value of `Vx`.
pub proof fn lemma_digits_make_up_value(m: Machine, x: int)
    requires
        m.wf(),
        m.op_fx33(x) is Ok,
    ensures
        ({
            let memory = m.op_fx33(x)->Ok_0.memory;
            let i = m.index as int;
            &&& memory[i] <= 9
            &&& memory[i + 1] <= 9
            &&& memory[i + 2] <= 9
            &&& 100 * memory[i] + 10 * memory[i + 1] + memory[i + 2] == m.registers[x]
        }),
{
}

/// However the host slices its time, nothing is lost: what falls due over
/// two stretches of time, one after the other, is what falls due over both
/// taken as one, and the controller is left the same.
pub proof fn lemma_slicing_time_loses_nothing(controller: CycleController, first: int, second: int)
    requires
        first >= 0,
        second >= 0,
    ensures
        controller.after(first).after(second) == controller.after(first + second),
        controller.instructions_due(first) + controller.after(first).instructions_due(second)
            == controller.instructions_due(first + second),
        controller.ticks_due(first) + controller.after(first).ticks_due(second)
            == controller.ticks_due(first + second),
{
    let rate = controller.instructions_per_second as int;
    assert((first + second) * rate == first * rate + second * rate) by (nonlinear_arith);
    assert(first * rate >= 0 && second * rate >= 0) by (nonlinear_arith)
        requires
            first >= 0,
            second >= 0,
            rate >= 0,
    ;
    lemma_carry_over(controller.instruction_time(first), second * rate);
    lemma_carry_over(controller.timer_time(first), second * 60);
}

/// Taking the whole millions out of `time` before `more` is added, and
/// carrying the rest over, gives the same count and the same rest as taking
/// them out of the sum.
pub proof fn lemma_carry_over(time: int, more: int)
    requires
        time >= 0,
        more >= 0,
    ensures
        time / 1_000_000 + (time % 1_000_000 + more) / 1_000_000 == (time + more) / 1_000_000,
        (time % 1_000_000 + more) % 1_000_000 == (time + more) % 1_000_000,
{
}

} // verus!
