use vstd::prelude::*;

use crate::cpu::{fetch_spec, loaded};
use crate::instruction::Instruction;
use crate::instructions::{address_of, decode_spec, immediate_of, nibble_of};
use crate::ram::MEMORY_SIZE;
use crate::registers::pc_plus;
use crate::screen::PIXELS;
use crate::semantics::{
    advance, draw_spec, execute_spec, load_regs_spec, set_reg, skip_if, sprite_covers, store_regs_spec,
    Machine, TimerWrite,
};

verus! {

/// The register file, memory, display and keypad have their fixed sizes.
pub open spec fn well_sized(m: Machine) -> bool {
    &&& m.v.len() == 16
    &&& m.mem.len() == MEMORY_SIZE
    &&& m.screen.len() == PIXELS
    &&& m.keys.len() == 16
}

/// How `6xkk` decodes.
proof fn lemma_immediate_word(x: u16, kk: u8)
    requires
        x < 16,
    ensures
        decode_spec((0x6000 + x * 256 + kk) as u16) == Instruction::LdV,
        nibble_of((0x6000 + x * 256 + kk) as u16, 1) == x,
        immediate_of((0x6000 + x * 256 + kk) as u16) == kk,
{
}

/// How `5xy0` decodes.
proof fn lemma_register_pair_word(x: u16, y: u16)
    requires
        x < 16,
        y < 16,
    ensures
        decode_spec((0x5000 + x * 256 + y * 16) as u16) == Instruction::SeXY,
        nibble_of((0x5000 + x * 256 + y * 16) as u16, 1) == x,
        nibble_of((0x5000 + x * 256 + y * 16) as u16, 2) == y,
{
}

/// `LD Vx, kk` leaves `kk` in `Vx` and moves `pc` on by exactly one
/// instruction, from any state whose `pc` has room for it.
pub proof fn lemma_load_immediate(m: Machine, x: u16, kk: u8, random: u8, delay: u8)
    requires
        x < 16,
        well_sized(m),
        m.pc + 2 <= 0xFFFF,
    ensures
        execute_spec(m, (0x6000 + x * 256 + kk) as u16, random, delay) matches Ok((after, write))
            && after.v[x as int] == kk && after.pc == m.pc + 2 && write == TimerWrite::Nothing,
{
    lemma_immediate_word(x, kk);
    let after = advance(set_reg(m, x as int, kk), 2);
    assert(execute_spec(m, (0x6000 + x * 256 + kk) as u16, random, delay) == Ok::<(Machine, TimerWrite), crate::semantics::FaultKind>((after, TimerWrite::Nothing)));
}

/// `SE Vx, Vy` skips the next instruction (moves `pc` on by 4) exactly when
/// `Vx == Vy`, and otherwise moves it on by 2.
pub proof fn lemma_skip_if_equal(m: Machine, x: u16, y: u16, random: u8, delay: u8)
    requires
        x < 16,
        y < 16,
        well_sized(m),
        m.pc + 4 <= 0xFFFF,
    ensures
        execute_spec(m, (0x5000 + x * 256 + y * 16) as u16, random, delay) matches Ok((after, _))
            && after.pc == m.pc + if m.v[x as int] == m.v[y as int] { 4int } else { 2int },
{
    lemma_register_pair_word(x, y);
    let after = skip_if(m, m.v[x as int] == m.v[y as int]);
    assert(execute_spec(m, (0x5000 + x * 256 + y * 16) as u16, random, delay) == Ok::<(Machine, TimerWrite), crate::semantics::FaultKind>((after, TimerWrite::Nothing)));
}

/// How `Dxyn` decodes.
proof fn lemma_draw_word(x: u16, y: u16, n: u16)
    requires
        x < 16,
        y < 16,
        n < 16,
    ensures
        decode_spec((0xD000 + x * 256 + y * 16 + n) as u16) == Instruction::DRW,
        nibble_of((0xD000 + x * 256 + y * 16 + n) as u16, 1) == x,
        nibble_of((0xD000 + x * 256 + y * 16 + n) as u16, 2) == y,
        nibble_of((0xD000 + x * 256 + y * 16 + n) as u16, 3) == n,
{
}

/// Drawing the same sprite at the same place twice in a row gives back the
/// display as it was, and the second drawing reports a collision when the
/// sprite has a set bit over a pixel that was dark before the first. The
/// coordinate registers must not be `VF`, which the first drawing overwrites.
pub proof fn lemma_draw_twice(m: Machine, x: u16, y: u16, n: u16, random: u8, delay: u8)
    requires
        x < 15,
        y < 15,
        n < 16,
        well_sized(m),
        m.i + n <= MEMORY_SIZE,
    ensures
        execute_spec(m, (0xD000 + x * 256 + y * 16 + n) as u16, random, delay) matches Ok((once, _))
            && execute_spec(once, (0xD000 + x * 256 + y * 16 + n) as u16, random, delay) matches Ok((twice, _))
            && twice.screen == m.screen && ((exists|p: int|
            0 <= p < PIXELS && #[trigger] sprite_covers(m.mem, m.i, n as int, m.v[x as int], m.v[y as int], p)
                && !m.screen[p]) ==> twice.v[15] == 1),
{
    let word = (0xD000 + x * 256 + y * 16 + n) as u16;
    let vx = m.v[x as int];
    let vy = m.v[y as int];
    lemma_draw_word(x, y, n);
    let once = draw_spec(m, x as int, y as int, n as int)->Ok_0;
    assert(execute_spec(m, word, random, delay) == Ok::<(Machine, TimerWrite), crate::semantics::FaultKind>((once, TimerWrite::Nothing)));
    assert(once.v[x as int] == vx && once.v[y as int] == vy && once.mem == m.mem && once.i == m.i);
    let twice = draw_spec(once, x as int, y as int, n as int)->Ok_0;
    assert(execute_spec(once, word, random, delay) == Ok::<(Machine, TimerWrite), crate::semantics::FaultKind>((twice, TimerWrite::Nothing)));
    assert(twice.screen =~= m.screen);
    if exists|p: int|
        0 <= p < PIXELS && #[trigger] sprite_covers(m.mem, m.i, n as int, vx, vy, p) && !m.screen[p] {
        let p = choose|p: int|
            0 <= p < PIXELS && #[trigger] sprite_covers(m.mem, m.i, n as int, vx, vy, p) && !m.screen[p];
        assert(once.screen[p] && sprite_covers(once.mem, once.i, n as int, vx, vy, p));
    }
}

/// How `Fx55` and `Fx65` decode.
proof fn lemma_register_block_words(x: u16)
    requires
        x < 16,
    ensures
        decode_spec((0xF055 + x * 256) as u16) == Instruction::LdIX,
        decode_spec((0xF065 + x * 256) as u16) == Instruction::LdXI,
        nibble_of((0xF055 + x * 256) as u16, 1) == x,
        nibble_of((0xF065 + x * 256) as u16, 1) == x,
{
}

/// `LD [I], Vx` followed by `LD Vx, [I]`, with `I` and the stored bytes
/// unchanged in between, gives `V0..=Vx` back their values from before the
/// store, whatever happened to the registers meanwhile.
pub proof fn lemma_store_load_round_trip(m: Machine, between: Machine, x: u16, random: u8, delay: u8)
    requires
        x < 16,
        well_sized(m),
        well_sized(between),
        m.i + x < MEMORY_SIZE,
        execute_spec(m, (0xF055 + x * 256) as u16, random, delay) matches Ok((stored, _)) && between.i
            == stored.i && forall|k: int| 0 <= k <= x ==> #[trigger] between.mem[m.i + k] == stored.mem[m.i + k],
    ensures
        execute_spec(between, (0xF065 + x * 256) as u16, random, delay) matches Ok((after, _))
            && forall|k: int| 0 <= k <= x ==> #[trigger] after.v[k] == m.v[k],
{
    lemma_register_block_words(x);
    let stored = store_regs_spec(m, x as int)->Ok_0;
    assert(execute_spec(m, (0xF055 + x * 256) as u16, random, delay) == Ok::<(Machine, TimerWrite), crate::semantics::FaultKind>((stored, TimerWrite::Nothing)));
    let after = load_regs_spec(between, x as int)->Ok_0;
    assert(execute_spec(between, (0xF065 + x * 256) as u16, random, delay) == Ok::<(Machine, TimerWrite), crate::semantics::FaultKind>((after, TimerWrite::Nothing)));
    assert forall|k: int| 0 <= k <= x implies #[trigger] after.v[k] == m.v[k] by {
        assert(between.mem[m.i + k] == stored.mem[m.i + k]);
    }
}

/// How `2nnn` and `00EE` decode.
proof fn lemma_call_words(nnn: u16)
    requires
        nnn < 0x1000,
    ensures
        decode_spec((0x2000 + nnn) as u16) == Instruction::CALL,
        address_of((0x2000 + nnn) as u16) == nnn,
        decode_spec(0x00EE) == Instruction::RET,
{
}

/// `CALL nnn` followed, at `nnn`, by `RET` comes back to the instruction
/// after the call with the stack as it was: the stack is last in, first out.
pub proof fn lemma_call_then_return(m: Machine, nnn: u16, random: u8, delay: u8)
    requires
        well_sized(m),
        nnn < 0x1000,
        m.stack.len() < crate::registers::STACK_CAPACITY,
        m.pc + 2 <= 0xFFFF,
    ensures
        ({
            &&& execute_spec(m, (0x2000 + nnn) as u16, random, delay) matches Ok((called, _))
            &&& called.pc == nnn
            &&& execute_spec(called, 0x00EE, random, delay) matches Ok((back, _))
            &&& back.pc == m.pc + 2
            &&& back.stack == m.stack
        }),
{
    lemma_call_words(nnn);
    let called = Machine { pc: nnn, stack: m.stack.push(m.pc), ..m };
    assert(execute_spec(m, (0x2000 + nnn) as u16, random, delay) == Ok::<(Machine, TimerWrite), crate::semantics::FaultKind>((called, TimerWrite::Nothing)));
    assert(called.stack.drop_last() =~= m.stack);
    let back = Machine { pc: pc_plus(m.pc, 2), stack: m.stack, ..called };
    assert(execute_spec(called, 0x00EE, random, delay) == Ok::<(Machine, TimerWrite), crate::semantics::FaultKind>((back, TimerWrite::Nothing)));
}

/// A program image that is just `JP 0x200`, loaded at `0x200` over any
/// memory, makes the machine spin in place from `pc == 0x200`: fetching and
/// executing the jump leaves the machine exactly as it was and never fails,
/// whatever random byte or timer value comes in.
pub proof fn lemma_jump_to_self(m: Machine, memory: Seq<u8>, random: u8, delay: u8)
    requires
        well_sized(m),
        memory.len() == MEMORY_SIZE,
        m.mem == loaded(memory, 0x200, seq![0x12u8, 0x00u8]),
        m.pc == 0x200,
    ensures
        fetch_spec(m) == Some(0x1200u16),
        execute_spec(m, 0x1200, random, delay) == Ok::<(Machine, TimerWrite), crate::semantics::FaultKind>(
            (m, TimerWrite::Nothing),
        ),
{
    assert(m.mem[0x200] == 0x12 && m.mem[0x201] == 0x00);
}

} // verus!
