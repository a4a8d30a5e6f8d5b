use vstd::prelude::*;

use crate::instruction::Instruction;
use crate::instructions::{address_of, decode_spec, immediate_of, nibble_of};
use crate::ram::MEMORY_SIZE;
use crate::registers::{pc_plus, STACK_CAPACITY};
use crate::screen::{blank_screen, PIXELS};

verus! {

/// The abstract state that instructions read and change.
pub struct Machine {
    pub pc: u16,
    pub i: u16,
    /// `V0..=VF`; `VF` doubles as the carry, borrow and collision flag.
    pub v: Seq<u8>,
    /// Return addresses, the most recent last.
    pub stack: Seq<u16>,
    pub mem: Seq<u8>,
    /// Pixels row by row: `(x, y)` at `y * WIDTH + x`.
    pub screen: Seq<bool>,
    pub keys: Seq<bool>,
}

/// A write to one of the shared countdown timers that an instruction asks for.
#[derive(Debug, Clone, Copy, PartialEq, Eq, Structural)]
pub enum TimerWrite {
    Nothing,
    Delay(u8),
    Sound(u8),
}

/// Why execution stopped.
#[derive(Debug, Clone, Copy, PartialEq, Eq, Structural)]
pub enum FaultKind {
    /// The word matches no operation.
    UnknownOpcode,
    /// A memory access fell outside memory.
    OutOfBounds,
    /// A call with `STACK_CAPACITY` return addresses already on the stack.
    StackOverflow,
    /// A return with no return address on the stack.
    StackUnderflow,
    /// A key test on a register that holds no key index.
    KeyOutOfRange,
}

/// The flag register.
pub open spec fn vf() -> int {
    15
}

pub open spec fn advance(m: Machine, k: int) -> Machine {
    Machine { pc: pc_plus(m.pc, k), ..m }
}

pub open spec fn set_reg(m: Machine, r: int, value: u8) -> Machine {
    Machine { v: m.v.update(r, value), ..m }
}

/// Advances past this instruction, and past the next one too when `skip`.
pub open spec fn skip_if(m: Machine, skip: bool) -> Machine {
    advance(m, if skip { 4 } else { 2 })
}

/// Column `col` (0 = leftmost) of a sprite row.
pub open spec fn sprite_bit(row: u8, col: int) -> bool {
    row & (0x80u8 >> (col as u8)) != 0
}

/// Column of pixel `p` (of a display `WIDTH` pixels wide) relative to a sprite whose left edge is at `vx`.
pub open spec fn sprite_dx(p: int, vx: u8) -> int {
    (p % 64 + 64 - (vx as int) % 64) % 64
}

/// Row of pixel `p` (of a display `HEIGHT` pixels high) relative to a sprite whose top edge is at `vy`.
pub open spec fn sprite_dy(p: int, vy: u8) -> int {
    (p / 64 + 32 - (vy as int) % 32) % 32
}

/// Whether the `n`-row sprite at `mem[i..i + n]`, placed at `(vx, vy)` with
/// wraparound, has a set bit over pixel `p`.
pub open spec fn sprite_covers(mem: Seq<u8>, i: u16, n: int, vx: u8, vy: u8, p: int) -> bool {
    let dx = sprite_dx(p, vx);
    let dy = sprite_dy(p, vy);
    dx < 8 && dy < n && sprite_bit(mem[i + dy], dx)
}

/// The display after XOR-ing the sprite onto `screen`.
pub open spec fn drawn(screen: Seq<bool>, mem: Seq<u8>, i: u16, n: int, vx: u8, vy: u8) -> Seq<bool> {
    Seq::new(PIXELS as nat, |p: int| screen[p] != sprite_covers(mem, i, n, vx, vy, p))
}

/// Whether the sprite has a set bit over a lit pixel.
pub open spec fn collides(screen: Seq<bool>, mem: Seq<u8>, i: u16, n: int, vx: u8, vy: u8) -> bool {
    exists|p: int| 0 <= p < PIXELS && #[trigger] screen[p] && sprite_covers(mem, i, n, vx, vy, p)
}

/// The lowest key index at or above `k` whose key is down.
pub open spec fn first_pressed_from(keys: Seq<bool>, k: int) -> Option<int>
    decreases 16 - k,
{
    if k >= 16 {
        None
    } else if keys[k] {
        Some(k)
    } else {
        first_pressed_from(keys, k + 1)
    }
}

/// `DRW Vx, Vy, n`.
pub open spec fn draw_spec(m: Machine, x: int, y: int, n: int) -> Result<Machine, FaultKind> {
    let vx = m.v[x];
    let vy = m.v[y];
    if m.i + n > MEMORY_SIZE {
        Err(FaultKind::OutOfBounds)
    } else {
        let flag: u8 = if collides(m.screen, m.mem, m.i, n, vx, vy) { 1 } else { 0 };
        Ok(
            advance(
                Machine {
                    screen: drawn(m.screen, m.mem, m.i, n, vx, vy),
                    v: m.v.update(vf(), flag),
                    ..m
                },
                2,
            ),
        )
    }
}

/// `LD B, Vx`: hundreds, tens and ones of `Vx` at `I`, `I+1`, `I+2`.
pub open spec fn bcd_spec(m: Machine, x: int) -> Result<Machine, FaultKind> {
    let vx = m.v[x];
    if m.i + 2 >= MEMORY_SIZE {
        Err(FaultKind::OutOfBounds)
    } else {
        Ok(
            advance(
                Machine {
                    mem: m.mem.update(m.i as int, vx / 100).update(m.i + 1, (vx / 10) % 10).update(
                        m.i + 2,
                        vx % 10,
                    ),
                    ..m
                },
                2,
            ),
        )
    }
}

/// `LD [I], Vx`: `V0..=Vx` into memory at `I..=I+x`.
pub open spec fn store_regs_spec(m: Machine, x: int) -> Result<Machine, FaultKind> {
    if m.i + x >= MEMORY_SIZE {
        Err(FaultKind::OutOfBounds)
    } else {
        Ok(
            advance(
                Machine {
                    mem: Seq::new(
                        m.mem.len(),
                        |a: int|
                            if m.i <= a <= m.i + x {
                                m.v[a - m.i]
                            } else {
                                m.mem[a]
                            },
                    ),
                    ..m
                },
                2,
            ),
        )
    }
}

/// `LD Vx, [I]`: memory at `I..=I+x` into `V0..=Vx`.
pub open spec fn load_regs_spec(m: Machine, x: int) -> Result<Machine, FaultKind> {
    if m.i + x >= MEMORY_SIZE {
        Err(FaultKind::OutOfBounds)
    } else {
        Ok(
            advance(
                Machine {
                    v: Seq::new(
                        m.v.len(),
                        |k: int|
                            if k <= x {
                                m.mem[m.i + k]
                            } else {
                                m.v[k]
                            },
                    ),
                    ..m
                },
                2,
            ),
        )
    }
}

/// Writes a flag into `VF`, then a result into `Vx`.
pub open spec fn flag_then_result(m: Machine, x: int, flag: u8, result: u8) -> Machine {
    set_reg(set_reg(m, vf(), flag), x, result)
}

/// The effect of executing the instruction `word` on `m`, where `random` is
/// the byte that `RND` draws and `delay` the value that `LD Vx, DT` reads.
pub open spec fn execute_spec(m: Machine, word: u16, random: u8, delay: u8) -> Result<
    (Machine, TimerWrite),
    FaultKind,
> {
    let x = nibble_of(word, 1) as int;
    let y = nibble_of(word, 2) as int;
    let n = nibble_of(word, 3) as int;
    let kk = immediate_of(word);
    let nnn = address_of(word);
    let vx = m.v[x];
    let vy = m.v[y];
    let plain = |r: Result<Machine, FaultKind>|
        match r {
            Ok(m2) => Ok((m2, TimerWrite::Nothing)),
            Err(e) => Err(e),
        };
    match decode_spec(word) {
        Instruction::JP => plain(Ok(Machine { pc: nnn, ..m })),
        Instruction::LdI => plain(Ok(advance(Machine { i: nnn, ..m }, 2))),
        Instruction::LdV => plain(Ok(advance(set_reg(m, x, kk), 2))),
        Instruction::DRW => plain(draw_spec(m, x, y, n)),
        Instruction::AddI => {
            let sum = m.i + vx;
            let flag: u8 = if sum > 0xFFF { 1 } else { 0 };
            plain(
                Ok(advance(Machine { i: (sum % 0x10000) as u16, v: m.v.update(vf(), flag), ..m }, 2)),
            )
        },
        Instruction::AddX => plain(Ok(advance(set_reg(m, x, ((vx + kk) % 256) as u8), 2))),
        Instruction::SeX => plain(Ok(skip_if(m, vx == kk))),
        Instruction::SeXY => plain(Ok(skip_if(m, vx == vy))),
        Instruction::LdXK => match first_pressed_from(m.keys, 0) {
            Some(k) => plain(Ok(advance(set_reg(m, x, k as u8), 2))),
            None => plain(Ok(m)),
        },
        Instruction::CLS => plain(Ok(advance(Machine { screen: blank_screen(), ..m }, 2))),
        Instruction::RET => if m.stack.len() == 0 {
            Err(FaultKind::StackUnderflow)
        } else {
            plain(Ok(Machine { pc: pc_plus(m.stack.last(), 2), stack: m.stack.drop_last(), ..m }))
        },
        Instruction::CALL => if m.stack.len() >= STACK_CAPACITY {
            Err(FaultKind::StackOverflow)
        } else {
            plain(Ok(Machine { pc: nnn, stack: m.stack.push(m.pc), ..m }))
        },
        Instruction::LdXY => plain(Ok(advance(set_reg(m, x, vy), 2))),
        Instruction::SHR => {
            let m1 = set_reg(m, vf(), vx % 2);
            plain(Ok(advance(set_reg(m1, x, m1.v[x] / 2), 2)))
        },
        Instruction::LdB => plain(bcd_spec(m, x)),
        Instruction::LdXI => plain(load_regs_spec(m, x)),
        Instruction::LdF => plain(Ok(advance(Machine { i: (vx * 5) as u16, ..m }, 2))),
        Instruction::RND => plain(Ok(advance(set_reg(m, x, random & kk), 2))),
        Instruction::AddXY => {
            let sum = vx + vy;
            plain(
                Ok(advance(flag_then_result(m, x, if sum > 255 { 1 } else { 0 }, (sum % 256) as u8), 2)),
            )
        },
        Instruction::SKP => if vx >= 16 {
            Err(FaultKind::KeyOutOfRange)
        } else {
            plain(Ok(skip_if(m, m.keys[vx as int])))
        },
        Instruction::SKNP => if vx >= 16 {
            Err(FaultKind::KeyOutOfRange)
        } else {
            plain(Ok(skip_if(m, !m.keys[vx as int])))
        },
        Instruction::LdDT => Ok((advance(m, 2), TimerWrite::Delay(vx))),
        Instruction::LdST => Ok((advance(m, 2), TimerWrite::Sound(vx))),
        Instruction::LdXDT => plain(Ok(advance(set_reg(m, x, delay), 2))),
        Instruction::SneX => plain(Ok(skip_if(m, vx != kk))),
        Instruction::SneXY => plain(Ok(skip_if(m, vx != vy))),
        Instruction::LdIX => plain(store_regs_spec(m, x)),
        Instruction::AND => plain(Ok(advance(set_reg(m, x, vx & vy), 2))),
        Instruction::OR => plain(Ok(advance(set_reg(m, x, vx | vy), 2))),
        Instruction::XOR => plain(Ok(advance(set_reg(m, x, vx ^ vy), 2))),
        Instruction::SUB => plain(
            Ok(advance(flag_then_result(m, x, if vx >= vy { 1 } else { 0 }, ((vx - vy) % 256) as u8), 2)),
        ),
        Instruction::SUBN => plain(
            Ok(advance(flag_then_result(m, x, if vy >= vx { 1 } else { 0 }, ((vy - vx) % 256) as u8), 2)),
        ),
        Instruction::Unknown => Err(FaultKind::UnknownOpcode),
    }
}

} // verus!
