use vstd::prelude::*;

use crate::ram::{Ram, MEMORY_SIZE};
use crate::semantics::{collides, drawn, sprite_bit, sprite_covers, sprite_dx, sprite_dy};

verus! {

/// Display width in pixels.
pub const WIDTH: usize = 64;

/// Display height in pixels.
pub const HEIGHT: usize = 32;

/// Number of pixels on the display.
pub const PIXELS: usize = 2048;

/// Index of pixel `(x, y)` in the row-major pixel array.
pub open spec fn pixel_index(x: int, y: int) -> int {
    y * WIDTH + x
}

/// The 64x32 monochrome framebuffer, stored row by row.
pub struct Screen {
    pub screen: [bool; PIXELS],
}

impl View for Screen {
    type V = Seq<bool>;

    open spec fn view(&self) -> Seq<bool> {
        self.screen@
    }
}

/// A framebuffer with every pixel dark.
pub open spec fn blank_screen() -> Seq<bool> {
    Seq::new(PIXELS as nat, |i: int| false)
}

impl Screen {
    /// A dark display.
    pub fn new() -> (r: Screen)
        ensures
            r@ == blank_screen(),
    {
        let r = Screen { screen: [false; PIXELS] };
        assert(r@ =~= blank_screen());
        r
    }

    /// Turns every pixel off.
    pub fn clear(&mut self)
        ensures
            final(self)@ == blank_screen(),
    {
        self.screen = [false; PIXELS];
        assert(self@ =~= blank_screen());
    }

    /// Whether pixel `(x, y)` is lit.
    pub fn get(&self, x: usize, y: usize) -> (r: bool)
        requires
            x < WIDTH,
            y < HEIGHT,
        ensures
            r == self@[pixel_index(x as int, y as int)],
    {
        self.screen[y * WIDTH + x]
    }
}

/// Pixel `p` lies under a set sprite bit that the drawing loop has reached
/// once it has finished `rows` rows and `cols` columns of the next one.
pub open spec fn painted(mem: Seq<u8>, i: u16, n: int, vx: u8, vy: u8, rows: int, cols: int, p: int) -> bool {
    &&& sprite_covers(mem, i, n, vx, vy, p)
    &&& (sprite_dy(p, vy) < rows || (sprite_dy(p, vy) == rows && sprite_dx(p, vx) < cols))
}

/// Moving `off` columns right of `base` with wraparound and measuring back
/// from `base` gives `off`; no other column does.
proof fn lemma_wrap_columns(base: u16, off: u16, pos: u16)
    by (bit_vector)
    requires
        base < 256,
        off < 8,
        pos < 64,
    ensures
        ((((base + off) as u16 % 64) + 64 - base % 64) as u16) % 64 == off,
        ((pos + 64 - base % 64) as u16) % 64 == off ==> pos == ((base + off) as u16) % 64,
{
}

/// Moving `off` rows down from `base` with wraparound and measuring back
/// from `base` gives `off`; no other row does.
proof fn lemma_wrap_rows(base: u16, off: u16, pos: u16)
    by (bit_vector)
    requires
        base < 256,
        off < 32,
        pos < 32,
    ensures
        ((((base + off) as u16 % 32) + 32 - base % 32) as u16) % 32 == off,
        ((pos + 32 - base % 32) as u16) % 32 == off ==> pos == ((base + off) as u16) % 32,
{
}

/// The pixel at sprite row `row`, column `col` is `target`, and no other.
proof fn lemma_sprite_target(vx: int, vy: int, col: int, row: int, p: int)
    requires
        0 <= vx < 256,
        0 <= vy < 256,
        0 <= col < 8,
        0 <= row < 32,
        0 <= p < 2048,
    ensures
        0 <= ((vy + row) % 32) * 64 + (vx + col) % 64 < 2048,
        ((((vy + row) % 32) * 64 + (vx + col) % 64) % 64 + 64 - vx % 64) % 64 == col,
        ((((vy + row) % 32) * 64 + (vx + col) % 64) / 64 + 32 - vy % 32) % 32 == row,
        ((p % 64 + 64 - vx % 64) % 64 == col && (p / 64 + 32 - vy % 32) % 32 == row) ==> p == ((vy
            + row) % 32) * 64 + (vx + col) % 64,
{
    let a = (vx + col) % 64;
    let b = (vy + row) % 32;
    let t = b * 64 + a;
    vstd::arithmetic::div_mod::lemma_fundamental_div_mod_converse(t, 64, b, a);
    lemma_wrap_columns(vx as u16, col as u16, (p % 64) as u16);
    lemma_wrap_rows(vy as u16, row as u16, (p / 64) as u16);
    vstd::arithmetic::div_mod::lemma_fundamental_div_mod(p, 64);
}

impl Screen {
    /// XORs the `n`-row sprite stored at `mem[i..i + n]` onto the display at
    /// `(vx, vy)`, wrapping around the edges; returns whether a set sprite
    /// bit met a lit pixel.
    pub fn draw_sprite(&mut self, mem: &Ram, i: u16, n: usize, vx: u8, vy: u8) -> (collision: bool)
        requires
            n < 16,
            i + n <= MEMORY_SIZE,
        ensures
            final(self)@ == drawn(old(self)@, mem@, i, n as int, vx, vy),
            collision == collides(old(self)@, mem@, i, n as int, vx, vy),
    {
        let ghost s0 = self@;
        let ghost mm = mem@;
        let mut collision = false;
        let mut row: usize = 0;
        while row < n
            invariant
                n < 16,
                i + n <= MEMORY_SIZE,
                mm == mem@,
                row <= n,
                self@ == Seq::new(
                    PIXELS as nat,
                    |p: int| s0[p] != painted(mm, i, n as int, vx, vy, row as int, 0, p),
                ),
                collision ==> exists|p: int|
                    0 <= p < PIXELS && #[trigger] s0[p] && painted(mm, i, n as int, vx, vy, row as int, 0, p),
                !collision ==> forall|p: int|
                    0 <= p < PIXELS && #[trigger] s0[p] ==> !painted(mm, i, n as int, vx, vy, row as int, 0, p),
            decreases n - row,
        {
            let bits = mem.ram[i as usize + row];
            let mut col: usize = 0;
            while col < 8
                invariant
                    n < 16,
                    i + n <= MEMORY_SIZE,
                    mm == mem@,
                    row < n,
                    col <= 8,
                    bits == mm[i + row],
                    self@ == Seq::new(
                        PIXELS as nat,
                        |p: int| s0[p] != painted(mm, i, n as int, vx, vy, row as int, col as int, p),
                    ),
                    collision ==> exists|p: int|
                        0 <= p < PIXELS && #[trigger] s0[p] && painted(mm, i, n as int, vx, vy, row as int, col as int, p),
                    !collision ==> forall|p: int|
                        0 <= p < PIXELS && #[trigger] s0[p] ==> !painted(mm, i, n as int, vx, vy, row as int, col as int, p),
                decreases 8 - col,
            {
                let target = ((vy as usize + row) % HEIGHT) * WIDTH + (vx as usize + col) % WIDTH;
                proof {
                    lemma_sprite_target(vx as int, vy as int, col as int, row as int, 0);
                    assert forall|p: int| 0 <= p < PIXELS && p != target implies (
                        sprite_dx(p, vx) != col || sprite_dy(p, vy) != row) by {
                        lemma_sprite_target(vx as int, vy as int, col as int, row as int, p);
                    }
                }
                let bit = bits & (0x80u8 >> (col as u8)) != 0;
                assert(bit == sprite_bit(mm[i + row], col as int));
                let lit = self.screen[target];
                assert(sprite_covers(mm, i, n as int, vx, vy, target as int) == bit);
                if lit && bit {
                    collision = true;
                }
                self.screen[target] = lit != bit;
                col += 1;
                proof {
                    assert(self@ =~= Seq::new(
                        PIXELS as nat,
                        |p: int| s0[p] != painted(mm, i, n as int, vx, vy, row as int, col as int, p),
                    ));
                }
            }
            row += 1;
            proof {
                assert forall|p: int| 0 <= p < PIXELS implies painted(mm, i, n as int, vx, vy, (row - 1) as int, 8, p)
                    == painted(mm, i, n as int, vx, vy, row as int, 0, p) by {}
                assert(self@ =~= Seq::new(
                    PIXELS as nat,
                    |p: int| s0[p] != painted(mm, i, n as int, vx, vy, row as int, 0, p),
                ));
            }
        }
        proof {
            assert forall|p: int| 0 <= p < PIXELS implies painted(mm, i, n as int, vx, vy, n as int, 0, p)
                == sprite_covers(mm, i, n as int, vx, vy, p) by {}
            assert(self@ =~= drawn(s0, mm, i, n as int, vx, vy));
        }
        collision
    }
}

} // verus!
