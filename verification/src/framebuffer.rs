//! The monochrome pixel grid. Sprites are composited by XOR, one 8-pixel
//! row at a time, with wraparound coordinates; any pixel that a draw turns
//! from on to off raises the collision signal.
use vstd::prelude::*;

use crate::CHIP8_HEIGHT;
use crate::CHIP8_WIDTH;

verus! {

/// An all-dark pixel grid.
pub open spec fn blank_fb() -> Seq<bool> {
    Seq::new((CHIP8_WIDTH * CHIP8_HEIGHT) as nat, |p: int| false)
}

/// Flat index of the pixel at column `x`, row `y`.
pub open spec fn pixel_index(x: int, y: int) -> int {
    y * CHIP8_WIDTH + x
}

/// Whether bit `b` (0 = leftmost pixel) of a sprite row byte is set.
pub open spec fn sprite_bit(sprite: u8, b: int) -> bool {
    (sprite >> ((7 - b) as u8)) & 1 == 1
}

/// Whether drawing `sprite` with its left edge at column `x0` on row `y`
/// touches the pixel with flat index `p` (wrapping columns modulo the width).
pub open spec fn row_touches(sprite: u8, x0: u8, y: int, p: int) -> bool {
    exists|b: int|
        0 <= b < 8 && sprite_bit(sprite, b) && p == pixel_index((x0 + b) % (CHIP8_WIDTH as int), y)
}

/// The grid after one sprite row is XOR-composited onto `fb`.
pub open spec fn row_update(fb: Seq<bool>, sprite: u8, x0: u8, y: int) -> Seq<bool> {
    Seq::new(
        fb.len(),
        |p: int| if row_touches(sprite, x0, y, p) {
            !fb[p]
        } else {
            fb[p]
        },
    )
}

/// Whether XOR-compositing one sprite row onto `fb` turns some pixel off.
pub open spec fn row_collision(fb: Seq<bool>, sprite: u8, x0: u8, y: int) -> bool {
    exists|b: int|
        0 <= b < 8 && sprite_bit(sprite, b) && fb[pixel_index(
            (x0 + b) % (CHIP8_WIDTH as int),
            y,
        )]
}

/// The grid after the first `j` rows of a sprite are XOR-composited onto
/// `fb`, the sprite's top-left corner at (`x0`, `y0`) and rows wrapping
/// modulo the height.
pub open spec fn draw_rows(fb: Seq<bool>, rows: Seq<u8>, x0: u8, y0: u8, j: int) -> Seq<bool>
    decreases j,
{
    if j <= 0 {
        fb
    } else {
        row_update(
            draw_rows(fb, rows, x0, y0, j - 1),
            rows[j - 1],
            x0,
            (y0 + j - 1) % (CHIP8_HEIGHT as int),
        )
    }
}

/// Whether compositing the first `j` rows of a sprite onto `fb` turns any
/// pixel from on to off.
pub open spec fn draw_hits(fb: Seq<bool>, rows: Seq<u8>, x0: u8, y0: u8, j: int) -> bool
    decreases j,
{
    if j <= 0 {
        false
    } else {
        draw_hits(fb, rows, x0, y0, j - 1) || row_collision(
            draw_rows(fb, rows, x0, y0, j - 1),
            rows[j - 1],
            x0,
            (y0 + j - 1) % (CHIP8_HEIGHT as int),
        )
    }
}

pub struct Framebuffer {
    /// Pixel states in row-major order, `true` meaning lit.
    pub pixels: Vec<bool>,
}

impl Framebuffer {
    /// The grid always holds exactly width times height pixels.
    pub open spec fn wf(&self) -> bool {
        self.pixels@.len() == CHIP8_WIDTH * CHIP8_HEIGHT
    }

    /// An all-dark grid.
    pub fn new() -> (fb: Framebuffer)
        ensures
            fb.wf(),
            fb.pixels@ == blank_fb(),
    {
        let pixels: Vec<bool> = vec![false; CHIP8_WIDTH * CHIP8_HEIGHT];
        proof {
            assert(pixels@ =~= blank_fb());
        }
        Framebuffer { pixels }
    }

    /// Turn every pixel off.
    pub fn clear(&mut self)
        requires
            old(self).wf(),
        ensures
            final(self).wf(),
            final(self).pixels@ == blank_fb(),
    {
        let mut p: usize = 0;
        while p < CHIP8_WIDTH * CHIP8_HEIGHT
            invariant
                p <= CHIP8_WIDTH * CHIP8_HEIGHT,
                self.wf(),
                forall|k: int| 0 <= k < p ==> self.pixels@[k] == false,
            decreases CHIP8_WIDTH * CHIP8_HEIGHT - p,
        {
            self.pixels[p] = false;
            p = p + 1;
        }
        proof {
            assert(self.pixels@ =~= blank_fb());
        }
    }

    /// The pixel at column `x`, row `y`.
    pub fn get(&self, x: usize, y: usize) -> (lit: bool)
        requires
            self.wf(),
            x < CHIP8_WIDTH,
            y < CHIP8_HEIGHT,
        ensures
            lit == self.pixels@[pixel_index(x as int, y as int)],
    {
        self.pixels[y * CHIP8_WIDTH + x]
    }

    /// XOR one 8-pixel sprite row onto row `y`, the leftmost pixel at
    /// column `x0` and columns wrapping modulo the width. Reports whether
    /// some pixel went from on to off.
    pub fn draw_row(&mut self, sprite: u8, x0: u8, y: usize) -> (hit: bool)
        requires
            old(self).wf(),
            y < CHIP8_HEIGHT,
        ensures
            final(self).wf(),
            final(self).pixels@ == row_update(old(self).pixels@, sprite, x0, y as int),
            hit == row_collision(old(self).pixels@, sprite, x0, y as int),
    {
        let ghost fb0 = self.pixels@;
        let mut hit = false;
        let mut bit: usize = 0;
        while bit < 8
            invariant
                bit <= 8,
                self.wf(),
                y < CHIP8_HEIGHT,
                self.pixels@.len() == fb0.len(),
                fb0.len() == CHIP8_WIDTH * CHIP8_HEIGHT,
                forall|p: int|
                    0 <= p < fb0.len() ==> self.pixels@[p] == (if touched_below(
                        sprite,
                        x0,
                        y as int,
                        p,
                        bit as int,
                    ) {
                        !fb0[p]
                    } else {
                        fb0[p]
                    }),
                hit == collision_below(fb0, sprite, x0, y as int, bit as int),
            decreases 8 - bit,
        {
            let x = (x0 as usize + bit) % CHIP8_WIDTH;
            let shift: u8 = (7 - bit) as u8;
            let color = (sprite >> shift) & 1 == 1;
            let idx = y * CHIP8_WIDTH + x;
            proof {
                assert(idx == pixel_index((x0 + bit as int) % (CHIP8_WIDTH as int), y as int));
                assert(color == sprite_bit(sprite, bit as int));
                // No earlier sprite bit of this row lands on the same pixel,
                // so the pixel still holds its pre-draw state.
                assert(!touched_below(sprite, x0, y as int, idx as int, bit as int)) by {
                    if touched_below(sprite, x0, y as int, idx as int, bit as int) {
                        let b = choose|b: int|
                            0 <= b < bit && b < 8 && sprite_bit(sprite, b) && idx as int
                                == pixel_index((x0 + b) % (CHIP8_WIDTH as int), y as int);
                        lemma_wrap_columns_injective(x0 as int, b, bit as int);
                    }
                }
            }
            let lit = self.pixels[idx];
            if color {
                if lit {
                    hit = true;
                }
                self.pixels[idx] = !lit;
            }
            proof {
                if color {
                    assert(touched_below(sprite, x0, y as int, idx as int, bit + 1));
                }
                assert forall|p: int| 0 <= p < fb0.len() implies self.pixels@[p] == (
                if touched_below(sprite, x0, y as int, p, bit + 1) {
                    !fb0[p]
                } else {
                    fb0[p]
                }) by {
                    if p != idx && touched_below(sprite, x0, y as int, p, bit + 1) {
                        let b = choose|b: int|
                            0 <= b < bit + 1 && b < 8 && sprite_bit(sprite, b) && p == pixel_index(
                                (x0 + b) % (CHIP8_WIDTH as int),
                                y as int,
                            );
                        assert(b != bit);
                        assert(touched_below(sprite, x0, y as int, p, bit as int));
                    }
                }
                if color && lit {
                    assert(collision_below(fb0, sprite, x0, y as int, bit + 1));
                }
                if collision_below(fb0, sprite, x0, y as int, bit + 1) && !(color && lit) {
                    let b = choose|b: int|
                        0 <= b < bit + 1 && b < 8 && sprite_bit(sprite, b) && fb0[pixel_index(
                            (x0 + b) % (CHIP8_WIDTH as int),
                            y as int,
                        )];
                    assert(b != bit);
                    assert(collision_below(fb0, sprite, x0, y as int, bit as int));
                }
            }
            bit = bit + 1;
        }
        proof {
            assert forall|p: int| 0 <= p < fb0.len() implies touched_below(sprite, x0, y as int, p, 8)
                == row_touches(sprite, x0, y as int, p) by {
                if touched_below(sprite, x0, y as int, p, 8) {
                    let b = choose|b: int|
                        0 <= b < 8 && b < 8 && sprite_bit(sprite, b) && p == pixel_index(
                            (x0 + b) % (CHIP8_WIDTH as int),
                            y as int,
                        );
                    assert(row_touches(sprite, x0, y as int, p));
                }
                if row_touches(sprite, x0, y as int, p) {
                    let b = choose|b: int|
                        0 <= b < 8 && sprite_bit(sprite, b) && p == pixel_index(
                            (x0 + b) % (CHIP8_WIDTH as int),
                            y as int,
                        );
                    assert(touched_below(sprite, x0, y as int, p, 8));
                }
            }
            assert(self.pixels@ =~= row_update(fb0, sprite, x0, y as int));
            assert(collision_below(fb0, sprite, x0, y as int, 8) == row_collision(
                fb0,
                sprite,
                x0,
                y as int,
            )) by {
                if collision_below(fb0, sprite, x0, y as int, 8) {
                    let b = choose|b: int|
                        0 <= b < 8 && b < 8 && sprite_bit(sprite, b) && fb0[pixel_index(
                            (x0 + b) % (CHIP8_WIDTH as int),
                            y as int,
                        )];
                    assert(row_collision(fb0, sprite, x0, y as int));
                }
                if row_collision(fb0, sprite, x0, y as int) {
                    let b = choose|b: int|
                        0 <= b < 8 && sprite_bit(sprite, b) && fb0[pixel_index(
                            (x0 + b) % (CHIP8_WIDTH as int),
                            y as int,
                        )];
                    assert(collision_below(fb0, sprite, x0, y as int, 8));
                }
            }
        }
        hit
    }
}

/// `row_touches` restricted to sprite bits below `hi`.
pub open spec fn touched_below(sprite: u8, x0: u8, y: int, p: int, hi: int) -> bool {
    exists|b: int|
        0 <= b < hi && b < 8 && sprite_bit(sprite, b) && p == pixel_index(
            (x0 + b) % (CHIP8_WIDTH as int),
            y,
        )
}

/// `row_collision` restricted to sprite bits below `hi`.
pub open spec fn collision_below(fb: Seq<bool>, sprite: u8, x0: u8, y: int, hi: int) -> bool {
    exists|b: int|
        0 <= b < hi && b < 8 && sprite_bit(sprite, b) && fb[pixel_index(
            (x0 + b) % (CHIP8_WIDTH as int),
            y,
        )]
}

/// Two distinct column offsets below the grid width land on distinct
/// wrapped columns.
proof fn lemma_wrap_columns_injective(x0: int, b1: int, b2: int)
    requires
        0 <= b1 < CHIP8_WIDTH,
        0 <= b2 < CHIP8_WIDTH,
        b1 != b2,
        0 <= x0,
    ensures
        (x0 + b1) % (CHIP8_WIDTH as int) != (x0 + b2) % (CHIP8_WIDTH as int),
{
    let w = CHIP8_WIDTH as int;
    vstd::arithmetic::div_mod::lemma_fundamental_div_mod(x0 + b1, w);
    vstd::arithmetic::div_mod::lemma_fundamental_div_mod(x0 + b2, w);
    vstd::arithmetic::div_mod::lemma_mod_bound(x0 + b1, w);
    vstd::arithmetic::div_mod::lemma_mod_bound(x0 + b2, w);
}

} // verus!
