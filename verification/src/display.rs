//! The display model: where a sprite pixel lands and which sprite bit it
//! carries, plus the injectivity facts that make a sprite draw well defined.

use vstd::prelude::*;
use crate::cpu::{GFX_COLS, GFX_ROWS, GFX_SIZE};

verus! {

/// The display row that row `r` of a sprite drawn at origin row `vy` lands
/// on; rows wrap around the bottom edge.
pub open spec fn pixel_row(vy: int, r: int) -> int {
    (vy + r) % GFX_ROWS as int
}

/// The display column that column `c` of a sprite drawn at origin column
/// `vx` lands on; columns wrap around the right edge.
pub open spec fn pixel_col(vx: int, c: int) -> int {
    (vx + c) % GFX_COLS as int
}

/// The display-buffer index that sprite pixel (row `r`, column `c`) of a
/// sprite drawn at origin (`vx`, `vy`) lands on.
pub open spec fn pixel_index(vx: int, vy: int, r: int, c: int) -> int {
    pixel_row(vy, r) * GFX_COLS as int + pixel_col(vx, c)
}

/// Bit `c` of a sprite row byte, most-significant bit first.
pub open spec fn sprite_bit(b: u8, c: int) -> bool {
    b >> ((7 - c) as u8) & 1 == 1
}

/// Sprite pixel (`r`, `c`) of an `n`-row sprite at origin (`vx`, `vy`)
/// lands on display-buffer index `j`.
pub open spec fn sprite_hits(vx: int, vy: int, n: int, j: int, r: int, c: int) -> bool {
    0 <= r < n && 0 <= c < 8 && j == pixel_index(vx, vy, r, c)
}

/// Sprite pixels are drawn row-major: pixel (`r`, `c`) is the
/// `8 * r + c`-th one. This predicate says it comes before the `p`-th.
pub open spec fn pix_before(p: int, r: int, c: int) -> bool {
    8 * r + c < p
}

/// The first `p` sprite pixels have been XORed into the buffer.
pub open spec fn drawn_prefix(
    gfx0: Seq<bool>,
    mem: Seq<u8>,
    i: int,
    vx: int,
    vy: int,
    p: int,
    gfx: Seq<bool>,
) -> bool {
    forall|r: int, c: int|
        0 <= r && 0 <= c < 8 && pix_before(p, r, c) ==> gfx[#[trigger] pixel_index(vx, vy, r, c)]
            == (gfx0[pixel_index(vx, vy, r, c)] ^ sprite_bit(mem[i + r], c))
}

/// Every buffer cell that none of the first `p` sprite pixels lands on
/// still holds its original value.
pub open spec fn untouched_prefix(
    gfx0: Seq<bool>,
    vx: int,
    vy: int,
    p: int,
    gfx: Seq<bool>,
) -> bool {
    forall|j: int|
        0 <= j < GFX_SIZE && !(exists|r: int, c: int|
            0 <= r && 0 <= c < 8 && pix_before(p, r, c) && j == pixel_index(vx, vy, r, c))
            ==> gfx[j] == gfx0[j]
}

/// One of the first `p` sprite pixels hit a cell that was already lit.
pub open spec fn collision_prefix(
    gfx0: Seq<bool>,
    mem: Seq<u8>,
    i: int,
    vx: int,
    vy: int,
    p: int,
) -> bool {
    exists|r: int, c: int|
        0 <= r && 0 <= c < 8 && pix_before(p, r, c) && sprite_bit(mem[i + r], c)
            && gfx0[#[trigger] pixel_index(vx, vy, r, c)]
}

/// Two offsets within one window of the modulus that land on the same
/// residue are the same offset.
proof fn lemma_mod_window_injective(a: int, d1: int, d2: int, w: int)
    requires
        w > 0,
        0 <= d1 < w,
        0 <= d2 < w,
        (a + d1) % w == (a + d2) % w,
    ensures
        d1 == d2,
{
    let q1 = (a + d1) / w;
    let q2 = (a + d2) / w;
    vstd::arithmetic::div_mod::lemma_fundamental_div_mod(a + d1, w);
    vstd::arithmetic::div_mod::lemma_fundamental_div_mod(a + d2, w);
    assert(d1 - d2 == w * (q1 - q2)) by (nonlinear_arith)
        requires
            a + d1 == w * q1 + (a + d1) % w,
            a + d2 == w * q2 + (a + d2) % w,
            (a + d1) % w == (a + d2) % w,
    ;
    assert(d1 == d2) by (nonlinear_arith)
        requires
            d1 - d2 == w * (q1 - q2),
            0 <= d1 < w,
            0 <= d2 < w,
            w > 0,
    ;
}

/// Within one draw, distinct sprite pixels land on distinct display-buffer
/// cells: the row window (at most 32 rows) and the column window (8 columns)
/// are both narrower than the display, so wrapping never folds two sprite
/// pixels together.
pub proof fn lemma_pixel_index_injective(
    vx: int,
    vy: int,
    r1: int,
    c1: int,
    r2: int,
    c2: int,
)
    requires
        0 <= r1 < GFX_ROWS,
        0 <= c1 < 8,
        0 <= r2 < GFX_ROWS,
        0 <= c2 < 8,
        pixel_index(vx, vy, r1, c1) == pixel_index(vx, vy, r2, c2),
    ensures
        r1 == r2,
        c1 == c2,
{
    let y1 = pixel_row(vy, r1);
    let y2 = pixel_row(vy, r2);
    let x1 = pixel_col(vx, c1);
    let x2 = pixel_col(vx, c2);
    assert(0 <= y1 < 32 && 0 <= y2 < 32 && 0 <= x1 < 64 && 0 <= x2 < 64);
    assert(y1 == y2 && x1 == x2);
    lemma_mod_window_injective(vy, r1, r2, GFX_ROWS as int);
    lemma_mod_window_injective(vx, c1, c2, GFX_COLS as int);
}

} // verus!
