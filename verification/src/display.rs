use vstd::prelude::*;

verus! {

/// Width of the screen in pixels.
pub const DISPLAY_WIDTH: usize = 64;

/// Height of the screen in pixels.
pub const DISPLAY_HEIGHT: usize = 32;

/// Number of pixels on the screen; the framebuffer holds them row by row.
pub const DISPLAY_SIZE: usize = 2048;

/// Position in the framebuffer of the pixel that the unwrapped coordinates
/// (`x`, `y`) land on: both axes wrap around the screen.
pub open spec fn pixel_index(x: int, y: int) -> int {
    (y % 32) * 64 + (x % 64)
}

/// Column and row of the pixel stored at `index` of the framebuffer.
pub fn pixel_coords(index: usize) -> (at: (usize, usize))
    ensures
        at.0 == index % 64,
        at.1 == index / 64,
        at.1 * 64 + at.0 == index,
        index < DISPLAY_SIZE ==> pixel_index(at.0 as int, at.1 as int) == index,
{
    (index % DISPLAY_WIDTH, index / DISPLAY_WIDTH)
}

/// The column of the framebuffer position `p` counted from the column `left`,
/// going right and around the edge of the screen: a number from 0 to 63.
pub open spec fn sprite_col(left: u8, p: int) -> int {
    ((p % 64) - left) % 64
}

/// The row of the framebuffer position `p` counted from the row `top`, going
/// down and around the edge of the screen: a number from 0 to 31.
pub open spec fn sprite_row(top: u8, p: int) -> int {
    ((p / 64) - top) % 32
}

/// Counting `d` steps from `from` around a ring of `size` places ends at
/// `at` exactly if `at` lies `d` places after `from` on the ring.
proof fn lemma_ring_offset(size: int, from: int, at: int, d: int)
    requires
        size == 32 || size == 64,
        0 <= from < 256,
        0 <= at < size,
        0 <= d < size,
    ensures
        ((at - from) % size == d) <==> (at == (from + d) % size),
{
    // Both sides say that `at - from - d` is a multiple of `size`; the
    // quotients name the two multiples.
    let q1 = (at - from) / size;
    let q2 = (from + d) / size;
    if size == 32 {
        assert(at - from == 32 * q1 + (at - from) % 32);
        assert(from + d == 32 * q2 + (from + d) % 32);
    } else {
        assert(at - from == 64 * q1 + (at - from) % 64);
        assert(from + d == 64 * q2 + (from + d) % 64);
    }
}

/// The position `p` of the framebuffer lies `row` rows below `top` and `col`
/// columns right of `left`, around the edges, exactly if it is the position
/// that the unwrapped coordinates (`left + col`, `top + row`) land on.
pub proof fn lemma_sprite_position(left: u8, top: u8, row: int, col: int, p: int)
    requires
        0 <= p < 2048,
        0 <= row < 32,
        0 <= col < 64,
    ensures
        (sprite_row(top, p) == row && sprite_col(left, p) == col) <==> p == pixel_index(
            left + col,
            top + row,
        ),
        0 <= pixel_index(left + col, top + row) < 2048,
{
    lemma_ring_offset(64, left as int, p % 64, col);
    lemma_ring_offset(32, top as int, p / 64, row);
}

} // verus!
