//! The display: what it means to draw a sprite, and the code that draws.

use crate::MEMORY_SIZE;
use vstd::prelude::*;

verus! {

/// Number of pixels in one row of the display.
pub const SCREEN_WIDTH: usize = 64;

/// Number of rows of the display.
pub const SCREEN_HEIGHT: usize = 32;

/// The display as a mathematical object: 32 rows of 64 pixels, each lit
/// (`true`) or dark. `grid[r][c]` is the pixel in row `r`, counted from the
/// top, and column `c`, counted from the left.
pub type Pixels = Seq<Seq<bool>>;

/// A grid has the display's dimensions.
pub open spec fn grid_ok(grid: Pixels) -> bool {
    &&& grid.len() == 32
    &&& forall|r: int| 0 <= r < 32 ==> (#[trigger] grid[r]).len() == 64
}

/// The display with every pixel dark.
pub open spec fn blank() -> Pixels {
    Seq::new(32, |r: int| Seq::new(64, |c: int| false))
}

/// Bit `col` of a sprite row, counted from the left: column 0 is the most
/// significant bit.
pub open spec fn sprite_bit(row: u8, col: int) -> bool
    recommends
        0 <= col < 8,
{
    (row >> ((7 - col) as u8)) & 1u8 == 1u8
}

/// Whether a sprite whose top-left corner is drawn at column `x0`, row `y0`
/// has a set bit on pixel `(r, c)`.
///
/// Each sprite row and each sprite column wraps around the edge of the
/// display on its own: sprite row `i` lands on display row `(y0 + i) mod 32`
/// and sprite column `j` on display column `(x0 + j) mod 64`. A sprite has at
/// most 15 rows of 8 pixels, so no pixel is reached twice.
pub open spec fn sprite_covers(sprite: Seq<u8>, x0: int, y0: int, r: int, c: int) -> bool {
    let row = (r - y0) % 32;
    let col = (c - x0) % 64;
    row < sprite.len() && col < 8 && sprite_bit(sprite[row], col)
}

/// The grid after a sprite has been XORed onto it: exactly the pixels under
/// a set sprite bit are flipped.
pub open spec fn xor_sprite(grid: Pixels, sprite: Seq<u8>, x0: int, y0: int) -> Pixels {
    Seq::new(
        32,
        |r: int| Seq::new(64, |c: int| grid[r][c] != sprite_covers(sprite, x0, y0, r, c)),
    )
}

/// Whether drawing the sprite would switch off a pixel that is lit.
pub open spec fn collides(grid: Pixels, sprite: Seq<u8>, x0: int, y0: int) -> bool {
    exists|r: int, c: int|
        0 <= r < 32 && 0 <= c < 64 && #[trigger] grid[r][c] && sprite_covers(sprite, x0, y0, r, c)
}

/// Whether the sprite has a set bit anywhere.
pub open spec fn sprite_has_ink(sprite: Seq<u8>) -> bool {
    exists|i: int| 0 <= i < sprite.len() && #[trigger] sprite[i] != 0
}

/// The display cells read as pixels: a cell other than 0 is lit.
pub open spec fn pixels_of(display: [[u8; SCREEN_WIDTH]; SCREEN_HEIGHT]) -> Pixels {
    Seq::new(32, |r: int| Seq::new(64, |c: int| display[r][c] != 0))
}

/// Every display cell holds 0 or 1.
pub open spec fn cells_ok(display: [[u8; SCREEN_WIDTH]; SCREEN_HEIGHT]) -> bool {
    forall|r: int, c: int| 0 <= r < 32 && 0 <= c < 64 ==> #[trigger] display[r][c] <= 1
}

/// Two displays whose cells hold 0 or 1 and that show the same pixels are
/// the same display.
pub proof fn lemma_pixels_determine_cells(
    a: [[u8; SCREEN_WIDTH]; SCREEN_HEIGHT],
    b: [[u8; SCREEN_WIDTH]; SCREEN_HEIGHT],
)
    requires
        cells_ok(a),
        cells_ok(b),
        pixels_of(a) == pixels_of(b),
    ensures
        a == b,
{
    assert forall|r: int| 0 <= r < 32 implies a[r] == b[r] by {
        assert forall|c: int| 0 <= c < 64 implies a[r][c] == b[r][c] by {
            assert(pixels_of(a)[r][c] == (a[r][c] != 0));
            assert(pixels_of(b)[r][c] == (b[r][c] != 0));
        }
        assert(a[r] =~= b[r]);
    }
    assert(a =~= b);
}

/// The `n` bytes found in `memory` from address `base` on, read as a sprite.
pub open spec fn sprite_at(memory: Seq<u8>, base: int, n: int) -> Seq<u8> {
    Seq::new(n as nat, |i: int| memory[base + i])
}

/// The part of a sprite that has been drawn when its rows before `rows` are
/// done and, of row `rows`, the columns before `cols`.
pub open spec fn covered_so_far(
    sprite: Seq<u8>,
    x0: int,
    y0: int,
    rows: int,
    cols: int,
    r: int,
    c: int,
) -> bool {
    let row = (r - y0) % 32;
    let col = (c - x0) % 64;
    sprite_covers(sprite, x0, y0, r, c) && (row < rows || (row == rows && col < cols))
}

/// On a ring of 32 rows, row `r` lies `k` rows below `origin` exactly when
/// it is the row reached by going down `k` rows from `origin`.
pub proof fn lemma_row_offset(r: int, origin: int, k: int)
    requires
        0 <= r < 32,
        0 <= origin < 32,
        0 <= k < 32,
    ensures
        ((r - origin) % 32 == k) == (r == (origin + k) % 32),
{
}

/// On a ring of 64 columns, column `c` lies `k` columns right of `origin`
/// exactly when it is the column reached by going right `k` columns from
/// `origin`.
pub proof fn lemma_col_offset(c: int, origin: int, k: int)
    requires
        0 <= c < 64,
        0 <= origin < 64,
        0 <= k < 64,
    ensures
        ((c - origin) % 64 == k) == (c == (origin + k) % 64),
{
}

/// XORs the `n` sprite rows found in `memory` from address `base` on onto
/// the display, with the sprite's top-left corner at column `x0`, row `y0`.
/// Returns whether a lit pixel went dark.
pub(crate) fn xor_sprite_onto(
    display: &mut [[u8; SCREEN_WIDTH]; SCREEN_HEIGHT],
    memory: &[u8; MEMORY_SIZE],
    base: usize,
    n: usize,
    x0: usize,
    y0: usize,
) -> (erased: bool)
    requires
        cells_ok(*old(display)),
        n <= 15,
        n > 0 ==> base + n <= 4096,
        x0 < 64,
        y0 < 32,
    ensures
        cells_ok(*final(display)),
        pixels_of(*final(display)) == xor_sprite(
            pixels_of(*old(display)),
            sprite_at(memory@, base as int, n as int),
            x0 as int,
            y0 as int,
        ),
        erased == collides(
            pixels_of(*old(display)),
            sprite_at(memory@, base as int, n as int),
            x0 as int,
            y0 as int,
        ),
{
    let ghost before = pixels_of(*display);
    let ghost sprite = sprite_at(memory@, base as int, n as int);
    let ghost mut hit_r: int = 0;
    let ghost mut hit_c: int = 0;
    let mut erased = false;
    let mut row: usize = 0;
    while row < n
        invariant
            row <= n <= 15,
            n > 0 ==> base + n <= 4096,
            x0 < 64,
            y0 < 32,
            sprite == sprite_at(memory@, base as int, n as int),
            before == pixels_of(*old(display)),
            cells_ok(*display),
            forall|r: int, c: int|
                0 <= r < 32 && 0 <= c < 64 ==> (#[trigger] display[r][c] != 0) == (before[r][c]
                    != covered_so_far(sprite, x0 as int, y0 as int, row as int, 0, r, c)),
            erased ==> 0 <= hit_r < 32 && 0 <= hit_c < 64 && before[hit_r][hit_c] && sprite_covers(
                sprite,
                x0 as int,
                y0 as int,
                hit_r,
                hit_c,
            ),
            !erased ==> forall|r: int, c: int|
                0 <= r < 32 && 0 <= c < 64 && #[trigger] before[r][c] ==> !covered_so_far(
                    sprite,
                    x0 as int,
                    y0 as int,
                    row as int,
                    0,
                    r,
                    c,
                ),
        decreases n - row,
    {
        let sprite_byte = memory[base + row];
        let y = (y0 + row) % SCREEN_HEIGHT;
        let mut col: u8 = 0;
        while col < 8
            invariant
                row < n <= 15,
                col <= 8,
                x0 < 64,
                y0 < 32,
                y == (y0 + row) % 32,
                sprite.len() == n,
                sprite_byte == sprite[row as int],
                before == pixels_of(*old(display)),
                cells_ok(*display),
                forall|r: int, c: int|
                    0 <= r < 32 && 0 <= c < 64 ==> (#[trigger] display[r][c] != 0) == (before[r][c]
                        != covered_so_far(sprite, x0 as int, y0 as int, row as int, col as int, r, c)),
                erased ==> 0 <= hit_r < 32 && 0 <= hit_c < 64 && before[hit_r][hit_c]
                    && sprite_covers(sprite, x0 as int, y0 as int, hit_r, hit_c),
                !erased ==> forall|r: int, c: int|
                    0 <= r < 32 && 0 <= c < 64 && #[trigger] before[r][c] ==> !covered_so_far(
                        sprite,
                        x0 as int,
                        y0 as int,
                        row as int,
                        col as int,
                        r,
                        c,
                    ),
            decreases 8 - col,
        {
            let x = (x0 + col as usize) % SCREEN_WIDTH;
            let shift: u8 = 7 - col;
            let bit = (sprite_byte >> shift) & 1;
            let cell = display[y][x];
            assert(bit <= 1) by (bit_vector)
                requires
                    bit == (sprite_byte >> shift) & 1,
            ;
            assert((cell ^ bit) <= 1 && ((cell ^ bit) != 0) == ((cell != 0) != (bit == 1)))
                by (bit_vector)
                requires
                    cell <= 1,
                    bit <= 1,
            ;
            assert((bit == 1) == sprite_bit(sprite_byte, col as int));
            if bit == 1 && cell == 1 {
                erased = true;
                proof {
                    hit_r = y as int;
                    hit_c = x as int;
                }
            }
            display[y][x] = cell ^ bit;
            proof {
                assert forall|r: int, c: int| 0 <= r < 32 && 0 <= c < 64 implies covered_so_far(
                    sprite,
                    x0 as int,
                    y0 as int,
                    row as int,
                    col + 1,
                    r,
                    c,
                ) == (covered_so_far(sprite, x0 as int, y0 as int, row as int, col as int, r, c) || (
                r == y && c == x && bit == 1)) by {
                    lemma_row_offset(r, y0 as int, row as int);
                    lemma_col_offset(c, x0 as int, col as int);
                }
            }
            col += 1;
        }
        proof {
            assert forall|r: int, c: int| 0 <= r < 32 && 0 <= c < 64 implies covered_so_far(
                sprite,
                x0 as int,
                y0 as int,
                row as int,
                8,
                r,
                c,
            ) == covered_so_far(sprite, x0 as int, y0 as int, row + 1, 0, r, c) by {}
        }
        row += 1;
    }
    proof {
        let after = xor_sprite(before, sprite, x0 as int, y0 as int);
        assert(pixels_of(*display) =~~= after);
    }
    erased
}

/// Whether any pixel of the display is lit.
pub(crate) fn any_lit(display: &[[u8; SCREEN_WIDTH]; SCREEN_HEIGHT]) -> (lit: bool)
    ensures
        lit == (pixels_of(*display) != blank()),
{
    let mut r: usize = 0;
    while r < SCREEN_HEIGHT
        invariant
            r <= 32,
            forall|a: int, b: int| 0 <= a < r && 0 <= b < 64 ==> #[trigger] display[a][b] == 0,
        decreases 32 - r,
    {
        let mut c: usize = 0;
        while c < SCREEN_WIDTH
            invariant
                r < 32,
                c <= 64,
                forall|a: int, b: int| 0 <= a < r && 0 <= b < 64 ==> #[trigger] display[a][b] == 0,
                forall|b: int| 0 <= b < c ==> #[trigger] display[r as int][b] == 0,
            decreases 64 - c,
        {
            if display[r][c] != 0 {
                assert(pixels_of(*display)[r as int][c as int] != blank()[r as int][c as int]);
                return true;
            }
            c += 1;
        }
        r += 1;
    }
    assert(pixels_of(*display) =~~= blank());
    false
}

/// Whether the `n`-row sprite at address `base` has a set bit.
pub(crate) fn has_ink(memory: &[u8; MEMORY_SIZE], base: usize, n: usize) -> (ink: bool)
    requires
        n > 0 ==> base + n <= 4096,
    ensures
        ink == sprite_has_ink(sprite_at(memory@, base as int, n as int)),
{
    let ghost sprite = sprite_at(memory@, base as int, n as int);
    let mut i: usize = 0;
    while i < n
        invariant
            i <= n,
            n > 0 ==> base + n <= 4096,
            sprite == sprite_at(memory@, base as int, n as int),
            forall|k: int| 0 <= k < i ==> #[trigger] sprite[k] == 0,
        decreases n - i,
    {
        if memory[base + i] != 0 {
            assert(sprite[i as int] != 0);
            return true;
        }
        i += 1;
    }
    false
}

} // verus!
