//! The 64 by 32 monochrome screen and the drawing of sprites on it.
//!
//! A screen is a sequence of 32 rows of 64 pixels, `true` for a pixel that
//! is on. A sprite is a sequence of bytes, one per row from the top, the
//! most significant bit leftmost. Drawing combines the sprite with the
//! screen by exclusive or; what falls beyond the right or the bottom edge
//! is left out.

use vstd::prelude::*;

verus! {

/// Pixels in a row.
pub const SCREEN_WIDTH: usize = 64;

/// Rows on the screen.
pub const SCREEN_HEIGHT: usize = 32;

/// Pixels in a row of a sprite.
pub const SPRITE_WIDTH: usize = 8;

/// The screen held by an array of rows.
pub open spec fn screen_view(screen: [[bool; 64]; 32]) -> Seq<Seq<bool>> {
    Seq::new(SCREEN_HEIGHT as nat, |r: int| screen[r]@)
}

/// A screen has 32 rows of 64 pixels.
pub open spec fn is_screen(screen: Seq<Seq<bool>>) -> bool {
    &&& screen.len() == SCREEN_HEIGHT
    &&& forall|r: int| 0 <= r < SCREEN_HEIGHT ==> (#[trigger] screen[r]).len() == SCREEN_WIDTH
}

/// The screen with every pixel off.
pub open spec fn blank_screen() -> Seq<Seq<bool>> {
    Seq::new(SCREEN_HEIGHT as nat, |r: int| Seq::new(SCREEN_WIDTH as nat, |c: int| false))
}

/// Bit `col` of a sprite row, counted from the left.
pub open spec fn sprite_bit(byte: u8, col: int) -> bool {
    0 <= col < SPRITE_WIDTH && byte & (0x80u8 >> (col as u8)) != 0
}

/// The sprite, with its top left corner at column `x0` of row `y0`, has a
/// set bit on the pixel in column `c` of row `r`.
pub open spec fn covers(sprite: Seq<u8>, x0: int, y0: int, r: int, c: int) -> bool {
    0 <= r - y0 < sprite.len() && sprite_bit(sprite[r - y0], c - x0)
}

/// The screen after the sprite is drawn at (`x0`, `y0`): every pixel the
/// sprite covers is flipped, no other changes.
pub open spec fn xor_sprite(screen: Seq<Seq<bool>>, sprite: Seq<u8>, x0: int, y0: int) -> Seq<
    Seq<bool>,
> {
    Seq::new(
        SCREEN_HEIGHT as nat,
        |r: int|
            Seq::new(SCREEN_WIDTH as nat, |c: int| screen[r][c] != covers(sprite, x0, y0, r, c)),
    )
}

/// The sprite covers a pixel that is on.
pub open spec fn hits(screen: Seq<Seq<bool>>, sprite: Seq<u8>, x0: int, y0: int, r: int, c: int) -> bool {
    &&& 0 <= r < SCREEN_HEIGHT
    &&& 0 <= c < SCREEN_WIDTH
    &&& screen[r][c]
    &&& covers(sprite, x0, y0, r, c)
}

/// Drawing the sprite at (`x0`, `y0`) turns at least one pixel off.
pub open spec fn collides(screen: Seq<Seq<bool>>, sprite: Seq<u8>, x0: int, y0: int) -> bool {
    exists|r: int, c: int| hits(screen, sprite, x0, y0, r, c)
}

/// The sprite covers a pixel that is on and that comes before column
/// `c_lim` of row `r_lim` in reading order.
pub open spec fn hits_before(
    screen: Seq<Seq<bool>>,
    sprite: Seq<u8>,
    x0: int,
    y0: int,
    r_lim: int,
    c_lim: int,
) -> bool {
    exists|r: int, c: int|
        hits(screen, sprite, x0, y0, r, c) && (r < r_lim || (r == r_lim && c < c_lim))
}

/// Draws the `rows` bytes of `memory` from `start` on as a sprite with its
/// top left corner at (`x0`, `y0`), and says whether that turned a pixel
/// off.
pub fn draw_sprite(
    screen: &mut [[bool; 64]; 32],
    memory: &[u8; 4096],
    start: usize,
    rows: usize,
    x0: usize,
    y0: usize,
) -> (collision: bool)
    requires
        start + rows <= 4096,
    ensures
        screen_view(*final(screen)) == xor_sprite(
            screen_view(*old(screen)),
            memory@.subrange(start as int, start + rows),
            x0 as int,
            y0 as int,
        ),
        collision == collides(
            screen_view(*old(screen)),
            memory@.subrange(start as int, start + rows),
            x0 as int,
            y0 as int,
        ),
{
    let ghost before = screen_view(*screen);
    let ghost sprite = memory@.subrange(start as int, start + rows);
    let row_end: usize = if y0 >= SCREEN_HEIGHT {
        0
    } else if rows < SCREEN_HEIGHT - y0 {
        rows
    } else {
        SCREEN_HEIGHT - y0
    };
    let col_end: usize = if x0 >= SCREEN_WIDTH {
        0
    } else if SPRITE_WIDTH < SCREEN_WIDTH - x0 {
        SPRITE_WIDTH
    } else {
        SCREEN_WIDTH - x0
    };
    let mut hit: bool = false;
    let mut row: usize = 0;
    while row < row_end
        invariant
            row <= row_end,
            row_end <= rows,
            y0 + row_end <= SCREEN_HEIGHT || row_end == 0,
            col_end <= SPRITE_WIDTH,
            x0 + col_end <= SCREEN_WIDTH || col_end == 0,
            col_end == SPRITE_WIDTH || x0 + col_end >= SCREEN_WIDTH,
            start + rows <= 4096,
            before == screen_view(*old(screen)),
            sprite == memory@.subrange(start as int, start + rows),
            forall|r: int, c: int|
                0 <= r < SCREEN_HEIGHT && 0 <= c < SCREEN_WIDTH ==> #[trigger] screen@[r]@[c] == (
                if r < y0 + row {
                    before[r][c] != covers(sprite, x0 as int, y0 as int, r, c)
                } else {
                    before[r][c]
                }),
            hit == hits_before(before, sprite, x0 as int, y0 as int, y0 + row, 0),
        decreases row_end - row,
    {
        let byte: u8 = memory[start + row];
        let r: usize = y0 + row;
        let mut col: usize = 0;
        while col < col_end
            invariant
                col <= col_end,
                row < row_end,
                row_end <= rows,
                r == y0 + row,
                r < SCREEN_HEIGHT,
                col_end <= SPRITE_WIDTH,
                x0 + col_end <= SCREEN_WIDTH || col_end == 0,
                start + rows <= 4096,
                byte == sprite[row as int],
                sprite.len() == rows,
                forall|r2: int, c: int|
                    0 <= r2 < SCREEN_HEIGHT && 0 <= c < SCREEN_WIDTH ==> #[trigger] screen@[r2]@[c]
                        == (if r2 < r || (r2 == r && c < x0 + col) {
                        before[r2][c] != covers(sprite, x0 as int, y0 as int, r2, c)
                    } else {
                        before[r2][c]
                    }),
                hit == hits_before(before, sprite, x0 as int, y0 as int, r as int, x0 + col),
            decreases col_end - col,
        {
            let c: usize = x0 + col;
            let bit: bool = byte & (0x80u8 >> (col as u8)) != 0;
            let ghost hit_here = hits(before, sprite, x0 as int, y0 as int, r as int, c as int);
            if bit {
                if screen[r][c] {
                    hit = true;
                }
                screen[r][c] = !screen[r][c];
            }
            col = col + 1;
            assert(hits_before(before, sprite, x0 as int, y0 as int, r as int, x0 + col)
                == (hits_before(before, sprite, x0 as int, y0 as int, r as int, c as int)
                || hit_here));
        }
        row = row + 1;
        assert(hits_before(before, sprite, x0 as int, y0 as int, y0 + row, 0) == hits_before(
            before,
            sprite,
            x0 as int,
            y0 as int,
            r as int,
            x0 + col_end,
        ));
    }
    assert(screen_view(*screen) =~~= xor_sprite(before, sprite, x0 as int, y0 as int));
    hit
}

} // verus!
