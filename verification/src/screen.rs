//! The screen buffer of the RAM and its drawing on a sprite.
//!
//! The screen is a bitmap of 512 by 256 pixels, one bit each, in the 8192
//! words from `SCREEN_ADDR` on. A word holds sixteen pixels of one row; its
//! bit 0 is the leftmost of them, and a set bit is a lit pixel.

use vstd::prelude::*;
use crate::memory::{word_at, RAM16K};
use olc_pixel_game_engine::{Pixel, Sprite};

verus! {

/// Address of the first word of the screen buffer in RAM.
pub const SCREEN_ADDR: i32 = 16384;

/// Width of the screen in pixels.
pub const SCREEN_W: i32 = 512;

/// Height of the screen in pixels.
pub const SCREEN_H: i32 = 256;

/// Words in one row of the screen.
pub const SC_SCR: i32 = 32;

/// Words in the screen buffer.
pub const SCREEN_WORDS: u16 = 8192;

/// A colour: red, green, blue and alpha.
pub type Rgba = (u8, u8, u8, u8);

/// Whether `(x, y)` is a pixel of the screen.
pub open spec fn on_screen(x: int, y: int) -> bool {
    0 <= x < SCREEN_W && 0 <= y < SCREEN_H
}

/// Whether the pixel `(x, y)` of the screen is lit.
pub open spec fn lit(ram: Seq<u16>, x: int, y: int) -> bool {
    (word_at(ram, (SCREEN_ADDR + y * SC_SCR + x / 16) as u16) >> ((x % 16) as u16)) & 1 == 1
}

/// The colour of a pixel on the display: black where it is lit, white
/// where it is not.
pub open spec fn shade(lit: bool) -> Rgba {
    if lit {
        (0u8, 0u8, 0u8, 0xFFu8)
    } else {
        (0xFFu8, 0xFFu8, 0xFFu8, 0xFFu8)
    }
}

/// `olc_pixel_game_engine::Sprite`, an image in the pixel engine's own
/// memory. Nothing of its inside is known here but what the two names below
/// stand for.
#[verifier::external_type_specification]
#[verifier::external_body]
pub struct ExSprite(olc_pixel_game_engine::Sprite);

/// The pixels that a sprite holds, by their coordinates.
pub uninterp spec fn sprite_pixels(sprite: Sprite) -> Map<(int, int), Rgba>;

/// The width and the height of a sprite.
pub uninterp spec fn sprite_size(sprite: Sprite) -> (int, int);

/// Whether `(x, y)` lies inside a sprite of the given size.
pub open spec fn inside(size: (int, int), x: int, y: int) -> bool {
    0 <= x < size.0 && 0 <= y < size.1
}

/// `olc_pixel_game_engine::Sprite::set_pixel`, with an opaque colour made by
/// `olc_pixel_game_engine::Pixel::rgb`. Inside
/// the sprite the pixel at `(x, y)` takes the colour, every other pixel
/// stays, and the call returns `true`; outside it nothing changes and the
/// call returns `false`. The size never changes.
#[verifier::external_body]
fn set_pixel(sprite: &mut Sprite, x: i32, y: i32, r: u8, g: u8, b: u8) -> (drawn: bool)
    ensures
        sprite_size(*final(sprite)) == sprite_size(*old(sprite)),
        drawn == inside(sprite_size(*old(sprite)), x as int, y as int),
        sprite_pixels(*final(sprite)) == if drawn {
            sprite_pixels(*old(sprite)).insert((x as int, y as int), (r, g, b, 0xFFu8))
        } else {
            sprite_pixels(*old(sprite))
        },
{
    sprite.set_pixel(x, y, Pixel::rgb(r, g, b))
}

/// The pixels of a sprite of the given size after the first `count` pixels
/// of the screen, counted row by row, have been drawn on it.
pub open spec fn painted(
    before: Map<(int, int), Rgba>,
    size: (int, int),
    ram: Seq<u16>,
    count: int,
) -> Map<(int, int), Rgba> {
    Map::new(
        |p: (int, int)| before.dom().contains(p) || drawn_within(size, p, count),
        |p: (int, int)|
            if drawn_within(size, p, count) {
                shade(lit(ram, p.0, p.1))
            } else {
                before[p]
            },
    )
}

/// Whether `p` is among the first `count` pixels of the screen and inside a
/// sprite of the given size.
pub open spec fn drawn_within(size: (int, int), p: (int, int), count: int) -> bool {
    on_screen(p.0, p.1) && inside(size, p.0, p.1) && p.1 * SCREEN_W + p.0 < count
}

/// Draws the screen buffer on `screen`: every pixel of the screen that lies
/// inside the sprite becomes black where it is lit and white where it is
/// not. Nothing else of the sprite changes.
pub fn render(ram: &RAM16K, screen: &mut Sprite)
    ensures
        sprite_size(*final(screen)) == sprite_size(*old(screen)),
        sprite_pixels(*final(screen)) == painted(
            sprite_pixels(*old(screen)),
            sprite_size(*old(screen)),
            ram@,
            SCREEN_W * SCREEN_H,
        ),
{
    let ghost before = sprite_pixels(*screen);
    let ghost size = sprite_size(*screen);
    let mut word: u16 = 0;
    while word < SCREEN_WORDS
        invariant
            word <= SCREEN_WORDS,
            sprite_size(*screen) == size,
            sprite_pixels(*screen) == painted(before, size, ram@, word * 16),
        decreases SCREEN_WORDS - word,
    {
        let bits: u16 = *ram.read_u16(SCREEN_ADDR as u16 + word);
        let row: i32 = (word / 32) as i32;
        let left: i32 = ((word % 32) * 16) as i32;
        let mut i: u16 = 0;
        while i < 16
            invariant
                word < SCREEN_WORDS,
                i <= 16,
                row == word / 32,
                left == (word % 32) * 16,
                bits == word_at(ram@, (SCREEN_ADDR + word) as u16),
                sprite_size(*screen) == size,
                sprite_pixels(*screen) == painted(before, size, ram@, word * 16 + i),
            decreases 16 - i,
        {
            let on: bool = (bits >> i) & 1 == 1;
            let ghost x = left + i;
            let ghost y = row as int;
            let level: u8 = if on {
                0
            } else {
                0xFF
            };
            let drawn = set_pixel(screen, left + i as i32, row, level, level, level);
            i += 1;
        }
        word += 1;
    }
}

} // verus!
