//! The sprite set: an apple, an organic-waste tile, a rock tile, a bot
//! body and eight bot-head variants, one per compass direction, each a
//! `CELL_SIZE` x `CELL_SIZE` pixel buffer generated once from geometric
//! primitives.
//!
//! Each generator's contract pins down the color of every pixel of the
//! sprite it returns, through a spec function giving the sprite's color
//! at each coordinate.

use crate::bot::Direction;
use crate::consts::{
    apple_draw_color_rgba, bot_head_color, bot_outline_color, organic_waste_draw_color,
    organic_waste_outline_color, rock_draw_color, CELL_SIZE, CELL_SIZE_HALF,
};
use crate::draw;
use crate::draw::lemma_diag_square;
use crate::geom::{Point, Rect, Size};
use crate::pixel::{Color, PixelBuffer};
use vstd::prelude::*;

verus! {

/// The four fixed sprites and the eight bot-head variants.
#[derive(Eq, PartialEq, Clone, Debug)]
pub struct Images {
    pub apple: PixelBuffer,
    pub organics: PixelBuffer,
    pub rock: PixelBuffer,
    pub bot: BotImage,
}

/// The bot sprites: one body and eight head variants, indexed by the
/// direction's 3-bit code.
#[derive(Eq, PartialEq, Clone, Debug)]
pub struct BotImage {
    pub head: [PixelBuffer; 8],
    pub body: PixelBuffer,
}

/// A well-formed tile: a square buffer of edge length `CELL_SIZE`.
pub open spec fn tile_wf(b: PixelBuffer) -> bool {
    &&& b.wf()
    &&& b.spec_width() == CELL_SIZE
    &&& b.spec_height() == CELL_SIZE
}

/// The squared distance of `(x, y)` from the tile center.
pub open spec fn apple_sq_dist(x: int, y: int) -> int {
    (CELL_SIZE_HALF - x) * (CELL_SIZE_HALF - x) + (CELL_SIZE_HALF - y) * (CELL_SIZE_HALF - y)
}

/// The apple sprite's color at `(x, y)`: the apple color strictly
/// inside the disc of radius `CELL_SIZE_HALF` around the tile center,
/// transparent elsewhere.
pub open spec fn apple_pixel(x: int, y: int) -> Color {
    if apple_sq_dist(x, y) < CELL_SIZE_HALF * CELL_SIZE_HALF {
        apple_draw_color_rgba()
    } else {
        Color::transparent()
    }
}

/// The outline rectangle of the organic-waste sprite, inset by one
/// pixel on all sides.
pub open spec fn organics_outline_rect() -> Rect<usize> {
    Rect {
        top_left: Point { x: 1usize, y: 1usize },
        size: Size { w: (CELL_SIZE - 2) as usize, h: (CELL_SIZE - 2) as usize },
    }
}

/// The organic-waste sprite's color at `(x, y)`: the fill color on the
/// rectangle inset by two pixels, the outline color on the outline of
/// the rectangle inset by one pixel, transparent elsewhere.
pub open spec fn organics_pixel(x: int, y: int) -> Color {
    if 2 <= x < CELL_SIZE - 2 && 2 <= y < CELL_SIZE - 2 {
        organic_waste_draw_color()
    } else if draw::on_outline(organics_outline_rect(), x, y) {
        organic_waste_outline_color()
    } else {
        Color::transparent()
    }
}

/// The rock sprite's color at `(x, y)`: the rock color on the rectangle
/// inset by one pixel, transparent elsewhere.
pub open spec fn rock_pixel(x: int, y: int) -> Color {
    if 1 <= x < CELL_SIZE - 1 && 1 <= y < CELL_SIZE - 1 {
        rock_draw_color()
    } else {
        Color::transparent()
    }
}

/// The full-tile rectangle.
pub open spec fn full_tile_rect() -> Rect<usize> {
    Rect { top_left: Point { x: 0usize, y: 0usize }, size: Size { w: CELL_SIZE, h: CELL_SIZE } }
}

/// The directional head mark: a half-tile line from the tile's center
/// to the edge or corner the direction points at.
pub open spec fn head_mark(direction: Direction, x: int, y: int) -> bool {
    match direction {
        Direction::N => x == CELL_SIZE_HALF && 0 <= y < CELL_SIZE_HALF,
        Direction::S => x == CELL_SIZE_HALF && CELL_SIZE_HALF <= y < CELL_SIZE,
        Direction::W => y == CELL_SIZE_HALF && 0 <= x < CELL_SIZE_HALF,
        Direction::E => y == CELL_SIZE_HALF && CELL_SIZE_HALF <= x < CELL_SIZE,
        Direction::NW => 0 <= x < CELL_SIZE_HALF && y == x,
        Direction::SE => CELL_SIZE_HALF <= x < CELL_SIZE && y == x,
        Direction::SW => 0 <= x < CELL_SIZE_HALF && y == CELL_SIZE - 1 - x,
        Direction::NE => CELL_SIZE_HALF <= x < CELL_SIZE && y == CELL_SIZE - 1 - x,
    }
}

/// The bot-head sprite's color at `(x, y)`: the head-mark color on the
/// directional mark if one is configured, else the outline color on the
/// full-tile outline if one is configured, else transparent.
pub open spec fn bot_head_pixel(direction: Direction, x: int, y: int) -> Color {
    if bot_head_color() is Some && head_mark(direction, x, y) {
        bot_head_color()->Some_0
    } else if bot_outline_color() is Some && draw::on_outline(full_tile_rect(), x, y) {
        bot_outline_color()->Some_0
    } else {
        Color::transparent()
    }
}

/// The buffer is the finished apple sprite.
pub open spec fn is_apple_image(b: PixelBuffer) -> bool {
    &&& tile_wf(b)
    &&& forall|x: int, y: int| b.in_image(x, y) ==> b.spec_pixel(x, y) == apple_pixel(x, y)
}

/// The buffer is the finished organic-waste sprite.
pub open spec fn is_organics_image(b: PixelBuffer) -> bool {
    &&& tile_wf(b)
    &&& forall|x: int, y: int| b.in_image(x, y) ==> b.spec_pixel(x, y) == organics_pixel(x, y)
}

/// The buffer is the finished rock sprite.
pub open spec fn is_rock_image(b: PixelBuffer) -> bool {
    &&& tile_wf(b)
    &&& forall|x: int, y: int| b.in_image(x, y) ==> b.spec_pixel(x, y) == rock_pixel(x, y)
}

/// The buffer is the finished bot body: a fully opaque white tile.
pub open spec fn is_bot_body_image(b: PixelBuffer) -> bool {
    &&& tile_wf(b)
    &&& forall|x: int, y: int| b.in_image(x, y) ==> b.spec_pixel(x, y) == Color::spec_white()
}

/// The buffer is the finished bot-head sprite for `direction`.
pub open spec fn is_bot_head_image(direction: Direction, b: PixelBuffer) -> bool {
    &&& tile_wf(b)
    &&& forall|x: int, y: int|
        b.in_image(x, y) ==> b.spec_pixel(x, y) == bot_head_pixel(direction, x, y)
}

/// A transparent square buffer of the given edge length.
pub fn create_empty_square(size: usize) -> (r: PixelBuffer)
    requires
        size * size <= usize::MAX,
    ensures
        r.wf(),
        r.spec_width() == size,
        r.spec_height() == size,
        forall|x: int, y: int| r.in_image(x, y) ==> r.spec_pixel(x, y) == Color::transparent(),
{
    PixelBuffer::new(size, size, Color::transparent())
}

/// Generate the apple sprite: a filled disc around the tile center,
/// painted by a strict squared-distance inclusion test on each pixel.
pub fn create_apple() -> (r: PixelBuffer)
    ensures
        is_apple_image(r),
{
    let mut apple = create_empty_square(CELL_SIZE);
    let mut y: usize = 0;
    while y < CELL_SIZE
        invariant
            y <= CELL_SIZE,
            tile_wf(apple),
            forall|px: int, py: int|
                apple.in_image(px, py) ==> apple.spec_pixel(px, py) == (if py < y {
                    apple_pixel(px, py)
                } else {
                    Color::transparent()
                }),
        decreases CELL_SIZE - y,
    {
        let mut x: usize = 0;
        while x < CELL_SIZE
            invariant
                y < CELL_SIZE,
                x <= CELL_SIZE,
                tile_wf(apple),
                forall|px: int, py: int|
                    apple.in_image(px, py) ==> apple.spec_pixel(px, py) == (if py < y || (py == y
                        && px < x) {
                        apple_pixel(px, py)
                    } else {
                        Color::transparent()
                    }),
            decreases CELL_SIZE - x,
        {
            let xd: i64 = CELL_SIZE_HALF as i64 - x as i64;
            let yd: i64 = CELL_SIZE_HALF as i64 - y as i64;
            proof {
                assert(0 <= xd * xd <= 64) by (nonlinear_arith)
                    requires
                        -8 <= xd <= 8,
                ;
                assert(0 <= yd * yd <= 64) by (nonlinear_arith)
                    requires
                        -8 <= yd <= 8,
                ;
                assert(xd * xd + yd * yd == apple_sq_dist(x as int, y as int));
            }
            if xd * xd + yd * yd < (CELL_SIZE_HALF * CELL_SIZE_HALF) as i64 {
                apple.set(x, y, apple_draw_color_rgba());
            }
            x = x + 1;
        }
        y = y + 1;
    }
    apple
}

/// Generate the organic-waste sprite: an outline rectangle inset by one
/// pixel, then a filled rectangle inset by two pixels over it.
pub fn create_organics() -> (r: PixelBuffer)
    ensures
        is_organics_image(r),
{
    let mut organics = create_empty_square(CELL_SIZE);
    draw::rect(
        &mut organics,
        &Rect {
            top_left: Point { x: 1, y: 1 },
            size: Size { w: CELL_SIZE - 2, h: CELL_SIZE - 2 },
        },
        organic_waste_outline_color(),
    );
    draw::filled_rect(
        &mut organics,
        &Rect {
            top_left: Point { x: 2, y: 2 },
            size: Size { w: CELL_SIZE - 4, h: CELL_SIZE - 4 },
        },
        organic_waste_draw_color(),
    );
    organics
}

/// Generate the rock sprite: a filled rectangle inset by one pixel.
pub fn create_rock() -> (r: PixelBuffer)
    ensures
        is_rock_image(r),
{
    let mut rock = create_empty_square(CELL_SIZE);
    draw::filled_rect(
        &mut rock,
        &Rect {
            top_left: Point { x: 1, y: 1 },
            size: Size { w: CELL_SIZE - 2, h: CELL_SIZE - 2 },
        },
        rock_draw_color(),
    );
    rock
}

/// Generate the bot-head sprite for one direction: a full-tile outline
/// if an outline color is configured, then the directional head mark if
/// a head-mark color is configured. The straight directions use a
/// half-tile axis-aligned line from the center to the edge; the
/// diagonal ones a half-tile diagonal in the matching quadrant, which
/// on a square quadrant is the exact (anti-)diagonal.
pub fn create_bot_head(direction: Direction) -> (r: PixelBuffer)
    ensures
        is_bot_head_image(direction, r),
{
    let mut head = create_empty_square(CELL_SIZE);
    if let Some(color) = bot_outline_color() {
        draw::rect(
            &mut head,
            &Rect {
                top_left: Point { x: 0, y: 0 },
                size: Size { w: CELL_SIZE, h: CELL_SIZE },
            },
            color,
        );
    }
    if let Some(color) = bot_head_color() {
        proof {
            let n: int = CELL_SIZE_HALF - 1;
            assert forall|k: nat| k < CELL_SIZE_HALF implies draw::diag_steps(n, n, k) == k by {
                lemma_diag_square(n, k);
            }
        }
        let half_size = Size { w: CELL_SIZE_HALF, h: CELL_SIZE_HALF };
        match direction {
            Direction::N => draw::vertical_line(&mut head, CELL_SIZE_HALF, 0..CELL_SIZE_HALF, color),
            Direction::NW => draw::diagonal_line_from_top_left(
                &mut head,
                &Rect { top_left: Point { x: 0, y: 0 }, size: half_size },
                color,
            ),
            Direction::W => draw::horizontal_line(&mut head, 0..CELL_SIZE_HALF, CELL_SIZE_HALF, color),
            Direction::SW => draw::diagonal_line_from_bottom_left(
                &mut head,
                &Rect { top_left: Point { x: 0, y: CELL_SIZE_HALF }, size: half_size },
                color,
            ),
            Direction::S => draw::vertical_line(
                &mut head,
                CELL_SIZE_HALF,
                CELL_SIZE_HALF..CELL_SIZE,
                color,
            ),
            Direction::SE => draw::diagonal_line_from_top_left(
                &mut head,
                &Rect {
                    top_left: Point { x: CELL_SIZE_HALF, y: CELL_SIZE_HALF },
                    size: half_size,
                },
                color,
            ),
            Direction::E => draw::horizontal_line(
                &mut head,
                CELL_SIZE_HALF..CELL_SIZE,
                CELL_SIZE_HALF,
                color,
            ),
            Direction::NE => draw::diagonal_line_from_bottom_left(
                &mut head,
                &Rect { top_left: Point { x: CELL_SIZE_HALF, y: 0 }, size: half_size },
                color,
            ),
        }
    }
    head
}

impl Default for Images {
    /// Generate the whole sprite set once.
    fn default() -> (r: Self)
        ensures
            is_apple_image(r.apple),
            is_organics_image(r.organics),
            is_rock_image(r.rock),
            is_bot_body_image(r.bot.body),
            forall|i: int|
                0 <= i < 8 ==> is_bot_head_image(
                    Direction::spec_from_code(i),
                    #[trigger] r.bot.head@[i],
                ),
    {
        Images {
            apple: create_apple(),
            organics: create_organics(),
            rock: create_rock(),
            bot: BotImage::default(),
        }
    }
}

impl Default for BotImage {
    /// Generate the bot body and the eight head variants; head `i`
    /// carries the mark of the direction whose code is `i`.
    fn default() -> (r: Self)
        ensures
            is_bot_body_image(r.body),
            forall|i: int|
                0 <= i < 8 ==> is_bot_head_image(
                    Direction::spec_from_code(i),
                    #[trigger] r.head@[i],
                ),
    {
        let head = [
            create_bot_head(Direction::N),
            create_bot_head(Direction::NW),
            create_bot_head(Direction::W),
            create_bot_head(Direction::SW),
            create_bot_head(Direction::S),
            create_bot_head(Direction::SE),
            create_bot_head(Direction::E),
            create_bot_head(Direction::NE),
        ];
        let body = PixelBuffer::new(CELL_SIZE, CELL_SIZE, Color::white());
        BotImage { head, body }
    }
}

} // verus!
