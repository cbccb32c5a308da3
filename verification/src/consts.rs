//! The fixed tile size and the named colors of the sprite palette.

use crate::pixel::Color;
use vstd::prelude::*;

verus! {

/// Tile edge length in pixels.
pub const CELL_SIZE: usize = 8;

/// Half the tile edge length.
pub const CELL_SIZE_HALF: usize = CELL_SIZE / 2;

/// The grey used for both the bot outline and the bot head mark.
pub open spec fn spec_bot_outline_color_def() -> Color {
    Color::spec_from_rgb(111, 111, 111)
}

/// The grey used for both the bot outline and the bot head mark.
#[verifier::when_used_as_spec(spec_bot_outline_color_def)]
pub fn bot_outline_color_def() -> (c: Color)
    ensures
        c == spec_bot_outline_color_def(),
{
    Color::from_rgb(111, 111, 111)
}

/// The bot outline color, if one is configured.
pub open spec fn spec_bot_outline_color() -> Option<Color> {
    Some(spec_bot_outline_color_def())
}

/// The bot outline color, if one is configured.
#[verifier::when_used_as_spec(spec_bot_outline_color)]
pub fn bot_outline_color() -> (c: Option<Color>)
    ensures
        c == spec_bot_outline_color(),
{
    Some(bot_outline_color_def())
}

/// The bot head-mark color, if one is configured.
pub open spec fn spec_bot_head_color() -> Option<Color> {
    Some(spec_bot_outline_color_def())
}

/// The bot head-mark color, if one is configured.
#[verifier::when_used_as_spec(spec_bot_head_color)]
pub fn bot_head_color() -> (c: Option<Color>)
    ensures
        c == spec_bot_head_color(),
{
    Some(bot_outline_color_def())
}

/// The background color of the playing field.
pub fn field_background_color() -> (c: Color)
    ensures
        c == Color::spec_white(),
{
    Color::white()
}

/// The fill color of the rock sprite.
pub open spec fn spec_rock_draw_color() -> Color {
    Color::spec_from_rgb(0x62, 0x62, 0x62)
}

/// The fill color of the rock sprite.
#[verifier::when_used_as_spec(spec_rock_draw_color)]
pub fn rock_draw_color() -> (c: Color)
    ensures
        c == spec_rock_draw_color(),
{
    Color::from_rgb(0x62, 0x62, 0x62)
}

/// The fill color of the organic-waste sprite.
pub open spec fn spec_organic_waste_draw_color() -> Color {
    Color::spec_from_rgb(0xC8, 0xC8, 0xC8)
}

/// The fill color of the organic-waste sprite.
#[verifier::when_used_as_spec(spec_organic_waste_draw_color)]
pub fn organic_waste_draw_color() -> (c: Color)
    ensures
        c == spec_organic_waste_draw_color(),
{
    Color::from_rgb(0xC8, 0xC8, 0xC8)
}

/// The outline color of the organic-waste sprite.
pub open spec fn spec_organic_waste_outline_color() -> Color {
    Color::spec_from_rgb(0x80, 0x80, 0x80)
}

/// The outline color of the organic-waste sprite.
#[verifier::when_used_as_spec(spec_organic_waste_outline_color)]
pub fn organic_waste_outline_color() -> (c: Color)
    ensures
        c == spec_organic_waste_outline_color(),
{
    Color::from_rgb(0x80, 0x80, 0x80)
}

/// The fill color of the apple sprite.
pub open spec fn spec_apple_draw_color_rgba() -> Color {
    Color::spec_from_rgb(0, 0x64, 0)
}

/// The fill color of the apple sprite.
#[verifier::when_used_as_spec(spec_apple_draw_color_rgba)]
pub fn apple_draw_color_rgba() -> (c: Color)
    ensures
        c == spec_apple_draw_color_rgba(),
{
    Color::from_rgb(0, 0x64, 0)
}

/// Blue water.
pub fn blue_water() -> (c: Color)
    ensures
        c == Color::spec_from_rgb(150, 150, 255),
{
    Color::from_rgb(150, 150, 255)
}

/// Green water.
pub fn green_water() -> (c: Color)
    ensures
        c == Color::spec_from_rgb(150, 255, 150),
{
    Color::from_rgb(150, 255, 150)
}

/// The ocean color: blue water.
pub fn ocean_color() -> (c: Color)
    ensures
        c == Color::spec_from_rgb(150, 150, 255),
{
    blue_water()
}

/// The mud color.
pub fn mud_color() -> (c: Color)
    ensures
        c == Color::spec_from_rgb(140, 80, 62),
{
    Color::from_rgb(140, 80, 62)
}

/// The translucency mask laid over underwater tiles; its channel values
/// are premultiplied by alpha.
pub fn underwater_mask_color() -> (c: Option<Color>)
    ensures
        c == Some(Color { r: 100, g: 100, b: 255, a: 80 }),
{
    Some(Color::from_rgba_premultiplied(100, 100, 255, 80))
}

} // verus!
