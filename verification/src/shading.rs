//! Slope shading against the western neighbour.

use vstd::prelude::*;
use crate::biome::{bands, Rgb};

verus! {

/// Heights below this level are never shaded.
pub const SHADING_FLOOR: u8 = 55;

/// A channel at seven tenths of its value, rounded down.
pub open spec fn darken_channel(channel: u8) -> u8 {
    (channel as int * 7 / 10) as u8
}

/// A colour with every channel at seven tenths of its value, rounded down.
pub open spec fn darken(color: Rgb) -> Rgb {
    Rgb { r: darken_channel(color.r), g: darken_channel(color.g), b: darken_channel(color.b) }
}

/// A cell is shaded when it has a western neighbour, stands at or above the
/// shading floor, and lies strictly lower than that neighbour.
pub open spec fn is_shaded(height: u8, west: Option<u8>) -> bool {
    match west {
        Some(w) => height >= SHADING_FLOOR && height < w,
        None => false,
    }
}

/// The colour of a cell after shading.
pub open spec fn shade_spec(height: u8, west: Option<u8>, color: Rgb) -> Rgb {
    if is_shaded(height, west) {
        darken(color)
    } else {
        color
    }
}

/// Scales one channel to seven tenths, rounding down.
pub fn dim(channel: u8) -> (d: u8)
    ensures
        d == darken_channel(channel),
        d <= channel,
{
    let wide: u16 = channel as u16;
    (wide * 7 / 10) as u8
}

/// Shades a cell of the given height and colour against the height of its
/// western neighbour; `None` stands for a cell that has no such neighbour.
pub fn shade(height: u8, west: Option<u8>, color: Rgb) -> (c: Rgb)
    ensures
        c == shade_spec(height, west, color),
        west is None ==> c == color,
{
    match west {
        Some(w) => {
            if height >= SHADING_FLOOR && height < w {
                Rgb { r: dim(color.r), g: dim(color.g), b: dim(color.b) }
            } else {
                color
            }
        },
        None => color,
    }
}

/// The shading floor is the threshold of the water band.
pub proof fn shading_floor_is_water_level()
    ensures
        SHADING_FLOOR == bands()[2].threshold,
{
}

/// A cell without a western neighbour keeps its colour, whatever its height.
pub proof fn first_column_is_unshaded(height: u8, color: Rgb)
    ensures
        shade_spec(height, None, color) == color,
{
}

/// Shading never brightens a channel.
pub proof fn shading_only_darkens(height: u8, west: Option<u8>, color: Rgb)
    ensures
        shade_spec(height, west, color).r <= color.r,
        shade_spec(height, west, color).g <= color.g,
        shade_spec(height, west, color).b <= color.b,
{
}

} // verus!
