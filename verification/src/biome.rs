//! The biome bands and the classification of a height into its colour.

use vstd::prelude::*;

verus! {

/// One colour, as red, green and blue.
#[derive(Clone, Copy, Debug, PartialEq, Eq, Structural)]
pub struct Rgb {
    pub r: u8,
    pub g: u8,
    pub b: u8,
}

/// A biome band: every height from `threshold` up to the next band's
/// threshold is drawn in `color`.
#[derive(Clone, Copy, Debug, PartialEq, Eq, Structural)]
pub struct Band {
    pub threshold: u8,
    pub color: Rgb,
}

/// Number of bands in the table.
pub const BAND_COUNT: usize = 8;

/// The colour of every height below the lowest band.
pub open spec fn grassland() -> Rgb {
    Rgb { r: 104, g: 154, b: 25 }
}

/// The band table, lowest band first: deep ocean, ocean, water, beach,
/// plateau, mountain, peak, snow.
pub open spec fn bands() -> Seq<Band> {
    seq![
        Band { threshold: 5, color: Rgb { r: 18, g: 47, b: 95 } },
        Band { threshold: 25, color: Rgb { r: 23, g: 60, b: 114 } },
        Band { threshold: 55, color: Rgb { r: 23, g: 60, b: 114 } },
        Band { threshold: 75, color: Rgb { r: 249, g: 217, b: 134 } },
        Band { threshold: 95, color: Rgb { r: 69, g: 127, b: 31 } },
        Band { threshold: 140, color: Rgb { r: 36, g: 35, b: 36 } },
        Band { threshold: 170, color: Rgb { r: 63, g: 51, b: 45 } },
        Band { threshold: 210, color: Rgb { r: 255, g: 255, b: 255 } },
    ]
}

/// Band `i` covers `height`: its threshold is at most `height`, and `height`
/// lies below the threshold of the band above it, if there is one.
pub open spec fn band_covers(i: int, height: u8) -> bool {
    &&& 0 <= i < bands().len()
    &&& bands()[i].threshold <= height
    &&& (i + 1 < bands().len() ==> height < bands()[i + 1].threshold)
}

/// The colour of the highest of the first `n` bands whose threshold is at
/// most `height`; grassland if there is none.
pub open spec fn highest_band_color(height: u8, n: nat) -> Rgb
    decreases n,
{
    if n == 0 || n > bands().len() {
        grassland()
    } else if bands()[n - 1].threshold <= height {
        bands()[n - 1].color
    } else {
        highest_band_color(height, (n - 1) as nat)
    }
}

/// The colour of a height.
pub open spec fn classify_spec(height: u8) -> Rgb {
    highest_band_color(height, bands().len())
}

/// `color` is grassland or the colour of one of the bands.
pub open spec fn in_palette(color: Rgb) -> bool {
    color == grassland() || exists|i: int| 0 <= i < bands().len() && color == #[trigger] bands()[i].color
}

/// The grassland colour.
pub fn grassland_color() -> (c: Rgb)
    ensures
        c == grassland(),
{
    Rgb { r: 104, g: 154, b: 25 }
}

/// Band `i` of the table.
pub fn band(i: usize) -> (b: Band)
    requires
        i < BAND_COUNT,
    ensures
        b == bands()[i as int],
        bands().len() == BAND_COUNT,
{
    if i == 0 {
        Band { threshold: 5, color: Rgb { r: 18, g: 47, b: 95 } }
    } else if i == 1 {
        Band { threshold: 25, color: Rgb { r: 23, g: 60, b: 114 } }
    } else if i == 2 {
        Band { threshold: 55, color: Rgb { r: 23, g: 60, b: 114 } }
    } else if i == 3 {
        Band { threshold: 75, color: Rgb { r: 249, g: 217, b: 134 } }
    } else if i == 4 {
        Band { threshold: 95, color: Rgb { r: 69, g: 127, b: 31 } }
    } else if i == 5 {
        Band { threshold: 140, color: Rgb { r: 36, g: 35, b: 36 } }
    } else if i == 6 {
        Band { threshold: 170, color: Rgb { r: 63, g: 51, b: 45 } }
    } else {
        Band { threshold: 210, color: Rgb { r: 255, g: 255, b: 255 } }
    }
}

/// Classifies a height: scans the table from the highest band down and
/// returns the colour of the first band whose threshold is at most `height`,
/// or grassland below the lowest band.
pub fn classify(height: u8) -> (c: Rgb)
    ensures
        c == classify_spec(height),
        in_palette(c),
        forall|i: int| band_covers(i, height) ==> c == bands()[i].color,
        height < bands()[0].threshold ==> c == grassland(),
{
    proof {
        classify_meets_the_table(height);
    }
    let mut n: usize = BAND_COUNT;
    while n > 0
        invariant
            n <= BAND_COUNT,
            bands().len() == BAND_COUNT,
            classify_spec(height) == highest_band_color(height, n as nat),
            in_palette(classify_spec(height)),
            forall|i: int| band_covers(i, height) ==> classify_spec(height) == bands()[i].color,
            height < bands()[0].threshold ==> classify_spec(height) == grassland(),
        decreases n,
    {
        let b: Band = band(n - 1);
        if b.threshold <= height {
            return b.color;
        }
        n = n - 1;
    }
    grassland_color()
}

/// The thresholds of the table increase strictly from band to band.
pub proof fn thresholds_increase(i: int, j: int)
    requires
        0 <= i < j < bands().len(),
    ensures
        bands()[i].threshold < bands()[j].threshold,
{
}

/// Every height has a colour of the palette: grassland or the colour of a
/// band.
pub proof fn classify_is_total(height: u8)
    ensures
        in_palette(classify_spec(height)),
        height < bands()[0].threshold <==> !exists|i: int| band_covers(i, height),
{
    reveal_with_fuel(highest_band_color, 9);
    let c = classify_spec(height);
    if c != grassland() {
        let i: int = if height >= 210 { 7 } else if height >= 170 { 6 } else if height >= 140 { 5 }
            else if height >= 95 { 4 } else if height >= 75 { 3 } else if height >= 55 { 2 }
            else if height >= 25 { 1 } else { 0 };
        assert(c == bands()[i].color);
    }
    if height >= bands()[0].threshold {
        let i: int = if height >= 210 { 7 } else if height >= 170 { 6 } else if height >= 140 { 5 }
            else if height >= 95 { 4 } else if height >= 75 { 3 } else if height >= 55 { 2 }
            else if height >= 25 { 1 } else { 0 };
        assert(band_covers(i, height));
    }
}

/// At most one band covers a height.
pub proof fn covering_band_is_unique(i: int, j: int, height: u8)
    requires
        band_covers(i, height),
        band_covers(j, height),
    ensures
        i == j,
{
}

/// A height has the colour of the band that covers it. The lower bound of a
/// band is closed: a height equal to a threshold belongs to that threshold's
/// band.
pub proof fn covering_band_gives_color(i: int, height: u8)
    requires
        band_covers(i, height),
    ensures
        classify_spec(height) == bands()[i].color,
{
    reveal_with_fuel(highest_band_color, 9);
}

/// A height equal to the threshold of a band has that band's colour.
pub proof fn threshold_belongs_to_its_band(i: int)
    requires
        0 <= i < bands().len(),
    ensures
        band_covers(i, bands()[i].threshold),
        classify_spec(bands()[i].threshold) == bands()[i].color,
{
    covering_band_gives_color(i, bands()[i].threshold);
}

/// The colour of a height is in the palette, is the colour of every band that
/// covers the height, and is grassland below the lowest band.
pub proof fn classify_meets_the_table(height: u8)
    ensures
        in_palette(classify_spec(height)),
        forall|i: int| band_covers(i, height) ==> classify_spec(height) == bands()[i].color,
        height < bands()[0].threshold ==> classify_spec(height) == grassland(),
{
    classify_is_total(height);
    assert forall|i: int| band_covers(i, height) implies classify_spec(height) == bands()[i].color by {
        covering_band_gives_color(i, height);
    }
    if height < bands()[0].threshold {
        below_lowest_band_is_grassland(height);
    }
}

/// Below the lowest threshold every height is grassland.
pub proof fn below_lowest_band_is_grassland(height: u8)
    requires
        height < bands()[0].threshold,
    ensures
        classify_spec(height) == grassland(),
{
    reveal_with_fuel(highest_band_color, 9);
}

} // verus!
