//! The height grid, the rendering of a grid into RGBA bytes, and the terrain
//! map that keeps the noise parameters beside the rendered buffer.
//!
//! The cell `(x, y)` of a grid of side `n` is stored at offset `x * n + y`.
//! Its western neighbour is the cell `(x - 1, y)`, which lies `n` places
//! earlier; the cells with `x == 0` have none.

use vstd::prelude::*;
use crate::biome::{classify, classify_spec, Rgb};
use crate::shading::{shade, shade_spec};

verus! {

/// Octaves of a fresh parameter set.
pub const DEFAULT_OCTAVES: u8 = 5;

/// Frequency of a fresh parameter set, in hundredths.
pub const DEFAULT_FREQUENCY: i64 = 5;

/// Gain of a fresh parameter set, in hundredths.
pub const DEFAULT_GAIN: i64 = 200;

/// Lacunarity of a fresh parameter set, in hundredths.
pub const DEFAULT_LACUNARITY: i64 = 50;

/// The parameters of the noise that the heights are sampled from.
/// `frequency`, `gain` and `lacunarity` are held in hundredths, so that one
/// editing step is one unit.
#[derive(Clone, Copy, Debug, PartialEq, Eq, Structural)]
pub struct NoiseParameters {
    pub seed: i32,
    pub octaves: u8,
    pub frequency: i64,
    pub gain: i64,
    pub lacunarity: i64,
}

/// The default parameters under a given seed.
pub open spec fn default_parameters(seed: i32) -> NoiseParameters {
    NoiseParameters {
        seed,
        octaves: DEFAULT_OCTAVES,
        frequency: DEFAULT_FREQUENCY,
        gain: DEFAULT_GAIN,
        lacunarity: DEFAULT_LACUNARITY,
    }
}

impl NoiseParameters {
    /// The default parameters under `seed`.
    pub fn new(seed: i32) -> (p: NoiseParameters)
        ensures
            p == default_parameters(seed),
    {
        NoiseParameters {
            seed,
            octaves: DEFAULT_OCTAVES,
            frequency: DEFAULT_FREQUENCY,
            gain: DEFAULT_GAIN,
            lacunarity: DEFAULT_LACUNARITY,
        }
    }
}

/// A square grid of height samples.
pub struct HeightGrid {
    size: usize,
    samples: Vec<u8>,
}

impl View for HeightGrid {
    type V = Seq<u8>;

    /// The samples, cell `(x, y)` at `x * side + y`.
    closed spec fn view(&self) -> Seq<u8> {
        self.samples@
    }
}

impl HeightGrid {
    /// The number of cells along one side.
    pub closed spec fn side(&self) -> nat {
        self.size as nat
    }

    /// The grid holds one sample for each cell of the square.
    pub closed spec fn wf(&self) -> bool {
        self.samples@.len() == self.size * self.size
    }

    /// Makes a grid of side `size` from `samples`, if there are exactly
    /// `size * size` of them.
    pub fn from_samples(size: usize, samples: Vec<u8>) -> (grid: Option<HeightGrid>)
        ensures
            grid is Some <==> samples@.len() == size * size,
            grid matches Some(g) ==> g.wf() && g.side() == size && g@ == samples@,
    {
        let count: usize = samples.len();
        match size.checked_mul(size) {
            Some(cells) => {
                if cells == count {
                    Some(HeightGrid { size, samples })
                } else {
                    None
                }
            },
            None => None,
        }
    }

    /// The number of cells along one side.
    pub fn size(&self) -> (n: usize)
        ensures
            n == self.side(),
    {
        self.size
    }

    /// The height of cell `(x, y)`.
    pub fn height_at(&self, x: usize, y: usize) -> (h: u8)
        requires
            self.wf(),
            x < self.side(),
            y < self.side(),
        ensures
            0 <= x * self.side() + y < self@.len(),
            h == self@[x * self.side() + y],
    {
        let count: usize = self.samples.len();
        proof {
            cell_offset_in_range(self.size as int, x as int, y as int);
            assert(x * self.size + y < count);
        }
        self.samples[x * self.size + y]
    }
}

/// The offset of a cell lies inside the grid, and for `x > 0` the cell to
/// its west lies one side length before it.
pub proof fn cell_offset_in_range(side: int, x: int, y: int)
    requires
        0 <= x < side,
        0 <= y < side,
    ensures
        0 <= x * side <= x * side + y < side * side,
        x > 0 ==> x * side + y >= side && (x - 1) * side + y == x * side + y - side,
        x == 0 ==> x * side + y < side,
{
    assert(0 <= x * side && x * side + side <= side * side && (x - 1) * side == x * side - side)
        by (nonlinear_arith)
        requires
            0 <= x < side,
    ;
    if x > 0 {
        assert(x * side >= side) by (nonlinear_arith)
            requires
                1 <= x,
                0 <= side,
        ;
    }
}

/// The height of the western neighbour of the cell at offset `k`, if it has
/// one.
pub open spec fn west_height(heights: Seq<u8>, side: nat, k: int) -> Option<u8> {
    if k >= side {
        Some(heights[k - side])
    } else {
        None
    }
}

/// The colour of the cell at offset `k`: its biome colour, shaded against
/// the height of its western neighbour.
pub open spec fn cell_color(heights: Seq<u8>, side: nat, k: int) -> Rgb {
    shade_spec(heights[k], west_height(heights, side, k), classify_spec(heights[k]))
}

/// Byte `c` of the four bytes of a pixel: red, green, blue, and an alpha of
/// 255.
pub open spec fn channel_byte(color: Rgb, c: int) -> u8 {
    if c == 0 {
        color.r
    } else if c == 1 {
        color.g
    } else if c == 2 {
        color.b
    } else {
        255
    }
}

/// The RGBA bytes of a grid: four bytes for each cell, in the order of the
/// cells.
pub open spec fn rendered(heights: Seq<u8>, side: nat) -> Seq<u8> {
    Seq::new(4 * heights.len(), |j: int| channel_byte(cell_color(heights, side, j / 4), j % 4))
}

/// Renders a grid: classifies every cell, shades it against the height of
/// its western neighbour, and writes its four bytes.
pub fn render(grid: &HeightGrid) -> (buffer: Vec<u8>)
    requires
        grid.wf(),
    ensures
        buffer@ == rendered(grid@, grid.side()),
{
    let n: usize = grid.samples.len();
    let mut buffer: Vec<u8> = Vec::new();
    let mut k: usize = 0;
    while k < n
        invariant
            k <= n,
            n == grid.samples@.len(),
            grid@ == grid.samples@,
            grid.side() == grid.size,
            buffer@.len() == 4 * k,
            forall|j: int|
                0 <= j < 4 * k ==> buffer@[j] == channel_byte(
                    cell_color(grid@, grid.side(), j / 4),
                    j % 4,
                ),
        decreases n - k,
    {
        let height: u8 = grid.samples[k];
        let west: Option<u8> = if k >= grid.size {
            Some(grid.samples[k - grid.size])
        } else {
            None
        };
        let color: Rgb = shade(height, west, classify(height));
        buffer.push(color.r);
        buffer.push(color.g);
        buffer.push(color.b);
        buffer.push(255);
        k = k + 1;
    }
    assert(buffer@ =~= rendered(grid@, grid.side()));
    buffer
}

/// What a terrain map holds: the side of its grid, the noise parameters, the
/// RGBA buffer, and whether the parameters changed since the buffer was made.
pub struct TerrainState {
    pub size: nat,
    pub parameters: NoiseParameters,
    pub buffer: Seq<u8>,
    pub dirty: bool,
}

impl TerrainState {
    /// A map that is not dirty holds the four bytes of every cell of its
    /// grid.
    pub open spec fn wf(self) -> bool {
        !self.dirty ==> self.buffer.len() == 4 * (self.size * self.size)
    }
}

/// The state after a regeneration from `heights`: the buffer is replaced
/// whole, the dirty flag is cleared, and nothing else changes.
pub open spec fn regenerated(state: TerrainState, heights: Seq<u8>) -> TerrainState {
    TerrainState { buffer: rendered(heights, state.size), dirty: false, ..state }
}

/// The state after the parameters were set to `parameters`: the map is
/// dirty, and the buffer stays as it was.
pub open spec fn with_parameters(state: TerrainState, parameters: NoiseParameters) -> TerrainState {
    TerrainState { parameters, dirty: true, ..state }
}

/// A terrain map: the noise parameters and the buffer last rendered.
pub struct TerrainMap {
    size: usize,
    parameters: NoiseParameters,
    buffer: Vec<u8>,
    dirty: bool,
}

impl View for TerrainMap {
    type V = TerrainState;

    closed spec fn view(&self) -> TerrainState {
        TerrainState {
            size: self.size as nat,
            parameters: self.parameters,
            buffer: self.buffer@,
            dirty: self.dirty,
        }
    }
}

impl TerrainMap {
    /// A map of the given side with the default parameters under `seed`. It
    /// holds no pixels yet and is dirty, so that its first regeneration is
    /// due.
    pub fn new(size: usize, seed: i32) -> (map: TerrainMap)
        ensures
            map@ == (TerrainState {
                size: size as nat,
                parameters: default_parameters(seed),
                buffer: Seq::empty(),
                dirty: true,
            }),
            map@.wf(),
    {
        TerrainMap { size, parameters: NoiseParameters::new(seed), buffer: Vec::new(), dirty: true }
    }

    /// Rebuilds the whole buffer from a grid of heights sampled under the
    /// current parameters, and clears the dirty flag.
    pub fn regenerate(&mut self, grid: &HeightGrid)
        requires
            grid.wf(),
            grid.side() == old(self)@.size,
        ensures
            final(self)@ == regenerated(old(self)@, grid@),
            final(self)@.wf(),
    {
        self.buffer = render(grid);
        self.dirty = false;
    }

    /// Replaces the parameters and marks the map dirty.
    pub fn set_parameters(&mut self, parameters: NoiseParameters)
        ensures
            final(self)@ == with_parameters(old(self)@, parameters),
    {
        self.parameters = parameters;
        self.dirty = true;
    }

    /// The buffer last rendered.
    pub fn current_buffer(&self) -> (buffer: &Vec<u8>)
        ensures
            buffer@ == self@.buffer,
    {
        &self.buffer
    }

    /// The current parameters.
    pub fn current_parameters(&self) -> (parameters: &NoiseParameters)
        ensures
            *parameters == self@.parameters,
    {
        &self.parameters
    }

    /// The side of the grid.
    pub fn size(&self) -> (n: usize)
        ensures
            n == self@.size,
    {
        self.size
    }

    /// Whether the parameters changed since the buffer was rendered.
    pub fn is_dirty(&self) -> (dirty: bool)
        ensures
            dirty == self@.dirty,
    {
        self.dirty
    }
}

/// A rendered buffer holds four bytes for each cell, the fourth of them 255.
pub proof fn rendered_is_opaque_rgba(heights: Seq<u8>, side: nat, k: int)
    requires
        0 <= k < heights.len(),
    ensures
        rendered(heights, side).len() == 4 * heights.len(),
        rendered(heights, side)[4 * k + 3] == 255,
{
}

/// The pixel of the cell `(x, y)` stands at byte `4 * (x * side + y)`. It is
/// the cell's biome colour, shaded against the height of the cell
/// `(x - 1, y)`, and left unshaded for `x == 0`.
pub proof fn rendered_cell(heights: Seq<u8>, side: nat, x: int, y: int)
    requires
        heights.len() == side * side,
        0 <= x < side,
        0 <= y < side,
    ensures
        ({
            let k = x * side + y;
            let west = if x > 0 {
                Some(heights[(x - 1) * side + y])
            } else {
                None
            };
            let color = shade_spec(heights[k], west, classify_spec(heights[k]));
            &&& 0 <= k < heights.len()
            &&& rendered(heights, side)[4 * k] == color.r
            &&& rendered(heights, side)[4 * k + 1] == color.g
            &&& rendered(heights, side)[4 * k + 2] == color.b
            &&& rendered(heights, side)[4 * k + 3] == 255
        }),
{
    cell_offset_in_range(side as int, x, y);
}

/// A regeneration from a full grid leaves the map well formed: clean, with
/// four bytes for every cell.
pub proof fn regenerated_is_well_formed(state: TerrainState, heights: Seq<u8>)
    requires
        heights.len() == state.size * state.size,
    ensures
        regenerated(state, heights).wf(),
        regenerated(state, heights).buffer.len() == 4 * (state.size * state.size),
{
}

/// Regeneration is a function of the side and the heights alone: two maps of
/// one side show the same buffer for the same heights, and regenerating once
/// more from the same heights changes nothing.
pub proof fn regeneration_is_deterministic(a: TerrainState, b: TerrainState, heights: Seq<u8>)
    requires
        a.size == b.size,
    ensures
        regenerated(a, heights).buffer == regenerated(b, heights).buffer,
        regenerated(regenerated(a, heights), heights) == regenerated(a, heights),
        !regenerated(a, heights).dirty,
        regenerated(a, heights).parameters == a.parameters,
{
}

} // verus!
