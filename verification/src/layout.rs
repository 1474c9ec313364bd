//! The grid: how many squares fit, and where each one stands before jitter.
//!
//! Coordinates grow to the right and upwards. An area is given by its top-left
//! corner and its size; rows are counted from the top, columns from the left.

use crate::noise::in_scaled_range;
use crate::noise::lemma_scaled_range_is_bounded;
use crate::noise::Intensity;
use crate::noise::Jitter;
use crate::settings::Settings;
use vstd::arithmetic::div_mod::lemma_div_is_ordered_by_denominator;
use vstd::arithmetic::div_mod::lemma_fundamental_div_mod;
use vstd::arithmetic::div_mod::lemma_mod_bound;
use vstd::prelude::*;

verus! {

/// A rectangle of the drawing surface, in length units.
#[derive(Clone, Copy, Debug, PartialEq, Eq, Structural)]
pub struct Area {
    /// The left edge.
    pub x: i32,
    /// The top edge.
    pub y: i32,
    pub width: u32,
    pub height: u32,
}

/// One square outline to draw.
#[derive(Clone, Copy, Debug, PartialEq, Eq, Structural)]
pub struct Square {
    pub center_x: i64,
    pub center_y: i64,
    /// Width and height.
    pub side: u32,
    /// Rotation about the center, counter-clockwise, in angle units.
    pub rotation: i64,
}

/// Width of the area once the border is taken off both sides; not positive
/// where the border eats the area up.
pub open spec fn working_width(area: Area, settings: Settings) -> int {
    area.width - 2 * settings.border_size
}

/// Height of the area once the border is taken off top and bottom.
pub open spec fn working_height(area: Area, settings: Settings) -> int {
    area.height - 2 * settings.border_size
}

/// Left edge of the working area.
pub open spec fn working_left(area: Area, settings: Settings) -> int {
    area.x + settings.border_size
}

/// Top edge of the working area.
pub open spec fn working_top(area: Area, settings: Settings) -> int {
    area.y - settings.border_size
}

/// Whether the border leaves nothing to lay out.
pub open spec fn grid_is_empty(area: Area, settings: Settings) -> bool {
    working_width(area, settings) <= 0 || working_height(area, settings) <= 0
}

/// Number of rows: as many whole squares as fit in the working height.
pub open spec fn num_rows_spec(area: Area, settings: Settings) -> nat {
    if grid_is_empty(area, settings) {
        0
    } else {
        (working_height(area, settings) / (settings.cube_size as int)) as nat
    }
}

/// Number of squares in each row: as many as fit in the working width.
pub open spec fn num_cubes_spec(area: Area, settings: Settings) -> nat {
    if grid_is_empty(area, settings) {
        0
    } else {
        (working_width(area, settings) / (settings.cube_size as int)) as nat
    }
}

/// Top edge of row `row`: the working area moved down by `row` squares.
pub open spec fn row_top(area: Area, settings: Settings, row: int) -> int {
    working_top(area, settings) - row * settings.cube_size
}

/// Left edge of the cell in column `col`.
pub open spec fn cell_left(area: Area, settings: Settings, col: int) -> int {
    working_left(area, settings) + col * settings.cube_size
}

/// Where the center of a square of column `col` stands before jitter.
pub open spec fn base_center_x(area: Area, settings: Settings, col: int) -> int {
    cell_left(area, settings, col) + settings.cube_size / 2
}

/// Where the center of a square of row `row` stands before jitter.
pub open spec fn base_center_y(area: Area, settings: Settings, row: int) -> int {
    row_top(area, settings, row) - settings.cube_size / 2
}

/// The square of cell (`row`, `col`) under a given jitter.
pub open spec fn placed(
    area: Area,
    settings: Settings,
    row: int,
    col: int,
    jitter: Jitter,
) -> Square {
    Square {
        center_x: (base_center_x(area, settings, col) + jitter.x_shift) as i64,
        center_y: (base_center_y(area, settings, row) + jitter.y_shift) as i64,
        side: settings.cube_size,
        rotation: jitter.angle,
    }
}

impl Jitter {
    /// No part is larger than its half-width at full intensity.
    pub open spec fn bounded_by(&self, settings: Settings) -> bool {
        &&& -settings.angle_noise <= self.angle <= settings.angle_noise
        &&& -settings.translation_noise <= self.x_shift <= settings.translation_noise
        &&& -settings.translation_noise <= self.y_shift <= settings.translation_noise
    }
}

impl Square {
    /// How far the center stands to the right of its place in the grid.
    pub open spec fn x_shift(&self, area: Area, settings: Settings, col: int) -> int {
        self.center_x - base_center_x(area, settings, col)
    }

    /// How far the center stands above its place in the grid.
    pub open spec fn y_shift(&self, area: Area, settings: Settings, row: int) -> int {
        self.center_y - base_center_y(area, settings, row)
    }

    /// Whether the square stands unturned at its place in the grid.
    pub open spec fn is_unperturbed(
        &self,
        area: Area,
        settings: Settings,
        row: int,
        col: int,
    ) -> bool {
        &&& self.rotation == 0
        &&& self.x_shift(area, settings, col) == 0
        &&& self.y_shift(area, settings, row) == 0
    }

    /// Whether rotation and shifts lie in the ranges scaled by the intensity.
    pub open spec fn jitter_in_range(
        &self,
        area: Area,
        settings: Settings,
        intensity: Intensity,
        col: int,
    ) -> bool {
        &&& in_scaled_range(self.rotation as int, intensity, settings.angle_noise)
        &&& in_scaled_range(
            self.x_shift(area, settings, col),
            intensity,
            settings.translation_noise,
        )
        &&& in_scaled_range(
            self.y_shift(area, settings, intensity.row as int),
            intensity,
            settings.translation_noise,
        )
    }
}

/// The cells of the grid lie inside the working area, so their coordinates
/// stay small.
pub proof fn lemma_cells_fit(area: Area, settings: Settings, row: int, col: int)
    requires
        settings.valid(),
        0 <= row < num_rows_spec(area, settings),
        0 <= col < num_cubes_spec(area, settings),
    ensures
        0 <= row * settings.cube_size <= working_height(area, settings) - settings.cube_size,
        0 <= col * settings.cube_size <= working_width(area, settings) - settings.cube_size,
        working_height(area, settings) <= u32::MAX,
        working_width(area, settings) <= u32::MAX,
{
    let c: int = settings.cube_size as int;
    let h: int = working_height(area, settings);
    let w: int = working_width(area, settings);
    lemma_fundamental_div_mod(h, c);
    lemma_mod_bound(h, c);
    lemma_fundamental_div_mod(w, c);
    lemma_mod_bound(w, c);
    assert(0 <= row * c <= h - c) by (nonlinear_arith)
        requires
            0 <= row < h / c,
            h == c * (h / c) + h % c,
            0 <= h % c,
            0 < c,
    ;
    assert(0 <= col * c <= w - c) by (nonlinear_arith)
        requires
            0 <= col < w / c,
            w == c * (w / c) + w % c,
            0 <= w % c,
            0 < c,
    ;
}

/// A jitter drawn at a valid intensity is bounded by the noise settings.
pub proof fn lemma_jitter_in_range_is_bounded(
    jitter: Jitter,
    intensity: Intensity,
    settings: Settings,
)
    requires
        intensity.valid(),
        jitter.in_range(intensity, settings),
    ensures
        jitter.bounded_by(settings),
{
    lemma_scaled_range_is_bounded(jitter.angle as int, intensity, settings.angle_noise);
    lemma_scaled_range_is_bounded(jitter.x_shift as int, intensity, settings.translation_noise);
    lemma_scaled_range_is_bounded(jitter.y_shift as int, intensity, settings.translation_noise);
}

/// What is left of the width and of the height once the border is taken off,
/// or `None` where it leaves no width or no height.
pub fn working_size(area: &Area, settings: &Settings) -> (size: Option<(u32, u32)>)
    ensures
        grid_is_empty(*area, *settings) <==> size is None,
        size matches Some((width, height)) ==> width == working_width(*area, *settings) && height
            == working_height(*area, *settings),
{
    let border: u64 = 2 * (settings.border_size as u64);
    if border >= area.width as u64 || border >= area.height as u64 {
        None
    } else {
        Some((area.width - border as u32, area.height - border as u32))
    }
}

/// Number of rows of the grid.
pub fn num_rows(area: &Area, settings: &Settings) -> (rows: u32)
    requires
        settings.valid(),
    ensures
        rows == num_rows_spec(*area, *settings),
{
    match working_size(area, settings) {
        Some((_, height)) => height / settings.cube_size,
        None => 0,
    }
}

/// Number of squares in each row of the grid.
pub fn num_cubes(area: &Area, settings: &Settings) -> (cubes: u32)
    requires
        settings.valid(),
    ensures
        cubes == num_cubes_spec(*area, *settings),
{
    match working_size(area, settings) {
        Some((width, _)) => width / settings.cube_size,
        None => 0,
    }
}

/// The square of cell (`row`, `col`) of the grid under a given jitter: its
/// center is the cell's center moved by the shifts, its side the cube size,
/// its rotation the jitter's angle.
pub fn place_square(
    area: &Area,
    settings: &Settings,
    row: u32,
    col: u32,
    jitter: Jitter,
) -> (square: Square)
    requires
        settings.valid(),
        row < num_rows_spec(*area, *settings),
        col < num_cubes_spec(*area, *settings),
        jitter.bounded_by(*settings),
    ensures
        square == placed(*area, *settings, row as int, col as int, jitter),
        square.rotation == jitter.angle,
        square.side == settings.cube_size,
        square.x_shift(*area, *settings, col as int) == jitter.x_shift,
        square.y_shift(*area, *settings, row as int) == jitter.y_shift,
{
    proof {
        lemma_cells_fit(*area, *settings, row as int, col as int);
    }
    let side: i64 = settings.cube_size as i64;
    let border: i64 = settings.border_size as i64;
    let left: i64 = area.x as i64 + border + (col as i64) * side;
    let top: i64 = area.y as i64 - border - (row as i64) * side;
    Square {
        center_x: left + side / 2 + jitter.x_shift,
        center_y: top - side / 2 + jitter.y_shift,
        side: settings.cube_size,
        rotation: jitter.angle,
    }
}

/// Fewer squares never fit when the squares grow: with the area and the
/// border fixed, a smaller cube size gives at least as many rows and at least
/// as many squares in each row.
pub proof fn lemma_counts_grow_as_cubes_shrink(area: Area, smaller: Settings, larger: Settings)
    requires
        smaller.valid(),
        smaller.cube_size <= larger.cube_size,
        smaller.border_size == larger.border_size,
    ensures
        num_rows_spec(area, smaller) >= num_rows_spec(area, larger),
        num_cubes_spec(area, smaller) >= num_cubes_spec(area, larger),
{
    if !grid_is_empty(area, larger) {
        lemma_div_is_ordered_by_denominator(
            working_height(area, larger),
            smaller.cube_size as int,
            larger.cube_size as int,
        );
        lemma_div_is_ordered_by_denominator(
            working_width(area, larger),
            smaller.cube_size as int,
            larger.cube_size as int,
        );
    }
}

/// Where the border leaves no width or no height, there are no rows and no
/// squares.
pub proof fn lemma_no_working_area_no_grid(area: Area, settings: Settings)
    requires
        working_width(area, settings) <= 0 || working_height(area, settings) <= 0,
    ensures
        num_rows_spec(area, settings) == 0,
        num_cubes_spec(area, settings) == 0,
{
}

/// The cells of a row tile it without gaps: the first cell starts at the left
/// edge of the working area, each cell is one cube size wide, the centers of
/// neighbours stand one cube size apart, and rows follow one another
/// downwards at the same distance.
pub proof fn lemma_cells_tile(area: Area, settings: Settings, row: int, col: int)
    ensures
        cell_left(area, settings, 0) == working_left(area, settings),
        cell_left(area, settings, col + 1) == cell_left(area, settings, col) + settings.cube_size,
        base_center_x(area, settings, col + 1) - base_center_x(area, settings, col)
            == settings.cube_size,
        base_center_x(area, settings, col) - settings.cube_size / 2 == cell_left(
            area,
            settings,
            col,
        ),
        row_top(area, settings, 0) == working_top(area, settings),
        row_top(area, settings, row + 1) == row_top(area, settings, row) - settings.cube_size,
        base_center_y(area, settings, row) - base_center_y(area, settings, row + 1)
            == settings.cube_size,
{
    let c: int = settings.cube_size as int;
    assert((col + 1) * c == col * c + c) by (nonlinear_arith);
    assert((row + 1) * c == row * c + c) by (nonlinear_arith);
}

} // verus!
