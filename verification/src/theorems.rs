//! What holds of every frame, proved from the contracts of the layout.

use crate::layout::lemma_cells_fit;
use crate::layout::num_cubes_spec;
use crate::layout::num_rows_spec;
use crate::layout::placed;
use crate::layout::Area;
use crate::layout::Square;
use crate::noise::row_seed;
use crate::noise::seeded_state;
use crate::noise::Intensity;
use crate::noise::Jitter;
use crate::render::grid_intensity;
use crate::render::grid_square;
use crate::render::grid_squares;
use crate::render::row_jitter;
use crate::render::row_square;
use crate::settings::Settings;
use vstd::arithmetic::div_mod::lemma_fundamental_div_mod;
use vstd::arithmetic::div_mod::lemma_fundamental_div_mod_converse;
use vstd::arithmetic::div_mod::lemma_mod_bound;
use vstd::prelude::*;

verus! {

/// Whether two squares, each in the cell (`row`, `col`) of its own area, are
/// turned alike and stand equally far from their places.
pub open spec fn same_jitter(
    first: Square,
    first_area: Area,
    second: Square,
    second_area: Area,
    settings: Settings,
    row: int,
    col: int,
) -> bool {
    &&& first.rotation == second.rotation
    &&& first.x_shift(first_area, settings, col) == second.x_shift(second_area, settings, col)
    &&& first.y_shift(first_area, settings, row) == second.y_shift(second_area, settings, row)
}

/// A frame is a function of the area, the settings and the seed: two frames
/// laid out from the same three are the same squares in the same order.
pub proof fn lemma_same_inputs_same_frame(
    area: Area,
    settings: Settings,
    seed: u64,
    first: Seq<Square>,
    second: Seq<Square>,
)
    requires
        first == grid_squares(area, settings, seed),
        second == grid_squares(area, settings, seed),
    ensures
        first == second,
        first.len() == num_rows_spec(area, settings) * num_cubes_spec(area, settings),
{
}

/// A frame runs through the grid row by row from the top, and through each
/// row from the left: the square at index `k` is the one of row
/// `k / num_cubes` and column `k % num_cubes`.
pub proof fn lemma_frame_is_row_major(area: Area, settings: Settings, seed: u64, k: int)
    requires
        0 <= k < grid_squares(area, settings, seed).len(),
    ensures
        0 <= k / (num_cubes_spec(area, settings) as int) < num_rows_spec(area, settings),
        0 <= k % (num_cubes_spec(area, settings) as int) < num_cubes_spec(area, settings),
        grid_squares(area, settings, seed)[k] == grid_square(
            area,
            settings,
            seed,
            k / (num_cubes_spec(area, settings) as int),
            k % (num_cubes_spec(area, settings) as int),
        ),
{
    let rows: int = num_rows_spec(area, settings) as int;
    let cols: int = num_cubes_spec(area, settings) as int;
    assert(cols > 0) by (nonlinear_arith)
        requires
            0 <= k < rows * cols,
            0 <= cols,
    ;
    lemma_fundamental_div_mod(k, cols);
    lemma_mod_bound(k, cols);
    assert(0 <= k / cols < rows) by (nonlinear_arith)
        requires
            k == cols * (k / cols) + k % cols,
            0 <= k % cols < cols,
            0 <= k < rows * cols,
    ;
}

/// The jitter of a square depends on the state in which its row's generator
/// starts, on the row's intensity, on the noise settings and on the column,
/// and on nothing else: two rows laid out in areas of different widths have
/// the same jitter in every column that both hold. Where that jitter is
/// bounded by the noise settings, as every drawn jitter is, both squares are
/// turned alike and stand equally far from their places.
pub proof fn lemma_row_jitter_ignores_width(
    first: Area,
    second: Area,
    settings: Settings,
    intensity: Intensity,
    start: Seq<u8>,
    col: int,
) -> (jitter: Jitter)
    requires
        settings.valid(),
        intensity.row < num_rows_spec(first, settings),
        intensity.row < num_rows_spec(second, settings),
        0 <= col < num_cubes_spec(first, settings),
        col < num_cubes_spec(second, settings),
    ensures
        jitter == row_jitter(start, intensity, settings, col as nat),
        row_square(first, settings, intensity, start, col) == placed(
            first,
            settings,
            intensity.row as int,
            col,
            jitter,
        ),
        row_square(second, settings, intensity, start, col) == placed(
            second,
            settings,
            intensity.row as int,
            col,
            jitter,
        ),
        jitter.bounded_by(settings) ==> same_jitter(
            row_square(first, settings, intensity, start, col),
            first,
            row_square(second, settings, intensity, start, col),
            second,
            settings,
            intensity.row as int,
            col,
        ),
{
    lemma_cells_fit(first, settings, intensity.row as int, col);
    lemma_cells_fit(second, settings, intensity.row as int, col);
    row_jitter(start, intensity, settings, col as nat)
}

/// Rows do not reach one another: the generator of a row is seeded by a word
/// that depends on the session's seed and on the row's index alone, so in two
/// grids of as many rows a cell that both hold has the same jitter, however
/// many squares the rows of either grid hold. Where that jitter is bounded by
/// the noise settings, as every drawn jitter is, both squares are turned alike
/// and stand equally far from their places.
pub proof fn lemma_rows_are_independent(
    first: Area,
    second: Area,
    settings: Settings,
    seed: u64,
    row: int,
    col: int,
) -> (jitter: Jitter)
    requires
        settings.valid(),
        num_rows_spec(first, settings) == num_rows_spec(second, settings),
        0 <= row < num_rows_spec(first, settings),
        0 <= col < num_cubes_spec(first, settings),
        col < num_cubes_spec(second, settings),
    ensures
        grid_intensity(first, settings, row) == grid_intensity(second, settings, row),
        jitter == row_jitter(
            seeded_state(row_seed(seed, row as nat)),
            grid_intensity(first, settings, row),
            settings,
            col as nat,
        ),
        grid_square(first, settings, seed, row, col) == placed(first, settings, row, col, jitter),
        grid_square(second, settings, seed, row, col) == placed(second, settings, row, col, jitter),
        jitter.bounded_by(settings) ==> same_jitter(
            grid_square(first, settings, seed, row, col),
            first,
            grid_square(second, settings, seed, row, col),
            second,
            settings,
            row,
            col,
        ),
{
    lemma_cells_fit(first, settings, row, col);
    lemma_cells_fit(second, settings, row, col);
    row_jitter(
        seeded_state(row_seed(seed, row as nat)),
        grid_intensity(first, settings, row),
        settings,
        col as nat,
    )
}

/// The top row has intensity zero: each of its squares, the first
/// `num_cubes` of the frame, stands unturned at its place in the grid,
/// whatever the noise settings.
pub proof fn lemma_top_row_is_unperturbed(area: Area, settings: Settings, seed: u64, col: int)
    requires
        settings.valid(),
        0 < num_rows_spec(area, settings),
        0 <= col < num_cubes_spec(area, settings),
    ensures
        grid_intensity(area, settings, 0).row == 0,
        grid_square(area, settings, seed, 0, col).is_unperturbed(area, settings, 0, col),
        col < grid_squares(area, settings, seed).len(),
        grid_squares(area, settings, seed)[col] == grid_square(area, settings, seed, 0, col),
{
    let rows: int = num_rows_spec(area, settings) as int;
    let cols: int = num_cubes_spec(area, settings) as int;
    lemma_cells_fit(area, settings, 0, col);
    assert(col < rows * cols) by (nonlinear_arith)
        requires
            0 <= col < cols,
            0 < rows,
    ;
    lemma_fundamental_div_mod_converse(col, cols, 0, col);
}

/// With both noise settings at zero every square of the frame stands
/// unturned at its place in the grid, whatever its row.
pub proof fn lemma_zero_noise_is_unperturbed(area: Area, settings: Settings, seed: u64, k: int)
    requires
        settings.valid(),
        settings.angle_noise == 0,
        settings.translation_noise == 0,
        0 <= k < grid_squares(area, settings, seed).len(),
    ensures
        grid_squares(area, settings, seed)[k].is_unperturbed(
            area,
            settings,
            k / (num_cubes_spec(area, settings) as int),
            k % (num_cubes_spec(area, settings) as int),
        ),
{
    let cols: int = num_cubes_spec(area, settings) as int;
    lemma_frame_is_row_major(area, settings, seed, k);
    lemma_cells_fit(area, settings, k / cols, k % cols);
}

/// Every square of a frame has the cube size for its side: jitter moves and
/// turns a square and never resizes it.
pub proof fn lemma_every_square_has_the_cube_size(
    area: Area,
    settings: Settings,
    seed: u64,
    k: int,
)
    requires
        0 <= k < grid_squares(area, settings, seed).len(),
    ensures
        grid_squares(area, settings, seed)[k].side == settings.cube_size,
{
}

/// A border of half the smaller side of the area, or more, leaves an empty
/// frame.
pub proof fn lemma_half_border_leaves_empty_frame(area: Area, settings: Settings, seed: u64)
    requires
        2 * settings.border_size >= area.width || 2 * settings.border_size >= area.height,
    ensures
        num_rows_spec(area, settings) == 0,
        num_cubes_spec(area, settings) == 0,
        grid_squares(area, settings, seed) == Seq::<Square>::empty(),
{
    assert(num_rows_spec(area, settings) * num_cubes_spec(area, settings) == 0);
    assert(grid_squares(area, settings, seed) =~= Seq::<Square>::empty());
}

} // verus!
