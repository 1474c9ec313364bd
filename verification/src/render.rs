//! From a drawable area, the settings and a seed to the squares of a frame.

use crate::layout::lemma_jitter_in_range_is_bounded;
use crate::layout::num_cubes;
use crate::layout::num_cubes_spec;
use crate::layout::num_rows;
use crate::layout::num_rows_spec;
use crate::layout::place_square;
use crate::layout::placed;
use crate::layout::Area;
use crate::layout::Square;
use crate::noise::draw_jitter;
use crate::noise::jitter_spec;
use crate::noise::master_generator;
use crate::noise::master_state;
use crate::noise::row_generator;
use crate::noise::row_seed;
use crate::noise::seeded_state;
use crate::noise::Generator;
use crate::noise::Intensity;
use crate::noise::Jitter;
use crate::settings::Settings;
use vstd::arithmetic::div_mod::lemma_fundamental_div_mod_converse;
use vstd::prelude::*;

verus! {

/// The state of a row's generator, started in `start`, once the first `col`
/// squares of the row have been drawn.
pub open spec fn row_state(
    start: Seq<u8>,
    intensity: Intensity,
    settings: Settings,
    col: nat,
) -> Seq<u8>
    decreases col,
{
    if col == 0 {
        start
    } else {
        jitter_spec(row_state(start, intensity, settings, (col - 1) as nat), intensity, settings).1
    }
}

/// The jitter of the square of column `col` in a row whose generator starts
/// in `start`.
pub open spec fn row_jitter(
    start: Seq<u8>,
    intensity: Intensity,
    settings: Settings,
    col: nat,
) -> Jitter {
    jitter_spec(row_state(start, intensity, settings, col), intensity, settings).0
}

/// The square of column `col` in the row of `intensity`, drawn with a
/// generator that starts in `start`.
pub open spec fn row_square(
    area: Area,
    settings: Settings,
    intensity: Intensity,
    start: Seq<u8>,
    col: int,
) -> Square {
    placed(
        area,
        settings,
        intensity.row as int,
        col,
        row_jitter(start, intensity, settings, col as nat),
    )
}

/// The squares of one row, from left to right.
pub open spec fn row_squares(
    area: Area,
    settings: Settings,
    intensity: Intensity,
    start: Seq<u8>,
) -> Seq<Square> {
    Seq::new(
        num_cubes_spec(area, settings),
        |col: int| row_square(area, settings, intensity, start, col),
    )
}

/// The intensity of row `row` of the grid: its index over the number of rows.
pub open spec fn grid_intensity(area: Area, settings: Settings, row: int) -> Intensity {
    Intensity { row: row as u32, rows: num_rows_spec(area, settings) as u32 }
}

/// The square of cell (`row`, `col`) of the grid: the row's generator is
/// seeded by the word that the master generator hands out for that row.
pub open spec fn grid_square(
    area: Area,
    settings: Settings,
    seed: u64,
    row: int,
    col: int,
) -> Square {
    row_square(
        area,
        settings,
        grid_intensity(area, settings, row),
        seeded_state(row_seed(seed, row as nat)),
        col,
    )
}

/// The squares of a frame, row after row from the top, each row from the left.
pub open spec fn grid_squares(area: Area, settings: Settings, seed: u64) -> Seq<Square> {
    let cols = num_cubes_spec(area, settings) as int;
    Seq::new(
        num_rows_spec(area, settings) * num_cubes_spec(area, settings),
        |k: int| grid_square(area, settings, seed, k / cols, k % cols),
    )
}

/// Lays out one row of the grid, drawing each square's jitter from the row's
/// generator: the squares come from left to right, and each one's rotation
/// and shifts lie in the ranges scaled by the row's intensity.
pub fn render_row(
    area: &Area,
    settings: &Settings,
    intensity: Intensity,
    generator: &mut Generator,
) -> (squares: Vec<Square>)
    requires
        settings.valid(),
        intensity.valid(),
        intensity.row < num_rows_spec(*area, *settings),
    ensures
        squares@ == row_squares(*area, *settings, intensity, old(generator)@),
        squares@.len() == num_cubes_spec(*area, *settings),
        final(generator)@ == row_state(
            old(generator)@,
            intensity,
            *settings,
            num_cubes_spec(*area, *settings),
        ),
        forall|col: int|
            0 <= col < squares@.len() ==> (#[trigger] squares@[col]).jitter_in_range(
                *area,
                *settings,
                intensity,
                col,
            ),
{
    let cols: u32 = num_cubes(area, settings);
    let ghost start = generator@;
    let mut squares: Vec<Square> = Vec::new();
    let mut col: u32 = 0;
    while col < cols
        invariant
            col <= cols,
            cols == num_cubes_spec(*area, *settings),
            settings.valid(),
            intensity.valid(),
            intensity.row < num_rows_spec(*area, *settings),
            generator@ == row_state(start, intensity, *settings, col as nat),
            squares@.len() == col,
            forall|c: int|
                0 <= c < col ==> #[trigger] squares@[c] == row_square(
                    *area,
                    *settings,
                    intensity,
                    start,
                    c,
                ),
            forall|c: int|
                0 <= c < col ==> (#[trigger] squares@[c]).jitter_in_range(
                    *area,
                    *settings,
                    intensity,
                    c,
                ),
        decreases cols - col,
    {
        let jitter: Jitter = draw_jitter(generator, intensity, settings);
        proof {
            lemma_jitter_in_range_is_bounded(jitter, intensity, *settings);
        }
        let square: Square = place_square(area, settings, intensity.row, col, jitter);
        squares.push(square);
        col += 1;
    }
    squares
}

/// Lays out a frame: the working area is the drawable area less the border;
/// each row gets a generator of its own, seeded by the next word of the
/// master generator of `seed`, and an intensity that grows from zero at the
/// top. The same area, settings and seed give the same squares.
pub fn render(area: &Area, settings: &Settings, seed: u64) -> (squares: Vec<Square>)
    requires
        settings.valid(),
    ensures
        squares@ == grid_squares(*area, *settings, seed),
        squares@.len() == num_rows_spec(*area, *settings) * num_cubes_spec(*area, *settings),
        forall|k: int|
            0 <= k < squares@.len() ==> (#[trigger] squares@[k]).jitter_in_range(
                *area,
                *settings,
                grid_intensity(*area, *settings, k / (num_cubes_spec(*area, *settings) as int)),
                k % (num_cubes_spec(*area, *settings) as int),
            ),
{
    let rows: u32 = num_rows(area, settings);
    let cols: u32 = num_cubes(area, settings);
    let mut master: Generator = master_generator(seed);
    let mut squares: Vec<Square> = Vec::new();
    let mut row: u32 = 0;
    while row < rows
        invariant
            row <= rows,
            rows == num_rows_spec(*area, *settings),
            cols == num_cubes_spec(*area, *settings),
            settings.valid(),
            master@ == master_state(seed, row as nat),
            squares@.len() == row * cols,
            forall|k: int|
                0 <= k < squares@.len() ==> #[trigger] squares@[k] == grid_square(
                    *area,
                    *settings,
                    seed,
                    k / (cols as int),
                    k % (cols as int),
                ),
            forall|k: int|
                0 <= k < squares@.len() ==> (#[trigger] squares@[k]).jitter_in_range(
                    *area,
                    *settings,
                    grid_intensity(*area, *settings, k / (cols as int)),
                    k % (cols as int),
                ),
        decreases rows - row,
    {
        let word: u64 = master.next_row_seed();
        let mut generator: Generator = row_generator(word);
        let intensity = Intensity { row, rows };
        let ghost before = squares@;
        let mut row_of_squares: Vec<Square> = render_row(area, settings, intensity, &mut generator);
        let ghost added = row_of_squares@;
        squares.append(&mut row_of_squares);
        proof {
            assert((row + 1) * cols == row * cols + cols) by (nonlinear_arith);
            assert forall|k: int| 0 <= k < squares@.len() implies #[trigger] squares@[k]
                == grid_square(*area, *settings, seed, k / (cols as int), k % (cols as int))
                && squares@[k].jitter_in_range(
                *area,
                *settings,
                grid_intensity(*area, *settings, k / (cols as int)),
                k % (cols as int),
            ) by {
                if k >= before.len() {
                    let c: int = k - row * cols;
                    lemma_fundamental_div_mod_converse(k, cols as int, row as int, c);
                    assert(squares@[k] == added[c]);
                    assert(intensity == grid_intensity(*area, *settings, row as int));
                } else {
                    assert(squares@[k] == before[k]);
                }
            }
        }
        row += 1;
    }
    squares
}

} // verus!
