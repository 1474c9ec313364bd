//! Seeded generators and the jitter drawn from them.
//!
//! One master generator, made from the session's seed, hands out one word per
//! row; each row draws its jitter from a generator of its own, seeded by that
//! word. What a row draws therefore never reaches another row.

use crate::settings::Settings;
use rand::rngs::StdRng;
use rand::Rng;
use rand::RngCore;
use rand::SeedableRng;
use vstd::arithmetic::div_mod::lemma_fundamental_div_mod;
use vstd::arithmetic::div_mod::lemma_mod_bound;
use vstd::prelude::*;

verus! {

/// `rand::rngs::StdRng`, the generator behind every draw. Nothing inside it is
/// visible to the proofs: they speak of it through `rng_state`.
#[verifier::external_type_specification]
#[verifier::external_body]
pub struct ExStdRng(StdRng);

/// The state of a `rand::rngs::StdRng`, in a fixed encoding: everything that
/// its later output depends on. Nothing is assumed of the encoding itself.
pub uninterp spec fn rng_state(rng: StdRng) -> Seq<u8>;

/// The state in which `StdRng::seed_from_u64` makes a generator, in the
/// version of `rand` that the crate is built with.
pub uninterp spec fn seeded_state(seed: u64) -> Seq<u8>;

/// What `StdRng::next_u64` does in a given state: the word it returns and the
/// state it leaves.
pub uninterp spec fn word_draw(state: Seq<u8>) -> (u64, Seq<u8>);

/// What `Rng::gen_range(low..high)` does for `i64` on a `StdRng` in a given
/// state: the value it returns and the state it leaves.
pub uninterp spec fn range_draw(state: Seq<u8>, low: i64, high: i64) -> (i64, Seq<u8>);

/// `rand::SeedableRng::seed_from_u64` for `StdRng`. The seed is expanded to a
/// key by fixed arithmetic, so the new generator's state depends on the seed
/// alone.
#[verifier::external_body]
fn rng_from_seed(seed: u64) -> (rng: StdRng)
    ensures
        rng_state(rng) == seeded_state(seed),
{
    StdRng::seed_from_u64(seed)
}

/// `rand::RngCore::next_u64` for `StdRng`. The word returned and the state
/// left behind depend on the state before the call alone.
#[verifier::external_body]
fn rng_next_word(rng: &mut StdRng) -> (word: u64)
    ensures
        (word, rng_state(*final(rng))) == word_draw(rng_state(*old(rng))),
{
    rng.next_u64()
}

/// `rand::Rng::gen_range` for `StdRng` on a half-open range of `i64`. It
/// panics on an empty range, which the precondition leaves out. The value lies
/// in the range; it and the state left behind depend on the state before the
/// call and on the range alone. That the value is spread evenly over the range
/// is not stated.
#[verifier::external_body]
fn rng_gen_range(rng: &mut StdRng, low: i64, high: i64) -> (value: i64)
    requires
        low < high,
    ensures
        (value, rng_state(*final(rng))) == range_draw(rng_state(*old(rng)), low, high),
        low <= value < high,
{
    rng.gen_range(low..high)
}

/// A deterministic pseudo-random generator. Its view is its whole state.
pub struct Generator {
    rng: StdRng,
}

impl View for Generator {
    type V = Seq<u8>;

    closed spec fn view(&self) -> Seq<u8> {
        rng_state(self.rng)
    }
}

/// The state of the master generator of `seed` after it has handed out the
/// seeds of the first `rows` rows.
pub open spec fn master_state(seed: u64, rows: nat) -> Seq<u8>
    decreases rows,
{
    if rows == 0 {
        seeded_state(seed)
    } else {
        word_draw(master_state(seed, (rows - 1) as nat)).1
    }
}

/// The word that seeds the generator of row `row` in a session of `seed`.
pub open spec fn row_seed(seed: u64, row: nat) -> u64 {
    word_draw(master_state(seed, row)).0
}

/// The generator of a session: the same seed gives the same generator.
pub fn master_generator(seed: u64) -> (generator: Generator)
    ensures
        generator@ == master_state(seed, 0),
{
    Generator { rng: rng_from_seed(seed) }
}

/// The generator of one row, from the word that the master handed out for it.
pub fn row_generator(value: u64) -> (generator: Generator)
    ensures
        generator@ == seeded_state(value),
{
    Generator { rng: rng_from_seed(value) }
}

impl Generator {
    /// Draws the next 64-bit word: from the master, the seed of the next row.
    pub fn next_row_seed(&mut self) -> (word: u64)
        ensures
            (word, final(self)@) == word_draw(old(self)@),
    {
        rng_next_word(&mut self.rng)
    }
}

/// How strongly a row is jittered: the fraction `row / rows`, where `row` is
/// the row's index from the top and `rows` the number of rows.
#[derive(Clone, Copy, Debug, PartialEq, Eq, Structural)]
pub struct Intensity {
    pub row: u32,
    pub rows: u32,
}

impl Intensity {
    /// The row is one of the rows, so the fraction lies in `[0, 1)`.
    pub open spec fn valid(&self) -> bool {
        self.row < self.rows
    }
}

/// Whether a sample at this intensity and half-width draws from the generator.
pub open spec fn draws(intensity: Intensity, half_width: u32) -> bool {
    intensity.row > 0 && half_width > 0
}

/// The half-width scaled by the intensity, rounded down.
pub open spec fn scaled_floor(intensity: Intensity, half_width: u32) -> int {
    (half_width * intensity.row) / (intensity.rows as int)
}

/// The half-width scaled by the intensity, rounded up.
pub open spec fn scaled_ceil(intensity: Intensity, half_width: u32) -> int {
    if (half_width * intensity.row) % (intensity.rows as int) == 0 {
        scaled_floor(intensity, half_width)
    } else {
        scaled_floor(intensity, half_width) + 1
    }
}

/// The half-open range of integers from which a sample is drawn, if it is
/// drawn at all: the whole numbers `v` with
/// `-half_width * row / rows <= v < half_width * row / rows`.
pub open spec fn sample_bounds_spec(intensity: Intensity, half_width: u32) -> Option<(i64, i64)> {
    if draws(intensity, half_width) {
        Some(
            (
                (-scaled_floor(intensity, half_width)) as i64,
                scaled_ceil(intensity, half_width) as i64,
            ),
        )
    } else {
        None
    }
}

/// Whether `value` may come out of a sample at this intensity and half-width:
/// zero where nothing is drawn, else a point of the scaled range.
pub open spec fn in_scaled_range(value: int, intensity: Intensity, half_width: u32) -> bool {
    if draws(intensity, half_width) {
        -(half_width * intensity.row) <= value * intensity.rows < half_width * intensity.row
    } else {
        value == 0
    }
}

/// A sample in a given state: the value and the state left behind. Where
/// nothing is drawn the value is zero and the state stays.
pub open spec fn sample_spec(
    state: Seq<u8>,
    intensity: Intensity,
    half_width: u32,
) -> (i64, Seq<u8>) {
    match sample_bounds_spec(intensity, half_width) {
        Some((low, high)) => range_draw(state, low, high),
        None => (0, state),
    }
}

/// The scaled bounds enclose zero, stay within the half-width, and hold
/// exactly the whole numbers of the scaled range.
pub proof fn lemma_scaled_bounds(intensity: Intensity, half_width: u32)
    requires
        intensity.valid(),
        draws(intensity, half_width),
    ensures
        half_width * intensity.row <= u64::MAX,
        0 <= scaled_floor(intensity, half_width) < half_width,
        0 < scaled_ceil(intensity, half_width) <= half_width,
        forall|v: int|
            -scaled_floor(intensity, half_width) <= v < scaled_ceil(intensity, half_width)
                <==> #[trigger] in_scaled_range(v, intensity, half_width),
{
    let p: int = half_width * intensity.row;
    let r: int = intensity.rows as int;
    let q: int = p / r;
    let m: int = p % r;
    let h: int = half_width as int;
    let i: int = intensity.row as int;
    lemma_fundamental_div_mod(p, r);
    lemma_mod_bound(p, r);
    assert(p == r * q + m);
    assert(0 < p <= 0xffff_fffe_0000_0001 && p <= h * r - h) by (nonlinear_arith)
        requires
            p == h * i,
            0 < h <= 0xffff_ffff,
            0 < i < r,
            r <= 0xffff_ffff,
    ;
    assert(0 <= q < h && (m != 0 ==> q + 1 <= h)) by (nonlinear_arith)
        requires
            p == r * q + m,
            0 <= m < r,
            0 < p <= h * r - h,
            0 < h,
    ;
    assert(m == 0 ==> q > 0) by (nonlinear_arith)
        requires
            p == r * q + m,
            0 < p,
            0 < r,
    ;
    assert forall|v: int|
        -scaled_floor(intensity, half_width) <= v < scaled_ceil(intensity, half_width)
            <==> #[trigger] in_scaled_range(v, intensity, half_width) by {
        let c: int = scaled_ceil(intensity, half_width);
        assert((-q <= v) <==> (-p <= v * r)) by (nonlinear_arith)
            requires
                p == r * q + m,
                0 <= m < r,
        ;
        assert((v < c) <==> (v * r < p)) by (nonlinear_arith)
            requires
                p == r * q + m,
                0 <= m < r,
                c == if m == 0 { q } else { q + 1 },
        ;
    }
}

/// The scaled range widens down the rows and is a single point at the top:
/// what may come out of a sample in one row may come out in every row below.
pub proof fn lemma_scaled_range_widens_down_the_rows(
    value: int,
    upper: Intensity,
    lower: Intensity,
    half_width: u32,
)
    requires
        upper.rows == lower.rows,
        upper.row <= lower.row,
        lower.valid(),
        in_scaled_range(value, upper, half_width),
    ensures
        in_scaled_range(value, lower, half_width),
        upper.row == 0 ==> value == 0,
{
    if draws(upper, half_width) {
        let h: int = half_width as int;
        let a: int = upper.row as int;
        let b: int = lower.row as int;
        assert(h * a <= h * b) by (nonlinear_arith)
            requires
                0 <= h,
                a <= b,
        ;
    } else if draws(lower, half_width) {
        let h: int = half_width as int;
        let b: int = lower.row as int;
        assert(0 < h * b) by (nonlinear_arith)
            requires
                0 < h,
                0 < b,
        ;
    }
}

/// A value of the scaled range is no further from zero than the half-width.
pub proof fn lemma_scaled_range_is_bounded(value: int, intensity: Intensity, half_width: u32)
    requires
        intensity.valid(),
        in_scaled_range(value, intensity, half_width),
    ensures
        -half_width <= value <= half_width,
{
    if draws(intensity, half_width) {
        lemma_scaled_bounds(intensity, half_width);
    }
}

/// The range from which a sample at this intensity and half-width is drawn,
/// or `None` where the sample is zero without a draw: at the top row and at a
/// half-width of zero.
pub fn sample_bounds(intensity: Intensity, half_width: u32) -> (bounds: Option<(i64, i64)>)
    requires
        intensity.valid(),
    ensures
        bounds == sample_bounds_spec(intensity, half_width),
        bounds matches Some((low, high)) ==> -half_width <= low <= 0 < high <= half_width,
{
    if intensity.row == 0 || half_width == 0 {
        return None;
    }
    proof {
        lemma_scaled_bounds(intensity, half_width);
    }
    let product: u64 = half_width as u64 * intensity.row as u64;
    let rows: u64 = intensity.rows as u64;
    let floor: u64 = product / rows;
    let ceil: u64 = if product % rows == 0 {
        floor
    } else {
        floor + 1
    };
    Some((-(floor as i64), ceil as i64))
}

/// One jitter value: drawn from the whole numbers of the range that reaches
/// the half-width scaled by the intensity to either side of zero, or exactly
/// zero, with the generator untouched, where the intensity or the half-width
/// is zero.
pub fn scaled_sample(
    generator: &mut Generator,
    intensity: Intensity,
    half_width: u32,
) -> (value: i64)
    requires
        intensity.valid(),
    ensures
        (value, final(generator)@) == sample_spec(old(generator)@, intensity, half_width),
        in_scaled_range(value as int, intensity, half_width),
{
    match sample_bounds(intensity, half_width) {
        Some((low, high)) => {
            proof {
                lemma_scaled_bounds(intensity, half_width);
            }
            rng_gen_range(&mut generator.rng, low, high)
        },
        None => 0,
    }
}

/// The perturbation of one square.
#[derive(Clone, Copy, Debug, PartialEq, Eq, Structural)]
pub struct Jitter {
    /// Rotation, counter-clockwise, in angle units.
    pub angle: i64,
    /// Shift to the right, in length units.
    pub x_shift: i64,
    /// Shift upwards, in length units.
    pub y_shift: i64,
}

impl Jitter {
    /// Each part lies in its scaled range.
    pub open spec fn in_range(&self, intensity: Intensity, settings: Settings) -> bool {
        &&& in_scaled_range(self.angle as int, intensity, settings.angle_noise)
        &&& in_scaled_range(self.x_shift as int, intensity, settings.translation_noise)
        &&& in_scaled_range(self.y_shift as int, intensity, settings.translation_noise)
    }
}

/// The jitter of one square in a given state, and the state left behind: the
/// angle is sampled first, then the shift to the right, then the shift upwards.
pub open spec fn jitter_spec(
    state: Seq<u8>,
    intensity: Intensity,
    settings: Settings,
) -> (Jitter, Seq<u8>) {
    let (angle, after_angle) = sample_spec(state, intensity, settings.angle_noise);
    let (x_shift, after_x) = sample_spec(after_angle, intensity, settings.translation_noise);
    let (y_shift, after_y) = sample_spec(after_x, intensity, settings.translation_noise);
    (Jitter { angle, x_shift, y_shift }, after_y)
}

/// Draws the jitter of the next square of a row.
pub fn draw_jitter(
    generator: &mut Generator,
    intensity: Intensity,
    settings: &Settings,
) -> (jitter: Jitter)
    requires
        intensity.valid(),
    ensures
        (jitter, final(generator)@) == jitter_spec(old(generator)@, intensity, *settings),
        jitter.in_range(intensity, *settings),
{
    let angle: i64 = scaled_sample(generator, intensity, settings.angle_noise);
    let x_shift: i64 = scaled_sample(generator, intensity, settings.translation_noise);
    let y_shift: i64 = scaled_sample(generator, intensity, settings.translation_noise);
    Jitter { angle, x_shift, y_shift }
}

} // verus!
