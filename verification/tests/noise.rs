use jitter_grid::noise::{
    draw_jitter, master_generator, row_generator, sample_bounds, scaled_sample, Intensity, Jitter,
};
use jitter_grid::settings::Settings;

#[test]
fn master_generator_hands_out_the_same_words_for_the_same_seed() {
    let mut first = master_generator(42);
    let mut second = master_generator(42);
    for _ in 0..16 {
        assert_eq!(first.next_row_seed(), second.next_row_seed());
    }
}

#[test]
fn master_generator_of_seed_42_hands_out_known_words() {
    let mut master = master_generator(42);
    assert_eq!(master.next_row_seed(), 9713269763989775522);
    assert_eq!(master.next_row_seed(), 10011513049433592189);
    assert_eq!(master.next_row_seed(), 11740708795755607249);
}

#[test]
fn different_seeds_give_different_generators() {
    let mut zero = master_generator(0);
    let mut seven = row_generator(7);
    assert_eq!(zero.next_row_seed(), 13486662071293341567);
    assert_eq!(seven.next_row_seed(), 559256596868823998);
}

#[test]
fn row_generator_and_master_generator_agree_on_a_seed() {
    let mut row = row_generator(42);
    let mut master = master_generator(42);
    assert_eq!(row.next_row_seed(), master.next_row_seed());
}

#[test]
fn sample_bounds_hold_the_whole_numbers_of_the_scaled_range() {
    // 15 * 2 / 3 is exactly 10.
    assert_eq!(sample_bounds(Intensity { row: 2, rows: 3 }, 15), Some((-10, 10)));
    // 10 * 1 / 3 lies between 3 and 4: -3, .., 3 are the points of the range.
    assert_eq!(sample_bounds(Intensity { row: 1, rows: 3 }, 10), Some((-3, 4)));
    // 10 / 1000 lies between 0 and 1: zero is the only point.
    assert_eq!(sample_bounds(Intensity { row: 1, rows: 1_000 }, 10), Some((0, 1)));
    assert_eq!(
        sample_bounds(Intensity { row: 2, rows: 3 }, 500_000),
        Some((-333_333, 333_334))
    );
}

#[test]
fn sample_bounds_are_none_at_zero_intensity_or_zero_half_width() {
    assert_eq!(sample_bounds(Intensity { row: 0, rows: 3 }, 10), None);
    assert_eq!(sample_bounds(Intensity { row: 1, rows: 3 }, 0), None);
    assert_eq!(sample_bounds(Intensity { row: 0, rows: 1 }, 0), None);
}

#[test]
fn sample_bounds_at_the_largest_inputs() {
    let intensity = Intensity { row: u32::MAX - 1, rows: u32::MAX };
    // (2^32 - 1) * (2^32 - 2) / (2^32 - 1) is exactly 2^32 - 2.
    assert_eq!(
        sample_bounds(intensity, u32::MAX),
        Some((-4_294_967_294, 4_294_967_294))
    );
}

#[test]
fn scaled_sample_is_zero_without_a_draw_at_zero_intensity() {
    let mut generator = row_generator(7);
    assert_eq!(scaled_sample(&mut generator, Intensity { row: 0, rows: 3 }, 500_000), 0);
    // The generator was not touched: its next word is its first.
    assert_eq!(generator.next_row_seed(), 559256596868823998);
}

#[test]
fn scaled_sample_is_zero_without_a_draw_at_zero_half_width() {
    let mut generator = row_generator(7);
    assert_eq!(scaled_sample(&mut generator, Intensity { row: 1, rows: 3 }, 0), 0);
    assert_eq!(generator.next_row_seed(), 559256596868823998);
}

#[test]
fn scaled_sample_draws_even_where_zero_is_the_only_point() {
    let mut generator = row_generator(7);
    assert_eq!(scaled_sample(&mut generator, Intensity { row: 1, rows: 1_000 }, 10), 0);
    assert_eq!(generator.next_row_seed(), 5664742077951270790);
}

#[test]
fn scaled_sample_reproduces_known_values() {
    let mut generator = row_generator(7);
    let half = Intensity { row: 1, rows: 2 };
    assert_eq!(scaled_sample(&mut generator, half, 1_000), -470);
    assert_eq!(scaled_sample(&mut generator, half, 1_000), -193);
}

#[test]
fn scaled_sample_stays_in_the_scaled_range() {
    let mut generator = row_generator(2024);
    let intensity = Intensity { row: 2, rows: 3 };
    let mut seen_negative = false;
    let mut seen_positive = false;
    for _ in 0..2_000 {
        let value = scaled_sample(&mut generator, intensity, 15);
        assert!(-10 <= value && value < 10);
        seen_negative = seen_negative || value < 0;
        seen_positive = seen_positive || value > 0;
    }
    assert!(seen_negative && seen_positive);
}

#[test]
fn draw_jitter_samples_angle_then_right_then_up() {
    let settings = Settings {
        cube_size: 100_000,
        border_size: 0,
        angle_noise: 500_000,
        translation_noise: 15_000,
    };
    let intensity = Intensity { row: 3, rows: 4 };
    let mut together = row_generator(7);
    let jitter = draw_jitter(&mut together, intensity, &settings);
    assert_eq!(jitter, Jitter { angle: -352262, x_shift: -4341, y_shift: -8041 });

    let mut one_by_one = row_generator(7);
    assert_eq!(scaled_sample(&mut one_by_one, intensity, 500_000), jitter.angle);
    assert_eq!(scaled_sample(&mut one_by_one, intensity, 15_000), jitter.x_shift);
    assert_eq!(scaled_sample(&mut one_by_one, intensity, 15_000), jitter.y_shift);
    assert_eq!(together.next_row_seed(), one_by_one.next_row_seed());
}

#[test]
fn draw_jitter_is_zero_in_the_top_row() {
    let settings = Settings {
        cube_size: 100_000,
        border_size: 0,
        angle_noise: 500_000,
        translation_noise: 15_000,
    };
    let mut generator = row_generator(7);
    let jitter = draw_jitter(&mut generator, Intensity { row: 0, rows: 4 }, &settings);
    assert_eq!(jitter, Jitter { angle: 0, x_shift: 0, y_shift: 0 });
}
