use jitter_grid::settings::{
    clamp_to, ControlInput, Settings, ANGLE_NOISE_MAX, ANGLE_NOISE_MIN, ANGLE_SCALE, CUBE_SIZE_MAX,
    CUBE_SIZE_MIN, DEFAULT_SEED, LENGTH_SCALE, STROKE_WEIGHT, TRANSLATION_NOISE_MAX,
    TRANSLATION_NOISE_MIN,
};

#[test]
fn initial_settings_hold_the_session_defaults() {
    let s = Settings::initial();
    assert_eq!(s.cube_size, 50 * LENGTH_SCALE);
    assert_eq!(s.border_size, 30 * LENGTH_SCALE);
    assert_eq!(s.angle_noise, ANGLE_SCALE / 2);
    assert_eq!(s.translation_noise, 15 * LENGTH_SCALE);
    assert_eq!(DEFAULT_SEED, 42);
}

#[test]
fn panel_limits_in_units() {
    assert_eq!(CUBE_SIZE_MIN, 10 * LENGTH_SCALE);
    assert_eq!(CUBE_SIZE_MAX, 200 * LENGTH_SCALE);
    assert_eq!(ANGLE_NOISE_MIN, ANGLE_SCALE / 100);
    // A quarter turn is 1.5707963.. radians.
    assert_eq!(ANGLE_NOISE_MAX, 1_570_796);
    assert_eq!(TRANSLATION_NOISE_MIN, LENGTH_SCALE / 100);
    assert_eq!(TRANSLATION_NOISE_MAX, 25 * LENGTH_SCALE);
    assert_eq!(STROKE_WEIGHT, LENGTH_SCALE + LENGTH_SCALE / 2);
}

#[test]
fn clamp_to_moves_to_the_nearest_point() {
    assert_eq!(clamp_to(5, 10, 20), 10);
    assert_eq!(clamp_to(10, 10, 20), 10);
    assert_eq!(clamp_to(15, 10, 20), 15);
    assert_eq!(clamp_to(20, 10, 20), 20);
    assert_eq!(clamp_to(u32::MAX, 10, 20), 20);
    assert_eq!(clamp_to(0, 7, 7), 7);
}

#[test]
fn cube_size_is_held_to_the_panel_limits() {
    let mut s = Settings::initial();
    s.on_user_input(ControlInput::CubeSize(0));
    assert_eq!(s.cube_size, 10_000);
    s.on_user_input(ControlInput::CubeSize(1_000_000));
    assert_eq!(s.cube_size, 200_000);
    s.on_user_input(ControlInput::CubeSize(75_000));
    assert_eq!(s.cube_size, 75_000);
    assert_eq!(
        s,
        Settings {
            cube_size: 75_000,
            border_size: 30_000,
            angle_noise: 500_000,
            translation_noise: 15_000,
        }
    );
}

#[test]
fn angle_noise_is_held_to_the_panel_limits() {
    let mut s = Settings::initial();
    s.on_user_input(ControlInput::AngleNoise(0));
    assert_eq!(s.angle_noise, 10_000);
    s.on_user_input(ControlInput::AngleNoise(2_000_000));
    assert_eq!(s.angle_noise, 1_570_796);
    s.on_user_input(ControlInput::AngleNoise(1_000_000));
    assert_eq!(
        s,
        Settings {
            cube_size: 50_000,
            border_size: 30_000,
            angle_noise: 1_000_000,
            translation_noise: 15_000,
        }
    );
}

#[test]
fn translation_noise_is_held_to_the_panel_limits() {
    let mut s = Settings::initial();
    s.on_user_input(ControlInput::TranslationNoise(9));
    assert_eq!(s.translation_noise, 10);
    s.on_user_input(ControlInput::TranslationNoise(25_001));
    assert_eq!(s.translation_noise, 25_000);
    s.on_user_input(ControlInput::TranslationNoise(20_000));
    assert_eq!(
        s,
        Settings {
            cube_size: 50_000,
            border_size: 30_000,
            angle_noise: 500_000,
            translation_noise: 20_000,
        }
    );
}

#[test]
fn border_size_takes_any_value() {
    let mut s = Settings::initial();
    s.on_user_input(ControlInput::BorderSize(0));
    assert_eq!(s.border_size, 0);
    s.on_user_input(ControlInput::BorderSize(u32::MAX));
    assert_eq!(
        s,
        Settings {
            cube_size: 50_000,
            border_size: u32::MAX,
            angle_noise: 500_000,
            translation_noise: 15_000,
        }
    );
}
