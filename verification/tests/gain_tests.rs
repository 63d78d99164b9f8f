use soundscapes::gain::{
    ambient_gain_exec, calc_ambient_volume, duck_factor_exec, ducked_music_gain_exec,
    mul_milli, music_gain_exec,
};
use soundscapes::settings::AmbientSettings;

fn default_settings() -> AmbientSettings {
    AmbientSettings::default()
}

#[test]
fn milli_product_is_scaled() {
    assert_eq!(mul_milli(1000, 1000), 1000);
    assert_eq!(mul_milli(500, 500), 250);
    assert_eq!(mul_milli(0, 1000), 0);
    assert_eq!(mul_milli(1000, 333), 333);
    assert_eq!(mul_milli(750, 400), 300);
}

#[test]
fn duck_factor_extremes() {
    assert_eq!(duck_factor_exec(0, 500), 1000);
    assert_eq!(duck_factor_exec(1000, 0), 1000);
    assert_eq!(duck_factor_exec(1000, 500), 500);
    assert_eq!(duck_factor_exec(1000, 1000), 0);
    assert_eq!(duck_factor_exec(500, 500), 750);
}

#[test]
fn music_gain_respects_mutes() {
    assert_eq!(music_gain_exec(800, 500, false, false), 400);
    assert_eq!(music_gain_exec(800, 500, true, false), 0);
    assert_eq!(music_gain_exec(800, 500, false, true), 0);
    assert_eq!(music_gain_exec(1000, 1000, false, false), 1000);
}

#[test]
fn ducked_music_gain_halves_under_full_duck() {
    let g = ducked_music_gain_exec(1000, 1000, false, false, 1000, 500);
    assert_eq!(g, 500);
    let g2 = ducked_music_gain_exec(1000, 1000, false, false, 0, 500);
    assert_eq!(g2, 1000);
}

#[test]
fn ambient_gain_chain_multiplies_every_stage() {
    // volume 0.5, ambient master 0.8, master 0.5, no variation, no duck:
    // 0.5 * 0.8 = 0.4; * 0.5 = 0.2
    let g = ambient_gain_exec(500, 800, 500, false, false, 0, 0, 1000);
    assert_eq!(g, 200);
    // fully ducked at half depth: * (1 - 0.5) = 0.1
    let g2 = ambient_gain_exec(500, 800, 500, false, false, 1000, 500, 1000);
    assert_eq!(g2, 100);
    // ambient mute silences
    assert_eq!(ambient_gain_exec(500, 800, 500, true, false, 0, 0, 1000), 0);
    assert_eq!(ambient_gain_exec(500, 800, 500, false, true, 0, 0, 1000), 0);
}

#[test]
fn calc_without_variation_is_exact() {
    let mut s = default_settings();
    s.volume = 600;
    let g = calc_ambient_volume(&s, 1000, 1000, false, false, 0, 0);
    assert_eq!(g, 600);
}

#[test]
fn calc_with_variation_stays_inside_spread() {
    let mut s = default_settings();
    s.volume = 1000;
    s.volume_variation = 500;
    for _ in 0..50 {
        let g = calc_ambient_volume(&s, 1000, 1000, false, false, 0, 0);
        assert!(g <= 1500);
    }
}

#[test]
fn calc_muted_is_zero_whatever_the_draw() {
    let mut s = default_settings();
    s.volume_variation = 500;
    for _ in 0..10 {
        assert_eq!(calc_ambient_volume(&s, 1000, 1000, true, false, 0, 0), 0);
    }
}
