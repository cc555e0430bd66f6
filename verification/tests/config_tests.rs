use artimate::app::{App, Phase, SketchMode};
use artimate::config::{Config, ConfigError, DEFAULT_HEIGHT, DEFAULT_WIDTH};

#[test]
fn with_dims_sets_dimensions_and_defaults() {
    let config = Config::with_dims(800, 600);
    assert_eq!(config.width, 800);
    assert_eq!(config.height, 600);
    assert!(!config.no_loop);
    assert_eq!(config.frames, None);
    assert!(config.cursor_visible);
    assert_eq!(config.frames_to_save, 0);
    assert_eq!(config.window_title, "Artimate");
}

#[test]
fn new_sets_every_field() {
    let config = Config::new(320, 200, true, false, 12);
    assert_eq!(config.width, 320);
    assert_eq!(config.height, 200);
    assert!(config.no_loop);
    assert_eq!(config.frames, None);
    assert!(!config.cursor_visible);
    assert_eq!(config.frames_to_save, 12);
}

#[test]
fn default_config_uses_default_dimensions() {
    let config = Config::default();
    assert_eq!(config.width, DEFAULT_WIDTH);
    assert_eq!(config.height, DEFAULT_HEIGHT);
    assert_eq!(config.width, 1080);
    assert_eq!(config.height, 700);
    assert!(!config.no_loop);
    assert_eq!(config.frames, None);
    assert!(config.cursor_visible);
    assert_eq!(config.frames_to_save, 0);
    assert_eq!(config.window_title, "Artimate");
}

#[test]
fn builders_chain_and_replace_fields() {
    let config = Config::with_dims(400, 400)
        .set_title("boxy")
        .set_frames_to_save(60)
        .set_cursor_visibility(false)
        .no_loop()
        .set_frames(9);
    assert_eq!(config.width, 400);
    assert_eq!(config.height, 400);
    assert_eq!(config.window_title, "boxy");
    assert_eq!(config.frames_to_save, 60);
    assert!(!config.cursor_visible);
    assert!(config.no_loop);
    assert_eq!(config.frames, Some(9));
}

#[test]
fn wh_returns_both_dimensions() {
    let config = Config::with_dims(1920, 1080);
    assert_eq!(config.wh(), (1920, 1080));
}

#[test]
fn sketch_rejects_zero_width() {
    let result = App::sketch(Config::with_dims(0, 100));
    assert!(matches!(result, Err(ConfigError::InvalidDimensions)));
}

#[test]
fn sketch_rejects_zero_height() {
    let result = App::sketch(Config::with_dims(100, 0));
    assert!(matches!(result, Err(ConfigError::InvalidDimensions)));
}

#[test]
fn app_rejects_zero_dimensions() {
    let result = App::app(7i32, Config::with_dims(0, 0));
    assert!(matches!(result, Err(ConfigError::InvalidDimensions)));
}

#[test]
fn sketch_starts_fresh() {
    let app = App::sketch(Config::with_dims(64, 64)).unwrap();
    assert_eq!(app.phase, Phase::Created);
    assert_eq!(app.frame_count, 0);
    assert_eq!(app.saves_emitted, 0);
    assert!(!app.stateful);
    assert!(!app.window_created);
}

#[test]
fn app_builders_update_config() {
    let app: App<SketchMode, ()> = App::sketch(Config::with_dims(64, 64)).unwrap();
    let app = app
        .set_title("rose")
        .set_frames(30)
        .set_frames_to_save(3)
        .set_cursor_visibility(false);
    assert_eq!(app.config.window_title, "rose");
    assert_eq!(app.config.frames, Some(30));
    assert_eq!(app.config.frames_to_save, 3);
    assert!(!app.config.cursor_visible);
    let app = app.no_loop();
    assert!(app.config.no_loop);
    assert_eq!(app.wh(), (64, 64));
}
