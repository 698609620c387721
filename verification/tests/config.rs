use animated_cursor::config::{include_tty_content, Config, DEFAULT_LAYER, DEFAULT_OPACITY};

#[test]
fn defaults_form_a_valid_configuration() {
    let config = Config::default();
    assert!(!config.enabled);
    assert_eq!(config.path, "cursor_shaders/default.glsl");
    assert_eq!(config.opacity, 750);
    assert_eq!(config.opacity, DEFAULT_OPACITY);
    assert_eq!(config.layer, -1);
    assert_eq!(config.layer, DEFAULT_LAYER);
    assert!(!config.upload_tty_as_pixels);
}

#[test]
fn upload_flag_is_read_live() {
    let mut config = Config::default();
    assert!(!include_tty_content(&config));
    config.upload_tty_as_pixels = true;
    assert!(include_tty_content(&config));
}
