use musics::config::{Config, ConfigView};

#[test]
fn default_config_has_no_library_directory() {
    let config = Config::default();
    assert_eq!(config.library_directory, "");
}

#[test]
fn config_window_opens_and_closes() {
    let mut view = ConfigView::new();
    assert!(!view.is_window_open());
    view.open_window();
    assert!(view.is_window_open());
    view.set_window_open(false);
    assert!(!view.is_window_open());
}
