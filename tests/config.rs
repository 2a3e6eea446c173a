use tactile_win::config::{AppearanceConfig, Config, GridConfig};

#[test]
fn test_default_config() {
    let config = Config::default();
    assert_eq!(config.grid.cols, 4);
    assert_eq!(config.grid.rows, 2);
    assert_eq!(config.grid.gap, 10);
}

#[test]
fn test_validate() {
    let mut config = Config::default();
    config.grid.cols = 100;
    config.grid.rows = 0;
    config.validate();
    assert_eq!(config.grid.cols, 8);
    assert_eq!(config.grid.rows, 1);
}

#[test]
fn default_appearance() {
    let a = AppearanceConfig::default();
    assert_eq!(a.tile_color, 0x00805030);
    assert_eq!(a.highlight_color, 0x0000A0FF);
    assert_eq!(a.background_color, 0x00302020);
    assert_eq!(a.text_color, 0x00FFFFFF);
    assert_eq!(a.alpha, 220);
    let g = GridConfig::default();
    assert_eq!((g.cols, g.rows, g.gap), (4, 2, 10));
}

#[test]
fn validate_clamps_gap_and_keeps_in_range_values() {
    let mut config = Config::default();
    config.grid.gap = -5;
    config.validate();
    assert_eq!(config.grid.gap, 0);
    config.grid.gap = 51;
    config.grid.rows = 9;
    config.validate();
    assert_eq!(config.grid.gap, 50);
    assert_eq!(config.grid.rows, 4);
    config.grid.cols = 6;
    config.grid.rows = 3;
    config.grid.gap = 25;
    config.appearance.alpha = 7;
    config.validate();
    assert_eq!((config.grid.cols, config.grid.rows, config.grid.gap), (6, 3, 25));
    assert_eq!(config.appearance.alpha, 7);
}
