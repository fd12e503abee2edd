use stargazer::config::{RasterConfig, ESCAPE_THRESHOLD, MAX_ITERATIONS};

#[test]
fn standard_config_matches_display() {
    let c: RasterConfig = RasterConfig::standard();
    assert_eq!(c.width, 1500);
    assert_eq!(c.height, 1000);
    assert_eq!(c.factor, 4);
    assert_eq!(c.export_factor, 2);
}

#[test]
fn preview_dimensions_of_standard_config() {
    let c: RasterConfig = RasterConfig::standard();
    assert_eq!(c.preview_width(), 375);
    assert_eq!(c.preview_height(), 250);
}

#[test]
fn export_dimensions_of_standard_config() {
    let c: RasterConfig = RasterConfig::standard();
    assert_eq!(c.export_width(), 3000);
    assert_eq!(c.export_height(), 2000);
}

#[test]
fn preview_dimensions_round_down() {
    let c: RasterConfig = RasterConfig { width: 7, height: 5, factor: 2, export_factor: 1 };
    assert_eq!(c.preview_width(), 3);
    assert_eq!(c.preview_height(), 2);
}

#[test]
fn iteration_bound_and_escape_threshold() {
    assert_eq!(MAX_ITERATIONS, 1000);
    assert_eq!(ESCAPE_THRESHOLD, 32);
}
