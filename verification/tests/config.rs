use sensi_alternada::config::{default_accent, default_background, panel_dpi, Settings};
use sensi_alternada::fire_button::FireButton;

fn parsed_old_file() -> Settings {
    // What a file written before the Y base existed parses to: base_dpi_y defaults to 0.
    Settings {
        base_dpi: 1600,
        base_dpi_y: 0,
        shooting_dpi_x: 500,
        shooting_dpi_y: 250,
        split_axes: true,
        fire_button: FireButton::Right,
        enabled: true,
        accent: default_accent(),
        background: default_background(),
    }
}

#[test]
fn a_parsed_file_without_the_y_base_keeps_its_values() {
    let loaded = Settings::from_parsed(Some(parsed_old_file()));
    assert_eq!(loaded.base_dpi, 1600);
    assert_eq!(loaded.base_dpi_y, 1600, "o eixo Y novo herda a base existente");
    assert_eq!(loaded.shooting_dpi_y, 250);
}

#[test]
fn a_parsed_file_with_its_own_y_base_keeps_it() {
    let mut file = parsed_old_file();
    file.base_dpi_y = 1200;
    assert_eq!(Settings::from_parsed(Some(file)), file);
}

#[test]
fn an_unreadable_file_falls_back_to_defaults() {
    assert_eq!(Settings::from_parsed(None), Settings::default());
}

#[test]
fn defaults_are_the_documented_ones() {
    let d = Settings::default();
    assert_eq!((d.base_dpi, d.base_dpi_y, d.shooting_dpi_x, d.shooting_dpi_y), (800, 800, 400, 400));
    assert!(!d.split_axes && !d.enabled);
    assert_eq!(d.fire_button, FireButton::Left);
    assert_eq!(d.accent, [96, 205, 255]);
    assert_eq!(d.background, [22, 24, 28], "preto no preto");
}

#[test]
fn loading_twice_changes_nothing() {
    let once = Settings::from_parsed(Some(parsed_old_file()));
    assert_eq!(Settings::from_parsed(Some(once)), once);
}

#[test]
fn joined_axes_follow_x_and_split_ones_do_not() {
    let mut s = parsed_old_file();
    s.join_axes();
    assert_eq!((s.base_dpi_y, s.shooting_dpi_y), (0, 250), "eixos separados ficam");
    s.split_axes = false;
    s.join_axes();
    assert_eq!((s.base_dpi_y, s.shooting_dpi_y), (1600, 500));
}

#[test]
fn no_split_without_per_axis_dpi() {
    let mut s = parsed_old_file();
    s.restrict_split(true);
    assert!(s.split_axes);
    s.restrict_split(false);
    assert!(!s.split_axes);
}

#[test]
fn panel_dpi_is_held_to_the_accepted_range() {
    assert_eq!(panel_dpi(0), 50);
    assert_eq!(panel_dpi(800), 800);
    assert_eq!(panel_dpi(999_999), 32_000);
}
