use sensi_alternada::scaling::to_absolute;

#[test]
fn to_absolute_maps_the_last_pixel_to_the_top_of_the_range() {
    assert_eq!(to_absolute(0, 0, 1920), 0);
    assert_eq!(to_absolute(1919, 0, 1920), 65535);
}

#[test]
fn to_absolute_follows_the_screen_origin() {
    assert_eq!(to_absolute(-1920, -1920, 1920), 0);
    assert_eq!(to_absolute(-1, -1920, 1920), 65535);
    // Halfway: 959 * 65535 / 1919, rounded toward zero.
    assert_eq!(to_absolute(959, 0, 1920), 32750);
}

#[test]
fn to_absolute_rounds_toward_zero_left_of_the_origin() {
    // -1 * 65535 / 1919 = -34.15…, which Rust's division takes to -34.
    assert_eq!(to_absolute(-1, 0, 1920), -34);
}

#[test]
fn to_absolute_on_a_one_pixel_screen_does_not_divide_by_zero() {
    assert_eq!(to_absolute(0, 0, 1), 0);
    assert_eq!(to_absolute(1, 0, 0), 65535);
}
