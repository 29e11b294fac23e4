use penguin_overlay::screen::parse_screen_dimensions;
use penguin_overlay::units::{coord_add, COORD_LIMIT};

#[test]
fn reads_the_probe_line() {
    let line = b"  dimensions:    1920x1080 pixels (508x285 millimeters)\n";
    assert_eq!(parse_screen_dimensions(line), Some((1920, 1080)));
}

#[test]
fn second_token_only() {
    assert_eq!(parse_screen_dimensions(b"dimensions: 800x600"), Some((800, 600)));
    assert_eq!(parse_screen_dimensions(b"ignored\t1x2\nrest 3x4"), Some((1, 2)));
    assert_eq!(parse_screen_dimensions(b"1920x1080"), None);
    assert_eq!(parse_screen_dimensions(b"only"), None);
    assert_eq!(parse_screen_dimensions(b""), None);
    assert_eq!(parse_screen_dimensions(b"   \t \n"), None);
}

#[test]
fn the_token_must_be_two_numerals_joined_by_one_x() {
    assert_eq!(parse_screen_dimensions(b"a 10x20"), Some((10, 20)));
    assert_eq!(parse_screen_dimensions(b"a +10x+20"), Some((10, 20)));
    assert_eq!(parse_screen_dimensions(b"a 10x"), None);
    assert_eq!(parse_screen_dimensions(b"a x20"), None);
    assert_eq!(parse_screen_dimensions(b"a 10"), None);
    assert_eq!(parse_screen_dimensions(b"a 10x20x30"), None);
    assert_eq!(parse_screen_dimensions(b"a 1_0x20"), None);
    assert_eq!(parse_screen_dimensions(b"a -10x20"), None);
    assert_eq!(parse_screen_dimensions(b"a 10.5x20"), None);
}

#[test]
fn numerals_must_fit_a_u32() {
    assert_eq!(parse_screen_dimensions(b"a 4294967295x1"), Some((4294967295, 1)));
    assert_eq!(parse_screen_dimensions(b"a 4294967296x1"), None);
    assert_eq!(parse_screen_dimensions(b"a 1x99999999999999999999"), None);
    assert_eq!(parse_screen_dimensions(b"a 0x0"), Some((0, 0)));
    assert_eq!(parse_screen_dimensions(b"a 007x08"), Some((7, 8)));
}

#[test]
fn coordinates_clamp_at_the_limit() {
    assert_eq!(coord_add(0, 100), 100);
    assert_eq!(coord_add(COORD_LIMIT, 100), COORD_LIMIT);
    assert_eq!(coord_add(-COORD_LIMIT, -100), -COORD_LIMIT);
    assert_eq!(coord_add(COORD_LIMIT - 40, 100), COORD_LIMIT);
}
