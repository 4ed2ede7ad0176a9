use excaliosa::color::{has_fill, has_stroke, is_transparent, parse_color, parse_color_result};
use excaliosa::svg::{background_fill, rgb_hex};

#[test]
fn parse_color_six_digits() {
    assert_eq!(parse_color("#ff0000"), (255, 0, 0, 255));
    assert_eq!(parse_color("00ff00"), (0, 255, 0, 255));
    assert_eq!(parse_color("#1E1E1E"), (30, 30, 30, 255));
}

#[test]
fn parse_color_eight_digits() {
    assert_eq!(parse_color("#11223344"), (0x11, 0x22, 0x33, 0x44));
    assert_eq!(parse_color("aabbccdd"), (0xaa, 0xbb, 0xcc, 0xdd));
}

#[test]
fn parse_color_transparent_and_empty() {
    assert_eq!(parse_color("transparent"), (0, 0, 0, 0));
    assert_eq!(parse_color("TransParent"), (0, 0, 0, 0));
    assert_eq!(parse_color(""), (0, 0, 0, 0));
}

#[test]
fn parse_color_trims_whitespace() {
    assert_eq!(parse_color("  #dbeafe\n"), (0xdb, 0xea, 0xfe, 255));
    assert_eq!(parse_color("\u{3000}#010203\t"), (1, 2, 3, 255));
}

#[test]
fn parse_color_invalid_is_black() {
    assert_eq!(parse_color("#12345"), (0, 0, 0, 255));
    assert_eq!(parse_color("#gg0000"), (0, 0, 0, 255));
    assert_eq!(parse_color("red"), (0, 0, 0, 255));
    assert_eq!(parse_color("#1234567"), (0, 0, 0, 255));
}

#[test]
fn parse_color_non_ascii_does_not_panic() {
    // six bytes, but the second pair splits a two-byte character
    assert_eq!(parse_color("#1é234"), (0, 0, 0, 255));
    assert_eq!(parse_color_result("#1é234"), Err("Invalid hex digit in R component".to_string()));
}

#[test]
fn parse_color_sign_is_not_a_digit() {
    assert_eq!(parse_color("#+f+f+f"), (0, 0, 0, 255));
    assert_eq!(parse_color("+1+2+3"), (0, 0, 0, 255));
    assert_eq!(parse_color("aé123"), (0, 0, 0, 255));
    assert_eq!(parse_color("#fff"), (0, 0, 0, 255));
    assert_eq!(parse_color_result("+1+2+3"), Err("Invalid hex digit in R component".to_string()));
    assert_eq!(parse_color_result("#01+203"), Err("Invalid hex digit in G component".to_string()));
}

#[test]
fn parse_color_result_ok() {
    assert_eq!(parse_color_result("#ff8000"), Ok((255, 128, 0, 255)));
    assert_eq!(parse_color_result("#ff800080"), Ok((255, 128, 0, 128)));
    assert_eq!(parse_color_result("TRANSPARENT"), Ok((0, 0, 0, 0)));
}

#[test]
fn parse_color_result_component_errors() {
    assert_eq!(parse_color_result("#zz0000"), Err("Invalid hex digit in R component".to_string()));
    assert_eq!(parse_color_result("#00zz00"), Err("Invalid hex digit in G component".to_string()));
    assert_eq!(parse_color_result("#0000zz"), Err("Invalid hex digit in B component".to_string()));
    assert_eq!(parse_color_result("#000000zz"), Err("Invalid hex digit in A component".to_string()));
}

#[test]
fn parse_color_result_length_errors() {
    assert_eq!(
        parse_color_result("#12345"),
        Err("Expected 6 or 8 hex digits (RRGGBB or RRGGBBAA), got 5".to_string())
    );
    assert_eq!(
        parse_color_result(""),
        Err("Expected 6 or 8 hex digits (RRGGBB or RRGGBBAA), got 0".to_string())
    );
    assert_eq!(
        parse_color_result("#123456789012"),
        Err("Expected 6 or 8 hex digits (RRGGBB or RRGGBBAA), got 12".to_string())
    );
}

#[test]
fn transparency_predicates() {
    assert!(is_transparent("transparent"));
    assert!(is_transparent("TRANSPARENT"));
    assert!(is_transparent(""));
    assert!(!is_transparent("#000000"));
    assert!(has_stroke("#000000", true));
    assert!(!has_stroke("#000000", false));
    assert!(!has_stroke("transparent", true));
    assert!(!has_stroke("", true));
    assert!(has_fill("#dbeafe"));
    assert!(!has_fill("Transparent"));
    assert!(!has_fill(""));
}

#[test]
fn rgb_hex_lowercase() {
    assert_eq!(rgb_hex(255, 0, 171), "#ff00ab");
    assert_eq!(rgb_hex(1, 2, 3), "#010203");
}

#[test]
fn hex_round_trip() {
    for &(r, g, b) in &[(0u8, 0u8, 0u8), (255, 255, 255), (18, 52, 86), (171, 205, 239)] {
        assert_eq!(parse_color(&rgb_hex(r, g, b)), (r, g, b, 255));
    }
}

#[test]
fn background_fill_rules() {
    assert_eq!(background_fill(None), None);
    assert_eq!(background_fill(Some((10, 20, 30, 0))), None);
    assert_eq!(background_fill(Some((10, 20, 30, 255))), Some("#0a141e".to_string()));
}
