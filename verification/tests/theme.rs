use warpstash::theme::{hex_to_color, Rgba8};

#[test]
fn six_digits_are_opaque() {
    assert_eq!(hex_to_color("#0D0B1A"), Rgba8 { r: 0x0D, g: 0x0B, b: 0x1A, a: 0xFF });
    assert_eq!(hex_to_color("00e5cc"), Rgba8 { r: 0x00, g: 0xE5, b: 0xCC, a: 0xFF });
}

#[test]
fn eight_digits_carry_alpha() {
    assert_eq!(hex_to_color("#00E5CC22"), Rgba8 { r: 0x00, g: 0xE5, b: 0xCC, a: 0x22 });
}

#[test]
fn wrong_length_is_magenta() {
    let magenta = Rgba8 { r: 0xFF, g: 0x00, b: 0xFF, a: 0xFF };
    assert_eq!(hex_to_color("#FFF"), magenta);
    assert_eq!(hex_to_color(""), magenta);
    assert_eq!(hex_to_color("#1234567"), magenta);
}

#[test]
fn leading_hashes_and_bad_digits() {
    let magenta = Rgba8 { r: 0xFF, g: 0x00, b: 0xFF, a: 0xFF };
    assert_eq!(hex_to_color("##112233"), Rgba8 { r: 0x11, g: 0x22, b: 0x33, a: 0xFF });
    assert_eq!(hex_to_color("#GGGGGG"), magenta);
    assert_eq!(hex_to_color("+F0010"), magenta);
    assert_eq!(hex_to_color("#1234567G"), magenta);
    assert_eq!(hex_to_color("#aébbb"), magenta);
    assert_eq!(hex_to_color("é12345"), magenta);
}
