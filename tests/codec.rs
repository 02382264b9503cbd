use ui_theme::theme::{hex_to_rgb, to_hex, ThemeError, RGB};

#[test]
fn round_trip_in_range() {
    let samples = [
        RGB(0, 0, 0),
        RGB(255, 255, 255),
        RGB(13, 183, 182),
        RGB(5, 16, 15),
        RGB(171, 1, 254),
    ];
    for rgb in samples.iter() {
        assert_eq!(hex_to_rgb(to_hex(rgb)), Ok(*rgb));
    }
}

#[test]
fn round_trip_clamps_out_of_range() {
    assert_eq!(hex_to_rgb(to_hex(&RGB(-1, 256, 1000))), Ok(RGB(0, 255, 255)));
}

#[test]
fn encode_clamps_channels() {
    assert_eq!(to_hex(&RGB(300, -10, 255)), "#ff00ff");
}

#[test]
fn encode_pads_small_channels() {
    assert_eq!(to_hex(&RGB(5, 0, 15)), "#05000f");
    assert_eq!(to_hex(&RGB(171, 16, 9)), "#ab1009");
    assert_eq!(to_hex(&RGB(13, 183, 182)).len(), 7);
}

#[test]
fn decode_known_value() {
    assert_eq!(hex_to_rgb(String::from("#0db7b6")), Ok(RGB(13, 183, 182)));
}

#[test]
fn decode_without_hash() {
    assert_eq!(hex_to_rgb(String::from("ea2845")), Ok(RGB(234, 40, 69)));
}

#[test]
fn decode_upper_case() {
    assert_eq!(hex_to_rgb(String::from("#DDE3ED")), Ok(RGB(221, 227, 237)));
}

#[test]
fn decode_rejects_malformed() {
    assert_eq!(hex_to_rgb(String::from("not-a-color")), Err(ThemeError::InvalidFormat));
    assert_eq!(hex_to_rgb(String::from("#abc")), Err(ThemeError::InvalidFormat));
}

#[test]
fn decode_rejects_other_shapes() {
    assert_eq!(hex_to_rgb(String::new()), Err(ThemeError::InvalidFormat));
    assert_eq!(hex_to_rgb(String::from("#")), Err(ThemeError::InvalidFormat));
    assert_eq!(hex_to_rgb(String::from("##abcdef")), Err(ThemeError::InvalidFormat));
    assert_eq!(hex_to_rgb(String::from("#abcdeg")), Err(ThemeError::InvalidFormat));
    assert_eq!(hex_to_rgb(String::from("#abcdef0")), Err(ThemeError::InvalidFormat));
    assert_eq!(hex_to_rgb(String::from("#ab cdef")), Err(ThemeError::InvalidFormat));
    assert_eq!(hex_to_rgb(String::from("#ab\u{0663}def")), Err(ThemeError::InvalidFormat));
}
