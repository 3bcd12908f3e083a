use pixel_formats::{
    r16_Unorm, r16g16b16_Unorm, r16g16b16a16_Unorm, r8_Srgb, r8_Unorm, r8g8b8_Srgb,
    r8g8b8_Unorm, r8g8b8a8_Srgb, r8g8b8a8_Unorm,
};

#[test]
fn three_channel_black_and_white() {
    assert_eq!(r8g8b8_Srgb::BLACK(), r8g8b8_Srgb { r: 0, g: 0, b: 0 });
    assert_eq!(r8g8b8_Srgb::WHITE(), r8g8b8_Srgb { r: 255, g: 255, b: 255 });
    assert_eq!(r8g8b8_Unorm::BLACK(), r8g8b8_Unorm { r: 0, g: 0, b: 0 });
    assert_eq!(r8g8b8_Unorm::WHITE(), r8g8b8_Unorm { r: 255, g: 255, b: 255 });
    assert_eq!(r16g16b16_Unorm::BLACK(), r16g16b16_Unorm { r: 0, g: 0, b: 0 });
    assert_eq!(r16g16b16_Unorm::WHITE(), r16g16b16_Unorm { r: 65535, g: 65535, b: 65535 });
}

#[test]
fn four_channel_named_colors() {
    assert_eq!(r8g8b8a8_Srgb::OPAQUE_BLACK(), r8g8b8a8_Srgb { r: 0, g: 0, b: 0, a: 255 });
    assert_eq!(r8g8b8a8_Srgb::OPAQUE_WHITE(), r8g8b8a8_Srgb { r: 255, g: 255, b: 255, a: 255 });
    assert_eq!(r8g8b8a8_Srgb::TRANSPARENT_BLACK(), r8g8b8a8_Srgb { r: 0, g: 0, b: 0, a: 0 });
    assert_eq!(r8g8b8a8_Unorm::OPAQUE_BLACK(), r8g8b8a8_Unorm { r: 0, g: 0, b: 0, a: 255 });
    assert_eq!(
        r8g8b8a8_Unorm::OPAQUE_WHITE(),
        r8g8b8a8_Unorm { r: 255, g: 255, b: 255, a: 255 }
    );
    assert_eq!(r8g8b8a8_Unorm::TRANSPARENT_BLACK(), r8g8b8a8_Unorm { r: 0, g: 0, b: 0, a: 0 });
    assert_eq!(
        r16g16b16a16_Unorm::OPAQUE_BLACK(),
        r16g16b16a16_Unorm { r: 0, g: 0, b: 0, a: 65535 }
    );
    assert_eq!(
        r16g16b16a16_Unorm::OPAQUE_WHITE(),
        r16g16b16a16_Unorm { r: 65535, g: 65535, b: 65535, a: 65535 }
    );
    assert_eq!(
        r16g16b16a16_Unorm::TRANSPARENT_BLACK(),
        r16g16b16a16_Unorm { r: 0, g: 0, b: 0, a: 0 }
    );
}

#[test]
fn defaults_are_all_zero() {
    assert_eq!(r8_Srgb::default(), r8_Srgb { r: 0 });
    assert_eq!(r8_Unorm::default(), r8_Unorm { r: 0 });
    assert_eq!(r16_Unorm::default(), r16_Unorm { r: 0 });
    assert_eq!(r8g8b8_Srgb::default(), r8g8b8_Srgb::BLACK());
    assert_eq!(r8g8b8_Unorm::default(), r8g8b8_Unorm::BLACK());
    assert_eq!(r16g16b16_Unorm::default(), r16g16b16_Unorm::BLACK());
    assert_eq!(r8g8b8a8_Srgb::default(), r8g8b8a8_Srgb::TRANSPARENT_BLACK());
    assert_eq!(r8g8b8a8_Unorm::default(), r8g8b8a8_Unorm::TRANSPARENT_BLACK());
    assert_eq!(r16g16b16a16_Unorm::default(), r16g16b16a16_Unorm::TRANSPARENT_BLACK());
}

#[test]
fn a_pixel_converted_to_its_own_format_is_unchanged() {
    let a = r8_Srgb { r: 200 };
    assert_eq!(r8_Srgb::from(a), a);
    let b = r8g8b8_Unorm { r: 1, g: 2, b: 3 };
    assert_eq!(r8g8b8_Unorm::from(b), b);
    let c = r16g16b16a16_Unorm { r: 1, g: 2, b: 3, a: 4 };
    assert_eq!(r16g16b16a16_Unorm::from(c), c);
    let d = r8g8b8a8_Srgb::OPAQUE_WHITE();
    assert_eq!(r8g8b8a8_Srgb::from(d), d);
}

#[test]
fn pixels_order_by_channel_in_field_order() {
    assert!(r8g8b8_Srgb { r: 0, g: 255, b: 255 } < r8g8b8_Srgb { r: 1, g: 0, b: 0 });
    assert!(r8g8b8_Unorm { r: 1, g: 0, b: 255 } < r8g8b8_Unorm { r: 1, g: 1, b: 0 });
    assert!(r8g8b8a8_Unorm { r: 1, g: 1, b: 1, a: 0 } < r8g8b8a8_Unorm { r: 1, g: 1, b: 1, a: 1 });
    assert!(r16_Unorm { r: 255 } < r16_Unorm { r: 256 });
}

#[test]
fn white_srgb8_is_what_the_transfer_function_gives_for_one() {
    let one = fast_srgb8::f32_to_srgb8(1.0);
    assert_eq!(r8g8b8_Srgb::WHITE(), r8g8b8_Srgb { r: one, g: one, b: one });
    assert_eq!(r8g8b8a8_Srgb::OPAQUE_WHITE(), r8g8b8a8_Srgb { r: one, g: one, b: one, a: 255 });
}

#[test]
fn black_srgb8_is_what_the_transfer_function_gives_for_zero() {
    let zero = fast_srgb8::f32_to_srgb8(0.0);
    assert_eq!(r8g8b8_Srgb::BLACK(), r8g8b8_Srgb { r: zero, g: zero, b: zero });
    assert_eq!(r8g8b8a8_Srgb::OPAQUE_BLACK(), r8g8b8a8_Srgb { r: zero, g: zero, b: zero, a: 255 });
    assert_eq!(fast_srgb8::srgb8_to_f32(r8g8b8_Srgb::BLACK().r), 0.0);
    assert_eq!(fast_srgb8::srgb8_to_f32(r8g8b8_Srgb::WHITE().r), 1.0);
}
