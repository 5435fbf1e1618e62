use spherical_rgb::encoding::{alpha_8888, argb_hex, rgb_hex};

#[test]
fn red_packs_and_renders_ff0000() {
    let word = alpha_8888([255, 0, 0, 255]);
    assert_eq!(word, 0xFFFF_0000);
    assert_eq!(rgb_hex(word), "FF0000");
    assert_eq!(argb_hex(word), "FFFF0000");
}

#[test]
fn packing_order() {
    assert_eq!(alpha_8888([0x12, 0x34, 0x56, 0x78]), 0x7812_3456);
    assert_eq!(alpha_8888([0, 0, 0, 0]), 0);
    assert_eq!(alpha_8888([255, 255, 255, 255]), u32::MAX);
}

#[test]
fn hex_keeps_leading_zeros() {
    assert_eq!(rgb_hex(0x0000_000A), "00000A");
    assert_eq!(argb_hex(0x0102_0304), "01020304");
    assert_eq!(argb_hex(0), "00000000");
}

#[test]
fn rgb_hex_drops_alpha_byte() {
    assert_eq!(rgb_hex(0xAB12_CDEF), "12CDEF");
    assert_eq!(argb_hex(0xAB12_CDEF), "AB12CDEF");
}
