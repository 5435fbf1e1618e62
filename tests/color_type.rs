use spherical_rgb::ColorType;

const ALL: [ColorType; 10] = [
    ColorType::RGBA,
    ColorType::CMYA,
    ColorType::RGBW,
    ColorType::CMYK,
    ColorType::SphericalHCLA,
    ColorType::SphericalHWBA,
    ColorType::HSLA,
    ColorType::CubicHSVA,
    ColorType::CubicHWBA,
    ColorType::YUVA,
];

#[test]
fn keyed_models() {
    let keyed: Vec<ColorType> = ALL.iter().copied().filter(|m| m.is_keyed()).collect();
    assert_eq!(keyed, vec![ColorType::RGBW, ColorType::CMYK]);
}

#[test]
fn hue_based_models() {
    let hue: Vec<ColorType> = ALL.iter().copied().filter(|m| m.is_hue_based()).collect();
    assert_eq!(
        hue,
        vec![
            ColorType::SphericalHCLA,
            ColorType::SphericalHWBA,
            ColorType::HSLA,
            ColorType::CubicHSVA,
            ColorType::CubicHWBA,
        ]
    );
}

#[test]
fn white_black_models() {
    let wb: Vec<ColorType> = ALL.iter().copied().filter(|m| m.is_white_black()).collect();
    assert_eq!(wb, vec![ColorType::SphericalHWBA, ColorType::CubicHWBA]);
}
