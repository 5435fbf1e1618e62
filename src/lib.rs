//! Colour models of the spherical RGB library: the model tag that every colour
//! value carries, the interpolation and axis helpers that the conversions and
//! gradients are built on, and the integer and hexadecimal encodings of a
//! colour's channels.

pub mod encoding;
pub mod transformations;

use vstd::prelude::*;

verus! {

/// The representation a colour's four components are expressed in.
///
/// The fourth component is alpha for every model except the two keyed ones,
/// `RGBW` and `CMYK`, where it holds the keytone (white or black ink).
#[derive(Debug, Clone, Copy, PartialEq, Eq, Structural)]
pub enum ColorType {
    RGBA,
    CMYA,
    RGBW,
    CMYK,
    SphericalHCLA,
    SphericalHWBA,
    HSLA,
    CubicHSVA,
    CubicHWBA,
    YUVA,
}

impl ColorType {
    /// The keyed models, whose fourth component is ink rather than alpha.
    pub open spec fn spec_is_keyed(self) -> bool {
        self == ColorType::RGBW || self == ColorType::CMYK
    }

    /// The models whose first component is a cyclic hue.
    pub open spec fn spec_is_hue_based(self) -> bool {
        self == ColorType::SphericalHCLA || self == ColorType::SphericalHWBA
            || self == ColorType::HSLA || self == ColorType::CubicHSVA
            || self == ColorType::CubicHWBA
    }

    /// The hue models whose second and third components are white and black.
    pub open spec fn spec_is_white_black(self) -> bool {
        self == ColorType::SphericalHWBA || self == ColorType::CubicHWBA
    }

    /// Whether the model has no separate alpha channel, so that setting the
    /// alpha of a colour in it leaves the colour unchanged.
    pub fn is_keyed(&self) -> (r: bool)
        ensures
            r == self.spec_is_keyed(),
    {
        match self {
            ColorType::RGBW | ColorType::CMYK => true,
            _ => false,
        }
    }

    /// Whether gradients in this model interpolate hue along the colour wheel
    /// rather than component by component.
    pub fn is_hue_based(&self) -> (r: bool)
        ensures
            r == self.spec_is_hue_based(),
    {
        match self {
            ColorType::SphericalHCLA | ColorType::SphericalHWBA | ColorType::HSLA
            | ColorType::CubicHSVA | ColorType::CubicHWBA => true,
            _ => false,
        }
    }

    /// Whether a colour in this model is achromatic when its white and black
    /// components are equal (rather than when its chroma is zero).
    pub fn is_white_black(&self) -> (r: bool)
        ensures
            r == self.spec_is_white_black(),
    {
        match self {
            ColorType::SphericalHWBA | ColorType::CubicHWBA => true,
            _ => false,
        }
    }
}

} // verus!
