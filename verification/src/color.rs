use vstd::prelude::*;

verus! {

/// An RGBA color. Each channel holds the bit pattern of an IEEE 754
/// single-precision number in [0, 1]; the widget logic only ever copies
/// and compares channels, so the patterns stay plain integers here.
#[derive(Clone, Copy, Debug, PartialEq, Eq, Structural)]
pub struct ColorRGBA {
    pub r: u32,
    pub g: u32,
    pub b: u32,
    pub a: u32,
}

/// Bit pattern of 0.0f32.
pub const CHANNEL_0_00: u32 = 0x0000_0000;
/// Bit pattern of 0.01f32.
pub const CHANNEL_0_01: u32 = 0x3c23_d70a;
/// Bit pattern of 0.02f32.
pub const CHANNEL_0_02: u32 = 0x3ca3_d70a;
/// Bit pattern of 0.03f32.
pub const CHANNEL_0_03: u32 = 0x3cf5_c28f;
/// Bit pattern of 0.06f32.
pub const CHANNEL_0_06: u32 = 0x3d75_c28f;
/// Bit pattern of 0.40f32.
pub const CHANNEL_0_40: u32 = 0x3ecc_cccd;
/// Bit pattern of 0.50f32.
pub const CHANNEL_0_50: u32 = 0x3f00_0000;
/// Bit pattern of 0.60f32.
pub const CHANNEL_0_60: u32 = 0x3f19_999a;
/// Bit pattern of 1.0f32.
pub const CHANNEL_1_00: u32 = 0x3f80_0000;

impl ColorRGBA {
    pub fn new(r: u32, g: u32, b: u32, a: u32) -> (c: Self)
        ensures
            c == (ColorRGBA { r, g, b, a }),
    {
        ColorRGBA { r, g, b, a }
    }

    pub open spec fn black_spec() -> ColorRGBA {
        ColorRGBA { r: CHANNEL_0_00, g: CHANNEL_0_00, b: CHANNEL_0_00, a: CHANNEL_1_00 }
    }

    pub fn black() -> (c: Self)
        ensures
            c == Self::black_spec(),
    {
        ColorRGBA { r: CHANNEL_0_00, g: CHANNEL_0_00, b: CHANNEL_0_00, a: CHANNEL_1_00 }
    }

    pub open spec fn grey_darkest_spec() -> ColorRGBA {
        ColorRGBA { r: CHANNEL_0_01, g: CHANNEL_0_01, b: CHANNEL_0_01, a: CHANNEL_1_00 }
    }

    pub fn grey_darkest() -> (c: Self)
        ensures
            c == Self::grey_darkest_spec(),
    {
        ColorRGBA { r: CHANNEL_0_01, g: CHANNEL_0_01, b: CHANNEL_0_01, a: CHANNEL_1_00 }
    }

    pub open spec fn grey_darker_spec() -> ColorRGBA {
        ColorRGBA { r: CHANNEL_0_02, g: CHANNEL_0_02, b: CHANNEL_0_02, a: CHANNEL_1_00 }
    }

    pub fn grey_darker() -> (c: Self)
        ensures
            c == Self::grey_darker_spec(),
    {
        ColorRGBA { r: CHANNEL_0_02, g: CHANNEL_0_02, b: CHANNEL_0_02, a: CHANNEL_1_00 }
    }

    pub open spec fn grey_dark_spec() -> ColorRGBA {
        ColorRGBA { r: CHANNEL_0_03, g: CHANNEL_0_03, b: CHANNEL_0_03, a: CHANNEL_1_00 }
    }

    pub fn grey_dark() -> (c: Self)
        ensures
            c == Self::grey_dark_spec(),
    {
        ColorRGBA { r: CHANNEL_0_03, g: CHANNEL_0_03, b: CHANNEL_0_03, a: CHANNEL_1_00 }
    }

    pub open spec fn grey_medium_spec() -> ColorRGBA {
        ColorRGBA { r: CHANNEL_0_06, g: CHANNEL_0_06, b: CHANNEL_0_06, a: CHANNEL_1_00 }
    }

    pub fn grey_medium() -> (c: Self)
        ensures
            c == Self::grey_medium_spec(),
    {
        ColorRGBA { r: CHANNEL_0_06, g: CHANNEL_0_06, b: CHANNEL_0_06, a: CHANNEL_1_00 }
    }

    pub open spec fn grey_light_spec() -> ColorRGBA {
        ColorRGBA { r: CHANNEL_0_40, g: CHANNEL_0_40, b: CHANNEL_0_40, a: CHANNEL_1_00 }
    }

    pub fn grey_light() -> (c: Self)
        ensures
            c == Self::grey_light_spec(),
    {
        ColorRGBA { r: CHANNEL_0_40, g: CHANNEL_0_40, b: CHANNEL_0_40, a: CHANNEL_1_00 }
    }

    pub open spec fn grey_lighter_spec() -> ColorRGBA {
        ColorRGBA { r: CHANNEL_0_60, g: CHANNEL_0_60, b: CHANNEL_0_60, a: CHANNEL_1_00 }
    }

    pub fn grey_lighter() -> (c: Self)
        ensures
            c == Self::grey_lighter_spec(),
    {
        ColorRGBA { r: CHANNEL_0_60, g: CHANNEL_0_60, b: CHANNEL_0_60, a: CHANNEL_1_00 }
    }

    pub open spec fn white_spec() -> ColorRGBA {
        ColorRGBA { r: CHANNEL_1_00, g: CHANNEL_1_00, b: CHANNEL_1_00, a: CHANNEL_1_00 }
    }

    pub fn white() -> (c: Self)
        ensures
            c == Self::white_spec(),
    {
        ColorRGBA { r: CHANNEL_1_00, g: CHANNEL_1_00, b: CHANNEL_1_00, a: CHANNEL_1_00 }
    }

    pub open spec fn magenta_spec() -> ColorRGBA {
        ColorRGBA { r: CHANNEL_1_00, g: CHANNEL_0_00, b: CHANNEL_1_00, a: CHANNEL_1_00 }
    }

    pub fn magenta() -> (c: Self)
        ensures
            c == Self::magenta_spec(),
    {
        ColorRGBA { r: CHANNEL_1_00, g: CHANNEL_0_00, b: CHANNEL_1_00, a: CHANNEL_1_00 }
    }
}

impl Default for ColorRGBA {
    /// The placeholder color for anything left unstyled: opaque pink.
    fn default() -> (c: Self)
        ensures
            c == (ColorRGBA {
                r: CHANNEL_1_00,
                g: CHANNEL_0_00,
                b: CHANNEL_0_50,
                a: CHANNEL_1_00,
            }),
    {
        ColorRGBA { r: CHANNEL_1_00, g: CHANNEL_0_00, b: CHANNEL_0_50, a: CHANNEL_1_00 }
    }
}

} // verus!
