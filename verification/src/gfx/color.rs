//! RGB colour type and the CosmicOS palette.

use vstd::prelude::*;

verus! {

/// An opaque 24-bit RGB colour.
#[derive(Debug, Clone, Copy, PartialEq, Eq, Structural)]
pub struct Color {
    pub r: u8,
    pub g: u8,
    pub b: u8,
}

/// One channel of a linear interpolation: `(a * (255 - t) + b * t) / 255`.
pub open spec fn lerp_channel(a: u8, b: u8, t: u8) -> u8 {
    ((a * (255 - t) + b * t) / 255) as u8
}

/// The colour a fraction `t / 255` of the way from `a` to `b`.
pub open spec fn lerp_spec(a: Color, b: Color, t: u8) -> Color {
    Color { r: lerp_channel(a.r, b.r, t), g: lerp_channel(a.g, b.g, t), b: lerp_channel(a.b, b.b, t) }
}

/// The 32-bit framebuffer word for `c`, each channel shifted to its position.
pub open spec fn pack(c: Color, rs: u8, gs: u8, bs: u8) -> u32 {
    ((c.r as u32) << rs) | ((c.g as u32) << gs) | ((c.b as u32) << bs)
}

proof fn lemma_lerp_channel_bounds(a: u8, b: u8, t: u8)
    ensures
        0 <= a * (255 - t) + b * t <= 255 * 255,
        (a * (255 - t) + b * t) / 255 <= 255,
{
    assert(0 <= a * (255 - t) <= 255 * (255 - t)) by (nonlinear_arith)
        requires a <= 255, t <= 255;
    assert(0 <= b * t <= 255 * t) by (nonlinear_arith)
        requires b <= 255, t <= 255;
}

impl Color {
    /// Builds a colour from its three channels.
    #[verifier::allow_in_spec]
    pub fn rgb(r: u8, g: u8, b: u8) -> Color
        returns
            (Color { r, g, b }),
    {
        Color { r, g, b }
    }

    /// Packs the colour into a framebuffer word, placing each channel at the
    /// bit position given by the framebuffer's channel shifts.
    pub fn to_u32(self, rs: u8, gs: u8, bs: u8) -> (p: u32)
        requires
            rs < 32,
            gs < 32,
            bs < 32,
        ensures
            p == pack(self, rs, gs, bs),
    {
        ((self.r as u32) << rs) | ((self.g as u32) << gs) | ((self.b as u32) << bs)
    }

    /// Linear interpolation between `a` (at `t == 0`) and `b` (at `t == 255`),
    /// channel by channel, rounding down.
    pub fn lerp(a: Color, b: Color, t: u8) -> (c: Color)
        ensures
            c == lerp_spec(a, b, t),
            c.r == lerp_channel(a.r, b.r, t),
            c.g == lerp_channel(a.g, b.g, t),
            c.b == lerp_channel(a.b, b.b, t),
    {
        let t16 = t as u16;
        let inv = 255 - t16;
        proof {
            lemma_lerp_channel_bounds(a.r, b.r, t);
            lemma_lerp_channel_bounds(a.g, b.g, t);
            lemma_lerp_channel_bounds(a.b, b.b, t);
        }
        Color {
            r: ((a.r as u16 * inv + b.r as u16 * t16) / 255) as u8,
            g: ((a.g as u16 * inv + b.g as u16 * t16) / 255) as u8,
            b: ((a.b as u16 * inv + b.b as u16 * t16) / 255) as u8,
        }
    }
}

/// Interpolating with `t == 0` gives the first colour, with `t == 255` the
/// second, and interpolating a colour with itself gives that colour back.
pub proof fn lerp_endpoints(a: Color, b: Color, c: Color, t: u8)
    ensures
        lerp_channel(a.r, b.r, 0) == a.r && lerp_channel(a.g, b.g, 0) == a.g
            && lerp_channel(a.b, b.b, 0) == a.b,
        lerp_channel(a.r, b.r, 255) == b.r && lerp_channel(a.g, b.g, 255) == b.g
            && lerp_channel(a.b, b.b, 255) == b.b,
        lerp_channel(c.r, c.r, t) == c.r && lerp_channel(c.g, c.g, t) == c.g
            && lerp_channel(c.b, c.b, t) == c.b,
{
    assert(forall|x: u8, tt: u8| #![trigger lerp_channel(x, x, tt)]
        x * (255 - tt) + x * tt == x * 255) by (nonlinear_arith);
}

/// Each channel of an interpolation lies between the two end channels.
pub proof fn lerp_between(a: u8, b: u8, t: u8)
    ensures
        (a <= b ==> a <= lerp_channel(a, b, t) <= b),
        (b <= a ==> b <= lerp_channel(a, b, t) <= a),
{
    lemma_lerp_channel_bounds(a, b, t);
    let s = a * (255 - t) + b * t;
    if a <= b {
        assert(a * 255 <= s <= b * 255) by (nonlinear_arith)
            requires s == a * (255 - t) + b * t, a <= b, 0 <= t <= 255;
    } else {
        assert(b * 255 <= s <= a * 255) by (nonlinear_arith)
            requires s == a * (255 - t) + b * t, b <= a, 0 <= t <= 255;
    }
}

impl Color {
    /// Desktop and main screen background.
    #[verifier::allow_in_spec]
    pub fn cosmic_bg() -> Color returns (Color { r: 0xEB, g: 0xEB, b: 0xEB }) {
        Color { r: 0xEB, g: 0xEB, b: 0xEB }
    }

    /// Panel and window background.
    #[verifier::allow_in_spec]
    pub fn cosmic_surface() -> Color returns (Color { r: 0xFF, g: 0xFF, b: 0xFF }) {
        Color { r: 0xFF, g: 0xFF, b: 0xFF }
    }

    /// Menu bar background.
    #[verifier::allow_in_spec]
    pub fn cosmic_menubar() -> Color returns (Color { r: 0xFA, g: 0xFA, b: 0xFA }) {
        Color { r: 0xFA, g: 0xFA, b: 0xFA }
    }

    /// The CosmicOS red accent.
    #[verifier::allow_in_spec]
    pub fn cosmic_red() -> Color returns (Color { r: 0xC9, g: 0x40, b: 0x40 }) {
        Color { r: 0xC9, g: 0x40, b: 0x40 }
    }

    /// Lighter red, for hover and focus.
    #[verifier::allow_in_spec]
    pub fn cosmic_red_light() -> Color returns (Color { r: 0xE0, g: 0x60, b: 0x60 }) {
        Color { r: 0xE0, g: 0x60, b: 0x60 }
    }

    /// Main text colour.
    #[verifier::allow_in_spec]
    pub fn cosmic_text() -> Color returns (Color { r: 0x1A, g: 0x1A, b: 0x1A }) {
        Color { r: 0x1A, g: 0x1A, b: 0x1A }
    }

    /// Secondary text and placeholders.
    #[verifier::allow_in_spec]
    pub fn cosmic_text_sec() -> Color returns (Color { r: 0x88, g: 0x88, b: 0x88 }) {
        Color { r: 0x88, g: 0x88, b: 0x88 }
    }

    /// Borders and separators.
    #[verifier::allow_in_spec]
    pub fn cosmic_border() -> Color returns (Color { r: 0xDE, g: 0xDE, b: 0xDE }) {
        Color { r: 0xDE, g: 0xDE, b: 0xDE }
    }

    /// Input field background.
    #[verifier::allow_in_spec]
    pub fn cosmic_input_bg() -> Color returns (Color { r: 0xF4, g: 0xF4, b: 0xF4 }) {
        Color { r: 0xF4, g: 0xF4, b: 0xF4 }
    }

    /// Pure white.
    #[verifier::allow_in_spec]
    pub fn white() -> Color returns (Color { r: 0xFF, g: 0xFF, b: 0xFF }) {
        Color { r: 0xFF, g: 0xFF, b: 0xFF }
    }

    /// Pure black.
    #[verifier::allow_in_spec]
    pub fn black() -> Color returns (Color { r: 0x00, g: 0x00, b: 0x00 }) {
        Color { r: 0x00, g: 0x00, b: 0x00 }
    }

    /// Window close button.
    #[verifier::allow_in_spec]
    pub fn tl_red() -> Color returns (Color { r: 0xFF, g: 0x5F, b: 0x57 }) {
        Color { r: 0xFF, g: 0x5F, b: 0x57 }
    }

    /// Window minimise button.
    #[verifier::allow_in_spec]
    pub fn tl_yellow() -> Color returns (Color { r: 0xFF, g: 0xBD, b: 0x2E }) {
        Color { r: 0xFF, g: 0xBD, b: 0x2E }
    }

    /// Window maximise button.
    #[verifier::allow_in_spec]
    pub fn tl_green() -> Color returns (Color { r: 0x28, g: 0xC8, b: 0x41 }) {
        Color { r: 0x28, g: 0xC8, b: 0x41 }
    }
}

} // verus!
