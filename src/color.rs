use vstd::prelude::*;

verus! {

/// The largest value of an 8-bit channel.
pub const CHANNEL_MAX: u32 = 255;

/// The denominator shared by every channel of a premultiplied color: 255 * 255.
pub const PREMULTIPLIED_DENOMINATOR: u32 = 65025;

/// A straight (not premultiplied) color with four 8-bit channels.
#[derive(Clone, Copy, Debug, PartialEq, Eq, Structural)]
pub struct Rgba {
    pub r: u8,
    pub g: u8,
    pub b: u8,
    pub a: u8,
}

/// A premultiplied color, held exactly: each channel is the numerator of a
/// fraction over `PREMULTIPLIED_DENOMINATOR`.
///
/// For a straight color `c`, the red channel in `[0, 1]` is
/// `(c.r / 255) * (c.a / 255)`, so its numerator is `c.r * c.a`; alpha itself
/// is `c.a / 255`, so its numerator is `c.a * 255`.
#[derive(Clone, Copy, Debug, PartialEq, Eq, Structural)]
pub struct PremultipliedColor {
    pub r: u32,
    pub g: u32,
    pub b: u32,
    pub a: u32,
}

impl PremultipliedColor {
    /// Every channel lies in `[0, 1]`.
    pub open spec fn in_unit_range(self) -> bool {
        &&& self.r <= PREMULTIPLIED_DENOMINATOR
        &&& self.g <= PREMULTIPLIED_DENOMINATOR
        &&& self.b <= PREMULTIPLIED_DENOMINATOR
        &&& self.a <= PREMULTIPLIED_DENOMINATOR
    }

    pub open spec fn is_zero(self) -> bool {
        self.r == 0 && self.g == 0 && self.b == 0 && self.a == 0
    }
}

/// The premultiplied form of a straight color: color channels scaled by the
/// unit alpha, alpha itself normalised to `[0, 1]`.
pub open spec fn premultiplied_of(c: Rgba) -> PremultipliedColor {
    PremultipliedColor {
        r: (c.r * c.a) as u32,
        g: (c.g * c.a) as u32,
        b: (c.b * c.a) as u32,
        a: (c.a * CHANNEL_MAX) as u32,
    }
}

proof fn lemma_channel_product_bounded(x: u8, y: u8)
    ensures
        (x as u32) * (y as u32) <= PREMULTIPLIED_DENOMINATOR,
{
    assert((x as int) * (y as int) <= 255 * 255) by (nonlinear_arith)
        requires
            x <= 255,
            y <= 255,
    ;
}

/// Multiplies the color channels of `c` by its alpha, both taken in `[0, 1]`.
pub fn premultiply(c: Rgba) -> (r: PremultipliedColor)
    ensures
        r == premultiplied_of(c),
        r.in_unit_range(),
{
    proof {
        lemma_channel_product_bounded(c.r, c.a);
        lemma_channel_product_bounded(c.g, c.a);
        lemma_channel_product_bounded(c.b, c.a);
        lemma_channel_product_bounded(c.a, 255);
    }
    PremultipliedColor {
        r: (c.r as u32) * (c.a as u32),
        g: (c.g as u32) * (c.a as u32),
        b: (c.b as u32) * (c.a as u32),
        a: (c.a as u32) * CHANNEL_MAX,
    }
}

} // verus!
