use vstd::prelude::*;

verus! {

/// A percent-based RGB color.
///
/// Channel values range over 0-100, not 0-255: percentages are the unit the
/// lighting subsystem consumes.
#[derive(Debug, Clone, Copy, PartialEq, Eq, Hash, Structural)]
pub struct ColorPercent {
    /// Red, valued from 0-100.
    pub r: u8,
    /// Green, valued from 0-100.
    pub g: u8,
    /// Blue, valued from 0-100.
    pub b: u8,
}

impl ColorPercent {
    /// Every channel stays within the percent range.
    pub open spec fn wf(self) -> bool {
        self.r <= 100 && self.g <= 100 && self.b <= 100
    }

    /// Creates a new color from raw percentage values, NOT RGB values.
    ///
    /// Succeeds exactly when every channel is at most 100, and then keeps the
    /// channel values unchanged.
    pub fn new_percent(r: u8, g: u8, b: u8) -> (res: Option<Self>)
        ensures
            res is Some <==> r <= 100 && g <= 100 && b <= 100,
            res matches Some(c) ==> c == (ColorPercent { r, g, b }) && c.wf(),
    {
        if r > 100 || g > 100 || b > 100 {
            return None;
        }

        Some(Self { r, g, b })
    }

    /// Creates a new color from RGB values, NOT percentage values.
    ///
    /// Each 0-255 channel is scaled to a percentage by truncating integer
    /// division, never by rounding.
    pub fn new_rgb(r: u8, g: u8, b: u8) -> (res: Self)
        ensures
            res.r == r * 100 / 255,
            res.g == g * 100 / 255,
            res.b == b * 100 / 255,
            res.wf(),
    {
        proof {
            lemma_percent_scale_bound(r);
            lemma_percent_scale_bound(g);
            lemma_percent_scale_bound(b);
        }
        Self {
            r: ((r as u16) * 100 / 255) as u8,
            g: ((g as u16) * 100 / 255) as u8,
            b: ((b as u16) * 100 / 255) as u8,
        }
    }
}

/// Scaling an 8-bit channel down by `* 100 / 255` never leaves the percent range.
proof fn lemma_percent_scale_bound(c: u8)
    ensures
        c * 100 / 255 <= 100,
{
    assert(c * 100 / 255 <= 100int) by (nonlinear_arith)
        requires
            c <= 255,
    ;
}

} // verus!
