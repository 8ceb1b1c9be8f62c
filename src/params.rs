use vstd::prelude::*;
use crate::color::Rgba;

verus! {

/// Which edges of the source the bevel is drawn on.
#[derive(Clone, Copy, Debug, PartialEq, Eq, Structural)]
pub enum BevelMode {
    Outer,
    Inner,
    Full,
}

/// The filter's parameters, as the SWF format stores them.
///
/// `distance` and `angle` are 16.16 fixed-point numbers and `strength` an
/// 8.8 fixed-point number, each held as its raw bits. The blur parameters are
/// forwarded to the blur pass and are not read here.
#[derive(Clone, Copy, Debug, PartialEq, Eq, Structural)]
pub struct BevelParams {
    pub distance: i32,
    pub angle: i32,
    pub strength: i16,
    pub highlight_color: Rgba,
    pub shadow_color: Rgba,
    pub mode: BevelMode,
    pub knockout: bool,
}

/// The mode that a filter's flags select: the on-top flag makes a full bevel,
/// else the inner flag an inner one, else it is an outer one.
pub open spec fn mode_of_flags(on_top: bool, inner: bool) -> BevelMode {
    if on_top {
        BevelMode::Full
    } else if inner {
        BevelMode::Inner
    } else {
        BevelMode::Outer
    }
}

impl BevelMode {
    /// Reads the mode from a filter's on-top and inner flags.
    pub fn from_flags(on_top: bool, inner: bool) -> (r: BevelMode)
        ensures
            r == mode_of_flags(on_top, inner),
    {
        if on_top {
            BevelMode::Full
        } else if inner {
            BevelMode::Inner
        } else {
            BevelMode::Outer
        }
    }
}

} // verus!
