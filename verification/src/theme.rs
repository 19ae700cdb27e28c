//! Semantic color roles for the compact native popup.
//!
//! Keeping the palette outside paint code lets another theme replace colors
//! without changing geometry or interaction behavior. Colors are Windows
//! `COLORREF` values: red in the low byte, then green, then blue.

use vstd::prelude::*;

verus! {

/// The `COLORREF` value of a color.
pub open spec fn colorref(red: u8, green: u8, blue: u8) -> int {
    red + green * 256 + blue * 65536
}

/// Packs a color as a `COLORREF`.
pub fn rgb(red: u8, green: u8, blue: u8) -> (c: u32)
    ensures
        c == colorref(red, green, blue),
{
    red as u32 + (green as u32) * 256 + (blue as u32) * 65536
}

/// The colors of each semantic role.
#[derive(Clone, Copy, Debug, PartialEq, Eq, Structural)]
pub struct Theme {
    pub surface: u32,
    pub hover: u32,
    pub pressed: u32,
    pub rule: u32,
    pub text: u32,
    pub secondary_text: u32,
    pub accent: u32,
    /// Low-emphasis accent surface used for active, non-destructive modes.
    pub accent_soft: u32,
    /// Quiet track behind live signal meters.
    pub meter_track: u32,
}

impl Theme {
    /// The dark palette.
    pub fn dark() -> (t: Self)
        ensures
            t.surface == colorref(30, 32, 36),
            t.hover == colorref(45, 48, 54),
            t.pressed == colorref(54, 58, 65),
            t.rule == colorref(63, 67, 74),
            t.text == colorref(247, 248, 250),
            t.secondary_text == colorref(189, 194, 203),
            t.accent == colorref(96, 156, 255),
            t.accent_soft == colorref(32, 41, 53),
            t.meter_track == colorref(46, 50, 57),
    {
        Theme {
            surface: rgb(30, 32, 36),
            hover: rgb(45, 48, 54),
            pressed: rgb(54, 58, 65),
            rule: rgb(63, 67, 74),
            text: rgb(247, 248, 250),
            secondary_text: rgb(189, 194, 203),
            accent: rgb(96, 156, 255),
            accent_soft: rgb(32, 41, 53),
            meter_track: rgb(46, 50, 57),
        }
    }
}

} // verus!
