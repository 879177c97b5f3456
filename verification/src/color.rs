//! The colour of an input's label: it tells a valid input from an invalid
//! one, on a light and on a dark background.

use vstd::prelude::*;

verus! {

/// A colour of four channels of eight bits each.
#[derive(Clone, Copy, Debug, PartialEq, Eq, Structural)]
pub struct Argb {
    pub alpha: u8,
    pub red: u8,
    pub green: u8,
    pub blue: u8,
}

/// The background of the light theme.
pub open spec fn light_background() -> Argb {
    Argb { alpha: 255, red: 250, green: 250, blue: 250 }
}

/// The background of the dark theme.
pub open spec fn dark_background() -> Argb {
    Argb { alpha: 255, red: 28, green: 28, blue: 28 }
}

/// The label colour for an input on `background`: a strong red where the
/// input is invalid; else a nearly opaque black on the light background,
/// white on the dark one, and black on any other.
pub open spec fn label_color(valid: bool, background: Argb) -> Argb {
    if !valid {
        Argb { alpha: 255, red: 200, green: 12, blue: 12 }
    } else if background == light_background() {
        Argb { alpha: 230, red: 0, green: 0, blue: 0 }
    } else if background == dark_background() {
        Argb { alpha: 255, red: 255, green: 255, blue: 255 }
    } else {
        Argb { alpha: 255, red: 0, green: 0, blue: 0 }
    }
}

/// Picks the colour of an input's label.
pub fn get_new_color(valid: bool, background: Argb) -> (color: Argb)
    ensures
        color == label_color(valid, background),
{
    if valid {
        if background == (Argb { alpha: 255, red: 250, green: 250, blue: 250 }) {
            Argb { alpha: 230, red: 0, green: 0, blue: 0 }
        } else if background == (Argb { alpha: 255, red: 28, green: 28, blue: 28 }) {
            Argb { alpha: 255, red: 255, green: 255, blue: 255 }
        } else {
            Argb { alpha: 255, red: 0, green: 0, blue: 0 }
        }
    } else {
        Argb { alpha: 255, red: 200, green: 12, blue: 12 }
    }
}

} // verus!
