//! The closed sets of symbolic style values that the dialogs accept: a
//! status family, a text color, and a placement on screen. Each axis has a
//! total mapping to a class string with a documented default, so an absent
//! value is never an error.

use vstd::prelude::*;

verus! {

/// The status family of a dialog, a button, or a piece of text.
#[derive(Clone, Copy, Debug, PartialEq, Eq, Structural)]
pub enum ComponentStatus {
    Info,
    Success,
    Neutral,
    Warning,
    Error,
}

/// A plain text color, independent of any status family.
#[derive(Clone, Copy, Debug, PartialEq, Eq, Structural)]
pub enum Colors {
    Black,
    White,
    Gray,
    Blue,
    Green,
    Yellow,
    Red,
}

/// Where on the screen a dialog is placed.
#[derive(Clone, Copy, Debug, PartialEq, Eq, Structural)]
pub enum Position {
    TopLeft,
    TopCenter,
    TopRight,
    Center,
    BottomLeft,
    BottomCenter,
    BottomRight,
}

} // verus!
