//! Mappings shared by the dialogs: placement as flexbox alignment classes,
//! the caller's raw override that always wins over the enumerated choice,
//! the button class per status family, and the fixed frame that wraps the
//! placement classes.

use vstd::prelude::*;

use crate::enums::Position;
use crate::enums::ComponentStatus;

verus! {

/// The flexbox alignment classes for each placement; an absent placement
/// falls back to the centered pair.
pub open spec fn spec_position_class(position: Option<Position>) -> Seq<char> {
    match position {
        Some(Position::TopLeft) => "items-start justify-start"@,
        Some(Position::TopCenter) => "items-start justify-center"@,
        Some(Position::TopRight) => "items-start justify-end"@,
        Some(Position::Center) => "items-center justify-center"@,
        Some(Position::BottomLeft) => "items-end justify-start"@,
        Some(Position::BottomCenter) => "items-end justify-center"@,
        Some(Position::BottomRight) => "items-end justify-end"@,
        None => "items-center justify-center"@,
    }
}

/// Map a placement to its flexbox alignment classes.
pub fn position_class(position: Option<Position>) -> (r: String)
    ensures
        r@ == spec_position_class(position),
{
    match position {
        Some(Position::TopLeft) => "items-start justify-start".to_owned(),
        Some(Position::TopCenter) => "items-start justify-center".to_owned(),
        Some(Position::TopRight) => "items-start justify-end".to_owned(),
        Some(Position::Center) => "items-center justify-center".to_owned(),
        Some(Position::BottomLeft) => "items-end justify-start".to_owned(),
        Some(Position::BottomCenter) => "items-end justify-center".to_owned(),
        Some(Position::BottomRight) => "items-end justify-end".to_owned(),
        None => "items-center justify-center".to_owned(),
    }
}

/// A caller-supplied raw class string takes precedence over the enumerated
/// placement; without one, the placement mapping decides.
pub open spec fn spec_position_or_custom(
    position: Option<Position>,
    custom: Option<String>,
) -> Seq<char> {
    match custom {
        Some(c) => c@,
        None => spec_position_class(position),
    }
}

/// Resolve the placement classes, letting a raw override win verbatim.
pub fn position_or_custom(position: Option<Position>, custom: &Option<String>) -> (r: String)
    ensures
        r@ == spec_position_or_custom(position, *custom),
{
    match custom {
        Some(c) => c.clone(),
        None => position_class(position),
    }
}

/// Law: a supplied override string is used verbatim as the placement class,
/// whatever enumerated placement is also supplied.
pub proof fn lemma_custom_class_wins(position: Option<Position>, custom: String)
    ensures
        spec_position_or_custom(position, Some(custom)) == custom@,
{
}

/// The class of the single action button per status family; an absent or
/// neutral status leaves the plain button.
pub open spec fn spec_button_class(status: Option<ComponentStatus>) -> Seq<char> {
    match status {
        Some(ComponentStatus::Info) => "btn btn-sm rounded btn-info"@,
        Some(ComponentStatus::Success) => "btn btn-sm rounded btn-success"@,
        Some(ComponentStatus::Neutral) => "btn btn-sm rounded"@,
        Some(ComponentStatus::Warning) => "btn btn-sm rounded btn-warning"@,
        Some(ComponentStatus::Error) => "btn btn-sm rounded btn-error"@,
        None => "btn btn-sm rounded"@,
    }
}

/// Map a button's status family to its class string.
pub fn button_class(status: Option<ComponentStatus>) -> (r: String)
    ensures
        r@ == spec_button_class(status),
{
    match status {
        Some(ComponentStatus::Info) => "btn btn-sm rounded btn-info".to_owned(),
        Some(ComponentStatus::Success) => "btn btn-sm rounded btn-success".to_owned(),
        Some(ComponentStatus::Neutral) => "btn btn-sm rounded".to_owned(),
        Some(ComponentStatus::Warning) => "btn btn-sm rounded btn-warning".to_owned(),
        Some(ComponentStatus::Error) => "btn btn-sm rounded btn-error".to_owned(),
        None => "btn btn-sm rounded".to_owned(),
    }
}

/// The frame around the dialog box: a fixed sticky full-height flex strip
/// followed by the resolved placement classes.
pub open spec fn spec_frame_class(
    position: Option<Position>,
    custom: Option<String>,
) -> Seq<char> {
    "sticky top-0 flex h-screen "@ + spec_position_or_custom(position, custom)
}

/// Build the frame class string around the resolved placement classes.
pub fn frame_class(position: Option<Position>, custom: &Option<String>) -> (r: String)
    ensures
        r@ == spec_frame_class(position, *custom),
{
    let placement = position_or_custom(position, custom);
    "sticky top-0 flex h-screen ".to_owned().concat(placement.as_str())
}

} // verus!
