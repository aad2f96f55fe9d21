//! The status dialog with a close callback: the same single-button overlay
//! as the status dialog, except that its placement is a single token class,
//! its box class is a complete token per status family with a neutral
//! default, one text-color axis drives both the header and the description
//! (the description as the status's "-content" counterpart), and a close
//! click runs the caller's callback exactly once besides clearing the
//! visibility flag.

use vstd::prelude::*;

use crate::classes::spec_button_class;
use crate::classes::button_class;
use crate::enums::ComponentStatus;
use crate::enums::Position;
use crate::interaction::ClickEffects;
use crate::interaction::spec_apply_visibility;

verus! {

/// The complete box class per status family; an absent status falls back to
/// the neutral box.
pub open spec fn spec_status_box_class(status: Option<ComponentStatus>) -> Seq<char> {
    match status {
        Some(ComponentStatus::Info) => "modal-box bg-info rounded-box"@,
        Some(ComponentStatus::Success) => "modal-box bg-success rounded-box"@,
        Some(ComponentStatus::Neutral) => "modal-box bg-neutral rounded-box"@,
        Some(ComponentStatus::Warning) => "modal-box bg-warning rounded-box"@,
        Some(ComponentStatus::Error) => "modal-box bg-error rounded-box"@,
        None => "modal-box bg-neutral rounded-box"@,
    }
}

/// Map the dialog's status family to its complete box class.
pub fn status_box_class(status: Option<ComponentStatus>) -> (r: String)
    ensures
        r@ == spec_status_box_class(status),
{
    match status {
        Some(ComponentStatus::Info) => "modal-box bg-info rounded-box".to_owned(),
        Some(ComponentStatus::Success) => "modal-box bg-success rounded-box".to_owned(),
        Some(ComponentStatus::Neutral) => "modal-box bg-neutral rounded-box".to_owned(),
        Some(ComponentStatus::Warning) => "modal-box bg-warning rounded-box".to_owned(),
        Some(ComponentStatus::Error) => "modal-box bg-error rounded-box".to_owned(),
        None => "modal-box bg-neutral rounded-box".to_owned(),
    }
}

/// The header text class per status family; an absent choice falls back to
/// black text.
pub open spec fn spec_header_color_class(color: Option<ComponentStatus>) -> Seq<char> {
    match color {
        Some(ComponentStatus::Info) => "text-info"@,
        Some(ComponentStatus::Success) => "text-success"@,
        Some(ComponentStatus::Neutral) => "text-neutral"@,
        Some(ComponentStatus::Warning) => "text-warning"@,
        Some(ComponentStatus::Error) => "text-error"@,
        None => "text-black"@,
    }
}

/// Map the text-color axis to the header's text class.
pub fn header_color_class(color: Option<ComponentStatus>) -> (r: String)
    ensures
        r@ == spec_header_color_class(color),
{
    match color {
        Some(ComponentStatus::Info) => "text-info".to_owned(),
        Some(ComponentStatus::Success) => "text-success".to_owned(),
        Some(ComponentStatus::Neutral) => "text-neutral".to_owned(),
        Some(ComponentStatus::Warning) => "text-warning".to_owned(),
        Some(ComponentStatus::Error) => "text-error".to_owned(),
        None => "text-black".to_owned(),
    }
}

/// The description text class derived from the same text-color axis as the
/// header: the "-content" counterpart of the chosen status family, with the
/// same black-text fallback.
pub open spec fn spec_content_color_class(color: Option<ComponentStatus>) -> Seq<char> {
    match color {
        Some(ComponentStatus::Info) => "text-info-content"@,
        Some(ComponentStatus::Success) => "text-success-content"@,
        Some(ComponentStatus::Neutral) => "text-neutral-content"@,
        Some(ComponentStatus::Warning) => "text-warning-content"@,
        Some(ComponentStatus::Error) => "text-error-content"@,
        None => "text-black"@,
    }
}

/// Map the text-color axis to the description's text class.
pub fn content_color_class(color: Option<ComponentStatus>) -> (r: String)
    ensures
        r@ == spec_content_color_class(color),
{
    match color {
        Some(ComponentStatus::Info) => "text-info-content".to_owned(),
        Some(ComponentStatus::Success) => "text-success-content".to_owned(),
        Some(ComponentStatus::Neutral) => "text-neutral-content".to_owned(),
        Some(ComponentStatus::Warning) => "text-warning-content".to_owned(),
        Some(ComponentStatus::Error) => "text-error-content".to_owned(),
        None => "text-black".to_owned(),
    }
}

/// The single placement token per position; an absent position falls back
/// to the top-middle token. The center column of the placement grid carries
/// the "middle" wording in these tokens.
pub open spec fn spec_position_token_class(position: Option<Position>) -> Seq<char> {
    match position {
        Some(Position::TopLeft) => "modal-top-left"@,
        Some(Position::TopCenter) => "modal-top-middle"@,
        Some(Position::TopRight) => "modal-top-right"@,
        Some(Position::Center) => "modal-middle"@,
        Some(Position::BottomLeft) => "modal-bottom-left"@,
        Some(Position::BottomCenter) => "modal-bottom-middle"@,
        Some(Position::BottomRight) => "modal-bottom-right"@,
        None => "modal-top-middle"@,
    }
}

/// Map a placement to its single token class.
pub fn position_token_class(position: Option<Position>) -> (r: String)
    ensures
        r@ == spec_position_token_class(position),
{
    match position {
        Some(Position::TopLeft) => "modal-top-left".to_owned(),
        Some(Position::TopCenter) => "modal-top-middle".to_owned(),
        Some(Position::TopRight) => "modal-top-right".to_owned(),
        Some(Position::Center) => "modal-middle".to_owned(),
        Some(Position::BottomLeft) => "modal-bottom-left".to_owned(),
        Some(Position::BottomCenter) => "modal-bottom-middle".to_owned(),
        Some(Position::BottomRight) => "modal-bottom-right".to_owned(),
        None => "modal-top-middle".to_owned(),
    }
}

/// The render-time parameters of the callback-bearing status dialog: the
/// texts and one optional choice per visual axis.
pub struct StatusModalFnProps {
    pub title: String,
    pub description: String,
    pub position: Option<Position>,
    pub status: Option<ComponentStatus>,
    pub button_status: Option<ComponentStatus>,
    pub text_color: Option<ComponentStatus>,
}

/// The overlay of the callback-bearing status dialog as rendered.
pub struct StatusModalFnOverlay {
    pub position_class: String,
    pub box_class: String,
    pub header_class: String,
    pub description_class: String,
    pub button_class: String,
    pub title: String,
    pub description: String,
}

/// The mathematical shape of a rendered overlay of this dialog.
#[verifier::ext_equal]
pub ghost struct StatusModalFnOverlayView {
    pub position_class: Seq<char>,
    pub box_class: Seq<char>,
    pub header_class: Seq<char>,
    pub description_class: Seq<char>,
    pub button_class: Seq<char>,
    pub title: Seq<char>,
    pub description: Seq<char>,
}

impl View for StatusModalFnOverlay {
    type V = StatusModalFnOverlayView;

    open spec fn view(&self) -> StatusModalFnOverlayView {
        StatusModalFnOverlayView {
            position_class: self.position_class@,
            box_class: self.box_class@,
            header_class: self.header_class@,
            description_class: self.description_class@,
            button_class: self.button_class@,
            title: self.title@,
            description: self.description@,
        }
    }
}

/// The overlay shown for the given parameters: placement and box as single
/// tokens, header and description driven by the one text-color axis, and
/// the texts passed through.
pub open spec fn spec_status_fn_overlay(props: StatusModalFnProps) -> StatusModalFnOverlayView {
    StatusModalFnOverlayView {
        position_class: spec_position_token_class(props.position),
        box_class: spec_status_box_class(props.status),
        header_class: "font-bold text-2xl "@ + spec_header_color_class(props.text_color),
        description_class: "py-4 "@ + spec_content_color_class(props.text_color),
        button_class: spec_button_class(props.button_status),
        title: props.title@,
        description: props.description@,
    }
}

/// The rendered tree: nothing while the visibility flag is clear, exactly
/// one overlay while it is set.
pub open spec fn spec_render_status_modal_fn(visible: bool, props: StatusModalFnProps) -> Option<
    StatusModalFnOverlayView,
> {
    if visible {
        Some(spec_status_fn_overlay(props))
    } else {
        None
    }
}

/// Render the callback-bearing status dialog: `None` while hidden,
/// otherwise the one overlay that `spec_status_fn_overlay` describes.
pub fn render_status_modal_fn(visible: bool, props: &StatusModalFnProps) -> (r: Option<
    StatusModalFnOverlay,
>)
    ensures
        r is Some <==> visible,
        r matches Some(ov) ==> ov@ == spec_status_fn_overlay(*props),
{
    if !visible {
        return None;
    }
    let header = header_color_class(props.text_color);
    let content = content_color_class(props.text_color);
    let overlay = StatusModalFnOverlay {
        position_class: position_token_class(props.position),
        box_class: status_box_class(props.status),
        header_class: "font-bold text-2xl ".to_owned().concat(header.as_str()),
        description_class: "py-4 ".to_owned().concat(content.as_str()),
        button_class: button_class(props.button_status),
        title: props.title.clone(),
        description: props.description.clone(),
    };
    proof {
        assert(overlay@ =~= spec_status_fn_overlay(*props));
    }
    Some(overlay)
}

/// The effect of a close click: the visibility flag is cleared and the
/// caller's callback runs exactly once, within the same click.
pub open spec fn spec_status_modal_fn_close_effects() -> ClickEffects {
    ClickEffects { hide_modal: true, callback_runs: 1 }
}

/// Decide what a close click does.
pub fn status_modal_fn_close() -> (e: ClickEffects)
    ensures
        e == spec_status_modal_fn_close_effects(),
{
    ClickEffects { hide_modal: true, callback_runs: 1 }
}

/// Law: a close click clears the visibility flag and runs the supplied
/// callback exactly once.
pub proof fn lemma_close_runs_callback_once(visible: bool)
    ensures
        spec_apply_visibility(spec_status_modal_fn_close_effects(), visible) == false,
        spec_status_modal_fn_close_effects().callback_runs == 1,
{
}

/// Law: the dialog renders nothing while hidden — re-rendering hidden stays
/// empty — renders exactly one overlay while shown, and after a close click
/// the re-render is empty again.
pub proof fn lemma_close_round_trip(props: StatusModalFnProps)
    ensures
        spec_render_status_modal_fn(false, props) is None,
        spec_render_status_modal_fn(true, props) is Some,
        spec_render_status_modal_fn(
            spec_apply_visibility(spec_status_modal_fn_close_effects(), true),
            props,
        ) is None,
{
}

} // verus!
