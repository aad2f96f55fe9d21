//! The status dialog: a single-button (Close) overlay bound to a host-owned
//! visibility flag. Its box carries a status-colored background, its header
//! and description carry independently chosen text colors, and the Close
//! button carries its own status family. Closing only clears the flag; no
//! callback is involved.

use vstd::prelude::*;

use crate::classes::spec_button_class;
use crate::classes::button_class;
use crate::classes::spec_frame_class;
use crate::classes::frame_class;
use crate::enums::Colors;
use crate::enums::ComponentStatus;
use crate::enums::Position;
use crate::interaction::ClickEffects;
use crate::interaction::spec_apply_visibility;

verus! {

/// The background class of the dialog box per status family; an absent
/// status falls back to the neutral background.
pub open spec fn spec_status_background_class(status: Option<ComponentStatus>) -> Seq<char> {
    match status {
        Some(ComponentStatus::Info) => "bg-info"@,
        Some(ComponentStatus::Success) => "bg-success"@,
        Some(ComponentStatus::Neutral) => "bg-neutral"@,
        Some(ComponentStatus::Warning) => "bg-warning"@,
        Some(ComponentStatus::Error) => "bg-error"@,
        None => "bg-neutral"@,
    }
}

/// Map the dialog's status family to its background class.
pub fn status_background_class(status: Option<ComponentStatus>) -> (r: String)
    ensures
        r@ == spec_status_background_class(status),
{
    match status {
        Some(ComponentStatus::Info) => "bg-info".to_owned(),
        Some(ComponentStatus::Success) => "bg-success".to_owned(),
        Some(ComponentStatus::Neutral) => "bg-neutral".to_owned(),
        Some(ComponentStatus::Warning) => "bg-warning".to_owned(),
        Some(ComponentStatus::Error) => "bg-error".to_owned(),
        None => "bg-neutral".to_owned(),
    }
}

/// The header text class per status family; an absent choice falls back to
/// black text.
pub open spec fn spec_header_text_class(color: Option<ComponentStatus>) -> Seq<char> {
    match color {
        Some(ComponentStatus::Info) => "text-info"@,
        Some(ComponentStatus::Success) => "text-success"@,
        Some(ComponentStatus::Neutral) => "text-neutral"@,
        Some(ComponentStatus::Warning) => "text-warning"@,
        Some(ComponentStatus::Error) => "text-error"@,
        None => "text-black"@,
    }
}

/// Map the header's status family to its text class.
pub fn header_text_class(color: Option<ComponentStatus>) -> (r: String)
    ensures
        r@ == spec_header_text_class(color),
{
    match color {
        Some(ComponentStatus::Info) => "text-info".to_owned(),
        Some(ComponentStatus::Success) => "text-success".to_owned(),
        Some(ComponentStatus::Neutral) => "text-neutral".to_owned(),
        Some(ComponentStatus::Warning) => "text-warning".to_owned(),
        Some(ComponentStatus::Error) => "text-error".to_owned(),
        None => "text-black".to_owned(),
    }
}

/// The description text class per plain color; only white, black and gray
/// are mapped, and any other or absent choice falls back to black text.
pub open spec fn spec_description_color_class(color: Option<Colors>) -> Seq<char> {
    match color {
        Some(Colors::White) => "text-white"@,
        Some(Colors::Black) => "text-black"@,
        Some(Colors::Gray) => "text-gray"@,
        _ => "text-black"@,
    }
}

/// Map the description's plain color to its text class.
pub fn description_color_class(color: Option<Colors>) -> (r: String)
    ensures
        r@ == spec_description_color_class(color),
{
    match color {
        Some(Colors::White) => "text-white".to_owned(),
        Some(Colors::Black) => "text-black".to_owned(),
        Some(Colors::Gray) => "text-gray".to_owned(),
        _ => "text-black".to_owned(),
    }
}

/// The render-time parameters of the status dialog, as the host supplies
/// them: the texts and one optional choice per visual axis.
pub struct StatusModalProps {
    pub title: String,
    pub description: String,
    pub position: Option<Position>,
    pub status: Option<ComponentStatus>,
    pub button_status: Option<ComponentStatus>,
    pub header_text_color: Option<ComponentStatus>,
    pub desc_text_color: Option<Colors>,
    pub custom_position_class: Option<String>,
}

/// The overlay of the status dialog as rendered: the composed class string
/// of each element, and the two texts.
pub struct StatusModalOverlay {
    pub frame_class: String,
    pub box_class: String,
    pub header_class: String,
    pub description_class: String,
    pub button_class: String,
    pub title: String,
    pub description: String,
}

/// The mathematical shape of a rendered status overlay.
#[verifier::ext_equal]
pub ghost struct StatusModalOverlayView {
    pub frame_class: Seq<char>,
    pub box_class: Seq<char>,
    pub header_class: Seq<char>,
    pub description_class: Seq<char>,
    pub button_class: Seq<char>,
    pub title: Seq<char>,
    pub description: Seq<char>,
}

impl View for StatusModalOverlay {
    type V = StatusModalOverlayView;

    open spec fn view(&self) -> StatusModalOverlayView {
        StatusModalOverlayView {
            frame_class: self.frame_class@,
            box_class: self.box_class@,
            header_class: self.header_class@,
            description_class: self.description_class@,
            button_class: self.button_class@,
            title: self.title@,
            description: self.description@,
        }
    }
}

/// The overlay shown for the given parameters: each element's fixed classes
/// followed by the class its axis resolves to, and the texts passed through.
pub open spec fn spec_status_overlay(props: StatusModalProps) -> StatusModalOverlayView {
    StatusModalOverlayView {
        frame_class: spec_frame_class(props.position, props.custom_position_class),
        box_class: "flex flex-col gap-4 m-2 modal-box "@ + spec_status_background_class(
            props.status,
        ),
        header_class: "font-bold text-2xl "@ + spec_header_text_class(props.header_text_color),
        description_class: "py-4 text-lg "@ + spec_description_color_class(props.desc_text_color),
        button_class: spec_button_class(props.button_status),
        title: props.title@,
        description: props.description@,
    }
}

/// The rendered tree: nothing while the visibility flag is clear, exactly
/// one overlay while it is set.
pub open spec fn spec_render_status_modal(visible: bool, props: StatusModalProps) -> Option<
    StatusModalOverlayView,
> {
    if visible {
        Some(spec_status_overlay(props))
    } else {
        None
    }
}

/// Render the status dialog: `None` while hidden, otherwise the one overlay
/// that `spec_status_overlay` describes.
pub fn render_status_modal(visible: bool, props: &StatusModalProps) -> (r: Option<
    StatusModalOverlay,
>)
    ensures
        r is Some <==> visible,
        r matches Some(ov) ==> ov@ == spec_status_overlay(*props),
{
    if !visible {
        return None;
    }
    let background = status_background_class(props.status);
    let header = header_text_class(props.header_text_color);
    let desc = description_color_class(props.desc_text_color);
    let overlay = StatusModalOverlay {
        frame_class: frame_class(props.position, &props.custom_position_class),
        box_class: "flex flex-col gap-4 m-2 modal-box ".to_owned().concat(background.as_str()),
        header_class: "font-bold text-2xl ".to_owned().concat(header.as_str()),
        description_class: "py-4 text-lg ".to_owned().concat(desc.as_str()),
        button_class: button_class(props.button_status),
        title: props.title.clone(),
        description: props.description.clone(),
    };
    proof {
        assert(overlay@ =~= spec_status_overlay(*props));
    }
    Some(overlay)
}

/// The effect of a close click: the visibility flag is cleared, and no
/// callback is involved in this dialog.
pub open spec fn spec_status_modal_close_effects() -> ClickEffects {
    ClickEffects { hide_modal: true, callback_runs: 0 }
}

/// Decide what a close click does.
pub fn status_modal_close() -> (e: ClickEffects)
    ensures
        e == spec_status_modal_close_effects(),
{
    ClickEffects { hide_modal: true, callback_runs: 0 }
}

/// Law: the dialog renders nothing while hidden — re-rendering hidden stays
/// empty — renders exactly one overlay while shown, and after a close click
/// the re-render is empty again.
pub proof fn lemma_close_round_trip(props: StatusModalProps)
    ensures
        spec_render_status_modal(false, props) is None,
        spec_render_status_modal(true, props) is Some,
        spec_render_status_modal(
            spec_apply_visibility(spec_status_modal_close_effects(), true),
            props,
        ) is None,
{
}

} // verus!
