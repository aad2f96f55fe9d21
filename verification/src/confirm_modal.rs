//! The confirmation dialog: a two-button (Cancel/Confirm) overlay bound to a
//! host-owned visibility flag and a host-owned pending flag. While pending,
//! the Confirm button gives way to a loading indicator and Cancel is marked
//! disabled — yet a cancel click always escapes the dialog. A confirm click
//! runs the caller's callback exactly once and leaves both flags alone; any
//! follow-up transition is the callback's business.

use vstd::prelude::*;

use crate::classes::spec_frame_class;
use crate::classes::frame_class;
use crate::enums::Position;
use crate::interaction::ClickEffects;
use crate::interaction::spec_apply_visibility;

verus! {

/// The render-time parameters of the confirmation dialog, as the host
/// supplies them: the texts, an optional placement, and an optional raw
/// placement override.
pub struct ConfirmModalProps {
    pub title: String,
    pub description: String,
    pub position: Option<Position>,
    pub custom_position_class: Option<String>,
}

/// Which control stands in the Confirm slot: the clickable Confirm button,
/// or the loading indicator shown while the confirm action is in flight.
#[derive(Clone, Copy, Debug, PartialEq, Eq, Structural)]
pub enum ConfirmControl {
    Confirm,
    Loading,
}

/// The overlay of the confirmation dialog as rendered: the frame class that
/// places the box, the two texts, whether Cancel is disabled, and which
/// control stands in the Confirm slot.
pub struct ConfirmModalOverlay {
    pub frame_class: String,
    pub title: String,
    pub description: String,
    pub cancel_disabled: bool,
    pub control: ConfirmControl,
}

/// The mathematical shape of a rendered confirmation overlay.
#[verifier::ext_equal]
pub ghost struct ConfirmModalOverlayView {
    pub frame_class: Seq<char>,
    pub title: Seq<char>,
    pub description: Seq<char>,
    pub cancel_disabled: bool,
    pub control: ConfirmControl,
}

impl View for ConfirmModalOverlay {
    type V = ConfirmModalOverlayView;

    open spec fn view(&self) -> ConfirmModalOverlayView {
        ConfirmModalOverlayView {
            frame_class: self.frame_class@,
            title: self.title@,
            description: self.description@,
            cancel_disabled: self.cancel_disabled,
            control: self.control,
        }
    }
}

/// The overlay shown for the given parameters and pending flag: the frame
/// holds the resolved placement, the texts pass through, and the pending
/// flag alone decides the Cancel/Confirm treatment.
pub open spec fn spec_confirm_overlay(
    props: ConfirmModalProps,
    pending: bool,
) -> ConfirmModalOverlayView {
    ConfirmModalOverlayView {
        frame_class: spec_frame_class(props.position, props.custom_position_class),
        title: props.title@,
        description: props.description@,
        cancel_disabled: pending,
        control: if pending {
            ConfirmControl::Loading
        } else {
            ConfirmControl::Confirm
        },
    }
}

/// The rendered tree: nothing while the visibility flag is clear, exactly
/// one overlay while it is set.
pub open spec fn spec_render_confirm_modal(
    visible: bool,
    pending: bool,
    props: ConfirmModalProps,
) -> Option<ConfirmModalOverlayView> {
    if visible {
        Some(spec_confirm_overlay(props, pending))
    } else {
        None
    }
}

/// Render the confirmation dialog: `None` while hidden, otherwise the one
/// overlay that `spec_confirm_overlay` describes.
pub fn render_confirm_modal(visible: bool, pending: bool, props: &ConfirmModalProps) -> (r: Option<
    ConfirmModalOverlay,
>)
    ensures
        r is Some <==> visible,
        r matches Some(ov) ==> ov@ == spec_confirm_overlay(*props, pending),
{
    if !visible {
        return None;
    }
    let overlay = ConfirmModalOverlay {
        frame_class: frame_class(props.position, &props.custom_position_class),
        title: props.title.clone(),
        description: props.description.clone(),
        cancel_disabled: pending,
        control: if pending {
            ConfirmControl::Loading
        } else {
            ConfirmControl::Confirm
        },
    };
    proof {
        assert(overlay@ =~= spec_confirm_overlay(*props, pending));
    }
    Some(overlay)
}

/// A click on one of the dialog's two buttons.
#[derive(Clone, Copy, Debug, PartialEq, Eq, Structural)]
pub enum ConfirmModalEvent {
    CancelClick,
    ConfirmClick,
}

/// The effect of a click: Cancel clears the visibility flag unconditionally
/// and never runs the callback; Confirm leaves the flag alone and runs the
/// callback exactly once — unless the action is already pending, in which
/// case the Confirm slot holds no handler and nothing happens.
pub open spec fn spec_confirm_effects(pending: bool, event: ConfirmModalEvent) -> ClickEffects {
    match event {
        ConfirmModalEvent::CancelClick => ClickEffects { hide_modal: true, callback_runs: 0 },
        ConfirmModalEvent::ConfirmClick => ClickEffects {
            hide_modal: false,
            callback_runs: if pending {
                0u32
            } else {
                1u32
            },
        },
    }
}

/// Decide what a click does, given the pending flag at click time.
pub fn confirm_modal_click(pending: bool, event: ConfirmModalEvent) -> (e: ClickEffects)
    ensures
        e == spec_confirm_effects(pending, event),
{
    match event {
        ConfirmModalEvent::CancelClick => ClickEffects { hide_modal: true, callback_runs: 0 },
        ConfirmModalEvent::ConfirmClick => ClickEffects {
            hide_modal: false,
            callback_runs: if pending {
                0u32
            } else {
                1u32
            },
        },
    }
}

/// Law: a cancel click escapes the dialog whatever the pending state — the
/// visibility flag is clear afterwards, and the confirm callback never runs.
pub proof fn lemma_cancel_always_escapes(pending: bool, visible: bool)
    ensures
        spec_apply_visibility(spec_confirm_effects(pending, ConfirmModalEvent::CancelClick), visible)
            == false,
        spec_confirm_effects(pending, ConfirmModalEvent::CancelClick).callback_runs == 0,
{
}

/// Law: a confirm click never changes visibility; it runs the callback
/// exactly once while idle and not at all while pending.
pub proof fn lemma_confirm_runs_callback_once_when_idle(pending: bool, visible: bool)
    ensures
        spec_apply_visibility(
            spec_confirm_effects(pending, ConfirmModalEvent::ConfirmClick),
            visible,
        ) == visible,
        spec_confirm_effects(pending, ConfirmModalEvent::ConfirmClick).callback_runs == (
        if pending {
            0u32
        } else {
            1u32
        }),
{
}

/// Law: the pending flag alone decides the Confirm slot — while pending the
/// loading indicator stands there and Cancel is disabled; while idle the
/// Confirm button stands there and Cancel is enabled.
pub proof fn lemma_pending_shows_loading(props: ConfirmModalProps)
    ensures
        spec_confirm_overlay(props, true).control is Loading,
        spec_confirm_overlay(props, true).cancel_disabled,
        spec_confirm_overlay(props, false).control is Confirm,
        !spec_confirm_overlay(props, false).cancel_disabled,
{
}

/// Law: the dialog renders nothing while hidden — re-rendering hidden stays
/// empty — renders exactly one overlay while shown, and after a cancel click
/// the re-render is empty again.
pub proof fn lemma_cancel_round_trip(props: ConfirmModalProps, pending: bool)
    ensures
        spec_render_confirm_modal(false, pending, props) is None,
        spec_render_confirm_modal(true, pending, props) is Some,
        spec_render_confirm_modal(
            spec_apply_visibility(
                spec_confirm_effects(pending, ConfirmModalEvent::CancelClick),
                true,
            ),
            pending,
            props,
        ) is None,
{
}

} // verus!
