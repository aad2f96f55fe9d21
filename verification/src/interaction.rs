//! What a button click does to state the host owns. A click handler never
//! touches the host's flags or callback directly; it reports its effect as a
//! value, and the shell around the crate carries the effect out. That keeps
//! the decision — which clicks hide the dialog, which run the callback, and
//! how often — inside the verified core.

use vstd::prelude::*;

verus! {

/// The effect of one click: whether the visibility flag is cleared, and how
/// many times the caller's callback runs.
#[derive(Clone, Copy, Debug, PartialEq, Eq, Structural)]
pub struct ClickEffects {
    /// The handler writes `false` into the host-owned visibility flag.
    pub hide_modal: bool,
    /// How many times the handler runs the caller-supplied callback.
    pub callback_runs: u32,
}

/// The visibility flag after an effect is applied: cleared when the effect
/// hides the dialog, untouched otherwise.
pub open spec fn spec_apply_visibility(effects: ClickEffects, visible: bool) -> bool {
    if effects.hide_modal {
        false
    } else {
        visible
    }
}

/// Write an effect into the host-owned visibility flag.
pub fn apply_visibility(effects: ClickEffects, visible: &mut bool)
    ensures
        *final(visible) == spec_apply_visibility(effects, *old(visible)),
{
    if effects.hide_modal {
        *visible = false;
    }
}

} // verus!
