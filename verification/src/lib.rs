//! Overlay dialog widgets: a confirmation dialog, a status dialog, and a
//! status dialog that runs a callback when it is closed.
//!
//! Each widget is split in two. This crate holds the verified core: the
//! enumerated style axes, the total mappings from an axis value to its CSS
//! class string, a pure render model that says exactly what is on screen for
//! a given visibility flag, and the effect of each button click on the
//! host-owned state. A thin shell around the crate binds that core to a
//! reactive front-end framework.

pub mod enums;
pub mod classes;
pub mod interaction;
pub mod confirm_modal;
pub mod status_modal;
pub mod status_modal_fn;
