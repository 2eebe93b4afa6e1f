//! The stand-alone pop-up window: its label and the payload of a lookup
//! shown in it. Lookups are presented in the main window today (see
//! `windows`); the pop-up stays for a capture layer that wants one.
use vstd::prelude::*;

verus! {

/// Label of the pop-up window.
pub const POPUP_LABEL: &'static str = "popup";

/// Label of the settings window.
pub const SETTINGS_LABEL: &'static str = "settings";

/// A selection to look up in the pop-up.
#[derive(Clone, Debug)]
pub struct LookupPayload {
    pub text: String,
    /// The sentence the selection came from, when the capture layer has it.
    pub context: Option<String>,
}

} // verus!
