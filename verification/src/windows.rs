//! The payload of a lookup handed to the main window.
use vstd::prelude::*;

verus! {

/// Label of the main window.
pub const MAIN_LABEL: &'static str = "main";

/// Label of the settings window.
pub const SETTINGS_LABEL: &'static str = "settings";

/// A selection to look up.
#[derive(Clone, Debug)]
pub struct LookupPayload {
    pub text: String,
    /// The sentence the selection came from, when the capture layer has it.
    pub context: Option<String>,
}

pub struct PayloadView {
    pub text: Seq<char>,
    pub context: Option<Seq<char>>,
}

impl View for LookupPayload {
    type V = PayloadView;

    open spec fn view(&self) -> PayloadView {
        PayloadView {
            text: self.text@,
            context: match self.context {
                Some(c) => Some(c@),
                None => None,
            },
        }
    }
}

} // verus!
