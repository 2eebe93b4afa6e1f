//! The local lookup endpoint's decision on an incoming selection.
use vstd::prelude::*;

use crate::text::{is_blank, is_blank_exec, trim, trimmed};
use crate::windows::{LookupPayload, PayloadView};

verus! {

/// Query or form parameters of `/lookup`.
#[derive(Clone, Debug)]
pub struct LookupParams {
    /// The selected text.
    pub q: String,
    /// The sentence around the selection, when the capture layer sends one.
    pub context: Option<String>,
}

/// The lookup a request asks for: the selection trimmed, and its context
/// unless blank; `None` (a bad request) when the selection is blank.
pub open spec fn lookup_spec(q: Seq<char>, context: Option<Seq<char>>) -> Option<PayloadView> {
    if trim(q).len() == 0 {
        None
    } else {
        Some(
            PayloadView {
                text: trim(q),
                context: match context {
                    Some(c) => if is_blank(c) {
                        None
                    } else {
                        Some(c)
                    },
                    None => None,
                },
            },
        )
    }
}

pub fn lookup_payload(params: LookupParams) -> (r: Option<LookupPayload>)
    ensures
        match r {
            Some(p) => lookup_spec(params.q@, match params.context {
                Some(c) => Some(c@),
                None => None,
            }) == Some(p@),
            None => lookup_spec(params.q@, match params.context {
                Some(c) => Some(c@),
                None => None,
            }) is None,
        },
{
    let text = trimmed(params.q.as_str());
    if text.as_str().is_empty() {
        return None;
    }
    let context = match params.context {
        Some(c) => if is_blank_exec(c.as_str()) {
            None
        } else {
            Some(c)
        },
        None => None,
    };
    Some(LookupPayload { text, context })
}

} // verus!
