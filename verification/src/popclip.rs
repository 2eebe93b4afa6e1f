//! The PopClip extension that sends selections to the local endpoint.
use vstd::prelude::*;

use crate::text::{decimal, owned, push_decimal, push_range, push_str};

verus! {

/// Directory name of the generated extension package.
pub const EXTENSION_DIR_NAME: &'static str = "Glossa.popclipext";

/// Where PopClip may be installed; the Setapp build lives elsewhere.
pub const POPCLIP_PATHS: [&'static str; 2] = [
    "/Applications/PopClip.app",
    "/Applications/Setapp/PopClip.app",
];

/// The result of installing the extension.
#[derive(Clone, Debug)]
pub struct InstallOutcome {
    /// Path of the generated `.popclipext` directory.
    pub path: String,
    /// Whether it was handed to PopClip; false when PopClip was not found.
    pub opened: bool,
}

pub open spec fn config_head() -> Seq<char> {
    "name: Glossa\nidentifier: com.github.glossa\nicon: symbol:character.book.closed\ninterpreter: bash\nshell script: curl -s -X POST http://127.0.0.1:"@
}

pub open spec fn config_tail() -> Seq<char> {
    "/lookup --data-urlencode \"q=$POPCLIP_TEXT\" -o /dev/null\n"@
}

/// The extension's `Config.yaml` for a server on `port`. The fixed
/// `identifier` lets a reinstall replace the extension instead of adding a
/// second icon.
pub open spec fn config_yaml_spec(port: u16) -> Seq<char> {
    config_head() + decimal(port as nat) + config_tail()
}

pub fn config_yaml(port: u16) -> (r: String)
    ensures
        r@ == config_yaml_spec(port),
{
    let mut r = owned(
        "name: Glossa\nidentifier: com.github.glossa\nicon: symbol:character.book.closed\ninterpreter: bash\nshell script: curl -s -X POST http://127.0.0.1:",
    );
    let mut digits: Vec<char> = Vec::new();
    push_decimal(&mut digits, port as u64);
    push_range(&mut r, &digits, 0, digits.len());
    assert(digits@.subrange(0, digits@.len() as int) =~= digits@);
    push_str(&mut r, "/lookup --data-urlencode \"q=$POPCLIP_TEXT\" -o /dev/null\n");
    r
}

} // verus!
