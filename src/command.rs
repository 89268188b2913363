//! Echo of a spoken or typed command, prefixed with a fixed label.

use vstd::prelude::*;

verus! {

/// The label put in front of every echoed command.
pub const COMMAND_LABEL: &'static str = "Processed: ";

/// The echo of command text `t`: the label, then `t` unchanged.
pub open spec fn echoed(t: Seq<char>) -> Seq<char> {
    COMMAND_LABEL@ + t
}

/// Returns `"Processed: "` followed by `text`, every character kept in order.
pub fn process_command(text: &str) -> (r: String)
    ensures
        r@ == echoed(text@),
{
    let label = String::from_str(COMMAND_LABEL);
    label.concat(text)
}

} // verus!
