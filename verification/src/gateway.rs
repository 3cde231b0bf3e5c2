//! The gateway-facing rules: which inbound messages deserve a reply, and the
//! fixed text posted when the bridge has none.
//!
//! The gateway client itself (framing, authentication, delivery) is an
//! external collaborator; only its two decisions live here.

use vstd::prelude::*;
use vstd::string::StrSliceExecFns;

verus! {

/// A message that starts with the two-character operator marker `>>` is a
/// command, never answered.
pub open spec fn is_command(content: Seq<char>) -> bool {
    content.len() >= 2 && content[0] == '>' && content[1] == '>'
}

/// An inbound message deserves a reply exactly when a human authored it, it
/// is non-empty, and it is not a command.
pub open spec fn spec_should_respond(content: Seq<char>, author_is_bot: bool) -> bool {
    !author_is_bot && content.len() > 0 && !is_command(content)
}

/// Decide whether the bridge is asked for this message at all.
pub fn should_respond(content: &str, author_is_bot: bool) -> (r: bool)
    ensures
        r == spec_should_respond(content@, author_is_bot),
{
    if author_is_bot {
        return false;
    }
    let n = content.unicode_len();
    if n == 0 {
        return false;
    }
    if n >= 2 && content.get_char(0) == '>' && content.get_char(1) == '>' {
        return false;
    }
    true
}

/// What the gateway posts back: the bridge's reply when there is one, a
/// fixed fallback line when there is none. Absence of a response is a normal
/// value here, never a fault.
pub fn fallback_reply(reply: Option<String>) -> (r: String)
    ensures
        match reply {
            Some(t) => r@ == t@,
            None => r@ == "<no response>"@,
        },
{
    match reply {
        Some(t) => t,
        None => "<no response>".to_owned(),
    }
}

} // verus!
