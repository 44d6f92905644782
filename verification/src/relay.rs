//! The pure pieces of the chat relay in this repository. The relay itself
//! is a stub: it greets a client and does not yet forward anything.

use vstd::prelude::*;
use vstd::string::StringExecFns;
use crate::display::dec_chars_of;
use crate::display::u64_to_decimal;

verus! {

/// The greeting a newly connected chat client is sent.
pub open spec fn welcome_chars(id: nat) -> Seq<char> {
    "Welcome to the chat server #"@ + dec_chars_of(id) + "\n"@
}

/// Builds the greeting for client `id`.
pub fn welcome_message(id: u64) -> (s: String)
    ensures
        s@ == welcome_chars(id as nat),
{
    let mut s = "Welcome to the chat server #".to_owned();
    let d = u64_to_decimal(id);
    s.append(d.as_str());
    s.append("\n");
    proof {
        assert(s@ =~= welcome_chars(id as nat));
    }
    s
}

/// Relaying a message to every connected client is a stub in this
/// repository: deliberately a no-op until the relay grows a client roster.
pub fn broadcast_message() {
}

} // verus!
