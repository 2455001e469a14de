//! The one command that the user interface can invoke: a greeting.

use vstd::prelude::*;

verus! {

/// The text of the greeting for a name: a fixed opening, the name as it was
/// given, and a fixed close.
pub open spec fn greeting_text(name: Seq<char>) -> Seq<char> {
    "Hello, "@ + name + "! You've been greeted from Rust!"@
}

/// Greets by name.
pub fn greet(name: &str) -> (reply: String)
    ensures
        reply@ == greeting_text(name@),
{
    let mut reply = "Hello, ".to_owned();
    reply.append(name);
    reply.append("! You've been greeted from Rust!");
    reply
}

} // verus!
