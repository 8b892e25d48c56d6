//! The greeting command: the one simple native operation the UI can
//! invoke, a pure string-formatting echo.

use vstd::prelude::*;
use vstd::string::StringExecFns;

verus! {

/// The greeting for a name: a fixed prefix, the name, a fixed suffix.
pub open spec fn greeting_of(name: Seq<char>) -> Seq<char> {
    "Hello, "@ + name + "! You've been greeted from Rust!"@
}

/// Format the greeting for `name`.
pub fn greet(name: &str) -> (greeting: String)
    ensures
        greeting@ == greeting_of(name@),
{
    let mut greeting = String::from_str("Hello, ");
    greeting.append(name);
    greeting.append("! You've been greeted from Rust!");
    greeting
}

} // verus!
