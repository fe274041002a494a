//! The `greet` command: a fixed greeting template with the caller's
//! name spliced in.

use vstd::prelude::*;

verus! {

/// The greeting owed to a caller named `name`: the fixed template with
/// the name in the middle.
pub open spec fn greeting_of(name: Seq<char>) -> Seq<char> {
    "Hello, "@ + name + "! You've been greeted from Rust!"@
}

/// Returns the greeting for `name`. Total and free of side effects:
/// the result is a function of `name` alone.
pub fn greet(name: &str) -> (r: String)
    ensures
        r@ == greeting_of(name@),
{
    let mut r = String::from_str("Hello, ");
    r.append(name);
    r.append("! You've been greeted from Rust!");
    r
}

} // verus!
