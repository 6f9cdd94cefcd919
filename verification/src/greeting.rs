//! The greeting shown to a named user.

use vstd::prelude::*;
use vstd::string::*;
use crate::text::{lemma_middle_occurs, occurs_at, occurs_in};

verus! {

/// The greeting for `name`: a fixed opening, the name as given, a fixed close.
pub open spec fn greeting_text(name: Seq<char>) -> Seq<char> {
    "Hello, "@ + name + "! You've been greeted from Rust!"@
}

/// Greets `name`.
///
/// The name is taken as it is (empty, with spaces, in any script) and stands
/// in the greeting unchanged, right after the seven characters of the
/// opening.
pub fn greet(name: &str) -> (greeting: String)
    ensures
        greeting@ == greeting_text(name@),
        occurs_at(greeting@, name@, 7),
        occurs_in(greeting@, name@),
{
    let mut greeting = String::from_str("Hello, ");
    greeting.append(name);
    greeting.append("! You've been greeted from Rust!");
    proof {
        reveal_strlit("Hello, ");
        lemma_middle_occurs("Hello, "@, name@, "! You've been greeted from Rust!"@);
    }
    greeting
}

} // verus!
