//! Small talk with the presentation layer.

use vstd::prelude::*;

use crate::text::join3;

verus! {

/// The greeting for `name`.
pub open spec fn greeting(name: Seq<char>) -> Seq<char> {
    "Hello, "@ + name + "! You've been greeted from Rust!"@
}

/// Greets `name`.
pub fn greet(name: &str) -> (r: String)
    ensures
        r@ == greeting(name@),
{
    join3("Hello, ", name, "! You've been greeted from Rust!")
}

} // verus!
