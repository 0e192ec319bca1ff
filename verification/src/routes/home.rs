//! The greeting route.

use vstd::prelude::*;
use crate::text::concat;

verus! {

/// The greeting for `name`.
pub open spec fn greeting(name: Seq<char>) -> Seq<char> {
    "Welcome "@ + name + " to your favorite Chat App"@
}

/// Greets a visitor by name.
pub fn greet(name: &str) -> (r: String)
    ensures
        r@ == greeting(name@),
{
    let s = concat("Welcome ", name);
    concat(s.as_str(), " to your favorite Chat App")
}

} // verus!
