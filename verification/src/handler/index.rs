//! Greeting texts.

use vstd::prelude::*;

verus! {

/// The greeting at `/world`.
pub fn index() -> (text: String)
    ensures
        text@ == "Hello, world!"@,
{
    String::from_str("Hello, world!")
}

/// The greeting at `/world2`.
pub fn index2() -> (text: String)
    ensures
        text@ == "Hello, world2!"@,
{
    String::from_str("Hello, world2!")
}

} // verus!
