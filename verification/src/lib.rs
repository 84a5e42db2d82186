//! The decision-making core of a desktop shell that opens registered web
//! addresses as windows of their own: where each surface of a window lies,
//! what a navigation command tells the content surface to do, where a
//! session keeps its browsing profile, and in which order a window is built.
//!
//! Nothing here touches the screen, the disk or the process environment.
//! The embedding program performs each requested action and reports back
//! what happened.

pub mod address;
pub mod encoding;
pub mod failure;
pub mod layout;
pub mod navigation;
pub mod profile;
pub mod registry;
pub mod session;
pub mod session_proofs;
pub mod shortcut;
pub mod startup;
pub mod text;

use vstd::prelude::*;
use vstd::string::*;

verus! {

/// The greeting shown to `name`.
pub open spec fn greeting_of(name: Seq<char>) -> Seq<char> {
    "Hello, "@ + name + "! You've been greeted from Rust!"@
}

/// Greets `name`.
pub fn greet(name: &str) -> (greeting: String)
    ensures
        greeting@ == greeting_of(name@),
{
    let mut greeting = String::from_str("Hello, ");
    greeting.append(name);
    greeting.append("! You've been greeted from Rust!");
    greeting
}

} // verus!
