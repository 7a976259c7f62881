//! Decision core of a desktop client for S3-compatible object storage.
//!
//! The crate holds what such a client computes: the request and response
//! records, the settings a storage client is built from, the texts shown to
//! the user, and the step-by-step plans of the operations that talk to the
//! storage service. Network, disk and dialogs are left to the caller, which
//! performs each action a plan asks for and reports what came of it.

pub mod commands;
pub mod error;
pub mod models;
pub mod services;
pub mod utils;

use vstd::prelude::*;

verus! {

/// The greeting for `name`.
pub open spec fn greeting_spec(name: Seq<char>) -> Seq<char> {
    "Hello, "@ + name + "! You've been greeted from Rust!"@
}

/// Greets `name`. It talks to nothing and serves to see that the
/// commands can be reached at all.
pub fn greet(name: &str) -> (res: String)
    ensures
        res@ == greeting_spec(name@),
{
    let mut res = "Hello, ".to_string();
    res.append(name);
    res.append("! You've been greeted from Rust!");
    res
}

} // verus!
