//! Caret/typing state engine with its small collaborators.

pub mod active_region;
pub mod caret_monitor;
pub mod classify;
pub mod diff;
pub mod diffusion;
pub mod engine;
pub mod ffi;
pub mod fragment;
pub mod history;
pub mod language_detection;
pub mod llm;
pub mod merge;
pub mod model;
pub mod pause_timer;
pub mod scheduler;
pub mod tapestry;
pub mod text;

use vstd::prelude::*;

verus! {

/// A greeting for `name`.
pub fn greet(name: &str) -> (r: String)
    ensures
        r@ == "Hello from Rust, "@ + name@ + "!"@,
{
    let mut r = String::from_str("Hello from Rust, ");
    r.append(name);
    r.append("!");
    r
}

} // verus!
