//! Core of a native process-control and breakpoint-management engine.
//!
//! The library attaches to a freshly spawned traced process, intercepts its
//! execution at chosen addresses, lets a caller resume or inspect it, and
//! reconstructs a call stack from raw register and memory state.  The
//! interactive front end (prompt loop, process spawning, printing) lives
//! outside the library and talks to it through plain values.

use vstd::prelude::*;

pub mod breakpoint;
pub mod debugger;
pub mod diff;
pub mod inferior;
pub mod symbols;
pub mod text;
pub mod trace;
pub mod unwind;
pub mod word;

verus! {

/// Marker for the program entry point.  The front end owns the actual
/// process-wide setup (argument list, signal disposition); the library only
/// decides whether an argument count is acceptable.
pub struct Main {}

impl Main {
    /// The session takes exactly one argument: the path of the target
    /// executable.  Together with the program name itself that makes two.
    pub fn args_are_valid(arg_count: usize) -> (ok: bool)
        ensures
            ok <==> arg_count == 2,
    {
        arg_count == 2
    }
}

} // verus!
