//! The stack unwinder.
//!
//! Walks the saved frame-pointer chain in the stopped child's memory and
//! turns addresses into symbolic frames, innermost first.  The walk follows
//! a non-portable stack layout, stated here as a platform/ABI assumption:
//! the caller's return address is stored one machine word above the saved
//! frame-base pointer, and the caller's saved frame-base pointer is stored
//! at the frame base itself, with stacks growing downward so that a caller's
//! frame base lies strictly above its callee's.
//!
//! The walk always terminates, corrupted or missing frame chains included:
//! an unresolvable address, a resolved entry function, a failed memory read
//! and a frame base that does not move strictly upward all end the walk,
//! never fail it.  A chain that does move strictly upward exhausts the
//! address space; that bound is the loop's termination measure.

use vstd::prelude::*;

use crate::inferior::{ControlError, Inferior};
use crate::symbols::{Location, SymbolTable};
use crate::text::str_eq;
use crate::trace::ptrace_peek;
use crate::word::WORD_SIZE;

verus! {

/// One reconstructed stack frame, produced transiently by the unwinder.
#[derive(Clone, PartialEq, Eq, Debug)]
pub struct StackFrame {
    /// The address the frame was resolved at: the instruction pointer for
    /// the innermost frame, a return address for every outer one.
    pub return_address: usize,
    /// The name of the function covering that address, if resolved.
    pub function_name: Option<String>,
    /// The source position of that address, if resolved.
    pub source_location: Option<Location>,
}

/// The frame's name and source position are exactly what the resolver gives
/// for its address.
pub open spec fn resolved_frame(symbols: SymbolTable, frame: StackFrame) -> bool {
    &&& symbols.resolved_name_at(frame.return_address, frame.function_name)
    &&& symbols.resolved_location_at(frame.return_address, frame.source_location)
}

/// The walk went on below this frame: its address resolved to a function
/// that is not the program's entry function.
pub open spec fn frame_continues(frame: StackFrame) -> bool {
    frame.function_name matches Some(n) && n@ != "main"@
}

/// Reconstruct the call stack of the stopped child, innermost frame first.
///
/// Registers are read fresh; each frame's address is resolved through the
/// symbol table; the walk stops at the entry function, at an unresolvable
/// address, at a failed or non-progressing memory read — and therefore
/// always produces a finite sequence.  Only a register-read failure is an
/// error; a broken frame chain merely ends the walk.
pub fn unwind(inferior: &Inferior, symbols: &SymbolTable) -> (result: Result<
    Vec<StackFrame>,
    ControlError,
>)
    ensures
        result matches Ok(frames) ==> {
            &&& frames@.len() >= 1
            &&& forall|k: int|
                0 <= k < frames@.len() ==> resolved_frame(*symbols, #[trigger] frames@[k])
            &&& forall|k: int| 0 <= k < frames@.len() - 1 ==> frame_continues(#[trigger] frames@[k])
        },
{
    let snapshot = match inferior.read_register_snapshot() {
        Ok(snapshot) => snapshot,
        Err(e) => { return Err(e) },
    };
    let pid = inferior.pid();
    let mut rip: usize = #[verifier::truncate] (snapshot.instruction_pointer as usize);
    let mut rbp: usize = #[verifier::truncate] (snapshot.frame_pointer as usize);
    let mut frames: Vec<StackFrame> = Vec::new();
    loop
        invariant_except_break
            forall|k: int| 0 <= k < frames@.len() ==> frame_continues(#[trigger] frames@[k]),
        invariant
            forall|k: int|
                0 <= k < frames@.len() ==> resolved_frame(*symbols, #[trigger] frames@[k]),
        ensures
            frames@.len() >= 1,
            forall|k: int|
                0 <= k < frames@.len() ==> resolved_frame(*symbols, #[trigger] frames@[k]),
            forall|k: int| 0 <= k < frames@.len() - 1 ==> frame_continues(#[trigger] frames@[k]),
        decreases usize::MAX - rbp,
    {
        let function_name = symbols.function_name_at(rip);
        let source_location = symbols.source_location_at(rip);
        let stop = match &function_name {
            None => true,
            Some(name) => str_eq(name.as_str(), "main"),
        };
        let frame = StackFrame { return_address: rip, function_name, source_location };
        let ghost pushed = frame;
        let ghost prev = frames@;
        frames.push(frame);
        proof {
            assert(frames@ == prev.push(pushed));
            assert(forall|k: int| 0 <= k < prev.len() ==> frames@[k] == #[trigger] prev[k]);
            assert(frames@[frames@.len() - 1] == pushed);
            assert(symbols.resolved_name_at(pushed.return_address, pushed.function_name));
            assert(symbols.resolved_location_at(pushed.return_address, pushed.source_location));
            assert(resolved_frame(*symbols, pushed));
            assert(!stop ==> frame_continues(pushed));
        }
        if stop {
            break;
        }
        if rbp > usize::MAX - WORD_SIZE {
            // The frame base sits at the very top of the address space: no
            // word above it can hold a return address.
            break;
        }
        let return_address = match ptrace_peek(pid, rbp + WORD_SIZE) {
            Ok(word) => #[verifier::truncate] (word as usize),
            Err(_) => { break },
        };
        let saved_frame_base = match ptrace_peek(pid, rbp) {
            Ok(word) => #[verifier::truncate] (word as usize),
            Err(_) => { break },
        };
        if saved_frame_base <= rbp {
            // A well-formed caller frame lies strictly above; anything else
            // is a corrupted or finished chain.
            break;
        }
        rip = return_address;
        rbp = saved_frame_base;
    }
    Ok(frames)
}

} // verus!
