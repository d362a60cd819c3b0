//! The process controller.
//!
//! An [`Inferior`] owns the handle (process id) of the one traced child.  It
//! installs breakpoints by patching the trap byte into the child's memory,
//! resumes the child — running the step-over protocol when it is stopped at
//! an installed breakpoint — waits for state changes, and kills and reaps
//! the child.  All memory patching happens while the child is stopped: the
//! controller's operations are fully synchronous, every wait blocks until
//! the operating system reports a state change.

use vstd::prelude::*;

use crate::breakpoint::{addresses_unique, BreakpointTable};
use crate::trace::{
    ptrace_getregs, ptrace_peek, ptrace_poke, ptrace_resume, ptrace_setregs, ptrace_single_step,
    regs_frame_pointer, regs_instruction_pointer, regs_with_instruction_pointer, send_sigkill,
    spec_rbp, spec_rip, wait_for_child, WaitOutcome,
};
use crate::word::{align_addr_to_word, extract_byte, replace_byte, WORD_SIZE};

verus! {

/// The single-byte software-interrupt instruction patched over the first
/// byte of a target instruction to make it trap.
pub const TRAP_BYTE: u8 = 0xcc;

/// State of the traced process after a wait.
#[derive(Clone, Copy, PartialEq, Eq, Structural, Debug)]
pub enum Status {
    /// The process stopped: the signal that stopped it and the instruction
    /// pointer it is stopped at.
    Stopped(i32, usize),
    /// The process exited normally with this status code.
    Exited(i32),
    /// The process was terminated by this signal.
    Signaled(i32),
}

/// The target did not produce the expected initial stop.
#[derive(Clone, Copy, PartialEq, Eq, Structural, Debug)]
pub enum SpawnError {
    /// The first wait reported an exit or termination instead of a stop.
    NoInitialStop,
    /// The first wait itself failed, with this errno value.
    WaitFailed(i32),
}

/// A memory patch referenced an address the trace primitive rejected
/// (typically one outside the process's mapped memory).
#[derive(Clone, Copy, PartialEq, Eq, Structural, Debug)]
pub struct MemoryError {
    /// The errno value the trace primitive reported.
    pub errno: i32,
}

/// A trace, register or wait operation on a live process failed.
#[derive(Clone, Copy, PartialEq, Eq, Structural, Debug)]
pub enum ControlError {
    /// A trace syscall failed, with this errno value.
    Syscall(i32),
    /// A memory patch failed.
    Memory(MemoryError),
    /// The wait reported a status shape the blocking wait used here cannot
    /// legitimately produce.  This violates the OS contract; the session
    /// must abort on it, not swallow it.
    UnexpectedWaitStatus,
}

/// Registers of the stopped child that the engine reads: read fresh on
/// every stop, never cached across a resume.
#[derive(Clone, Copy, PartialEq, Eq, Structural, Debug)]
pub struct RegisterSnapshot {
    /// Instruction pointer.
    pub instruction_pointer: u64,
    /// Frame-base pointer.
    pub frame_pointer: u64,
}

/// The one traced child process.
pub struct Inferior {
    pid: i32,
    alive: bool,
}

/// The status a wait outcome reports: an exit code, a terminating signal,
/// or a stop together with the instruction pointer read at that stop; the
/// unexpected shape is the one wait error that is not a syscall failure.
pub open spec fn spec_status_of(outcome: WaitOutcome, stop_rip: u64) -> Result<
    Status,
    ControlError,
> {
    match outcome {
        WaitOutcome::Exited(code) => Ok(Status::Exited(code)),
        WaitOutcome::Signaled(signal) => Ok(Status::Signaled(signal)),
        WaitOutcome::Stopped(signal) => Ok(Status::Stopped(signal, stop_rip as usize)),
        WaitOutcome::Unexpected => Err(ControlError::UnexpectedWaitStatus),
    }
}

/// Translate one wait outcome into the reported status.  `stop_rip` is the
/// instruction pointer read fresh at the stop and matters only for a
/// stopped outcome.  An exit code, a terminating signal and a stopping
/// signal pass through unchanged; the unexpected wait-status shape becomes
/// the one error the session must abort on rather than swallow.
pub fn status_of_outcome(outcome: WaitOutcome, stop_rip: u64) -> (result: Result<
    Status,
    ControlError,
>)
    ensures
        result == spec_status_of(outcome, stop_rip),
{
    match outcome {
        WaitOutcome::Exited(code) => Ok(Status::Exited(code)),
        WaitOutcome::Signaled(signal) => Ok(Status::Signaled(signal)),
        WaitOutcome::Stopped(signal) => Ok(
            Status::Stopped(signal, #[verifier::truncate] (stop_rip as usize)),
        ),
        WaitOutcome::Unexpected => Err(ControlError::UnexpectedWaitStatus),
    }
}

/// Extract the two registers the engine reads from a freshly read register
/// set: the snapshot carries exactly that set's instruction pointer and
/// frame-base pointer.
pub fn snapshot_of_registers(regs: &nix::libc::user_regs_struct) -> (snapshot: RegisterSnapshot)
    ensures
        snapshot.instruction_pointer == spec_rip(*regs),
        snapshot.frame_pointer == spec_rbp(*regs),
{
    RegisterSnapshot {
        instruction_pointer: regs_instruction_pointer(regs),
        frame_pointer: regs_frame_pointer(regs),
    }
}

impl Inferior {
    /// The child's OS process id.
    pub closed spec fn spec_pid(self) -> i32 {
        self.pid
    }

    /// Whether the child has not yet been seen to exit, be terminated or be
    /// killed.
    pub closed spec fn alive(self) -> bool {
        self.alive
    }

    /// Take control of a freshly spawned child that asked to be traced
    /// before loading its program image.  Waits once for the initial trap;
    /// if that wait does not report a stop, the attempt fails.  After the
    /// stop is confirmed, every address in the table is installed by
    /// patching the trap byte into the child's memory and recording the
    /// overwritten byte; an address the child's memory map rejects is left
    /// uninstalled (its record keeps no original byte).
    pub fn new(pid: i32, breakpoints: &mut BreakpointTable) -> (result: Result<
        Inferior,
        SpawnError,
    >)
        ensures
            addresses_unique(final(breakpoints)@),
            final(breakpoints)@.len() == old(breakpoints)@.len(),
            forall|k: int|
                0 <= k < old(breakpoints)@.len() ==> final(breakpoints)@[k].address == old(breakpoints)@[k].address,
            match result {
                Ok(inferior) => inferior.alive() && inferior.spec_pid() == pid,
                Err(_) => final(breakpoints)@ == old(breakpoints)@,
            },
            result is Ok ==> forall|k: int|
                0 <= k < old(breakpoints)@.len() ==> ((#[trigger] final(breakpoints)@[k]).original_byte == old(breakpoints)@[k].original_byte || final(breakpoints)@[k].original_byte is Some),
    {
        match wait_for_child(pid) {
            Err(e) => {
                proof {
                    use_type_invariant(&*breakpoints);
                }
                Err(SpawnError::WaitFailed(e))
            },
            Ok(WaitOutcome::Stopped(_signal)) => {
                proof {
                    use_type_invariant(&*breakpoints);
                }
                let mut inferior = Inferior { pid, alive: true };
                let n = breakpoints.len();
                let mut i: usize = 0;
                while i < n
                    invariant
                        inferior.alive,
                        inferior.pid == pid,
                        n == breakpoints@.len(),
                        i <= n,
                        addresses_unique(breakpoints@),
                        breakpoints@.len() == old(breakpoints)@.len(),
                        forall|k: int|
                            0 <= k < old(breakpoints)@.len() ==> breakpoints@[k].address == old(breakpoints)@[k].address,
                        forall|k: int|
                            0 <= k < old(breakpoints)@.len() ==> ((#[trigger] breakpoints@[k]).original_byte
                                == old(breakpoints)@[k].original_byte
                                || breakpoints@[k].original_byte is Some),
                    decreases n - i,
                {
                    let address = breakpoints.address_at(i);
                    match inferior.write_byte(address, TRAP_BYTE) {
                        Ok(original) => {
                            proof {
                                assert(breakpoints.contains_addr(address));
                            }
                            breakpoints.record_original(address, original);
                        },
                        Err(_) => {
                            // Unmapped breakpoint address: leave it
                            // uninstalled, the session goes on.
                        },
                    }
                    i += 1;
                }
                Ok(inferior)
            },
            Ok(_) => {
                proof {
                    use_type_invariant(&*breakpoints);
                }
                Err(SpawnError::NoInitialStop)
            },
        }
    }

    /// The pid of this inferior.
    pub fn pid(&self) -> (pid: i32)
        ensures
            pid == self.spec_pid(),
    {
        self.pid
    }

    /// Block until the child changes state and report that state.  On a
    /// stop, the instruction pointer is read fresh from the child's
    /// registers; what comes back is translated by `status_of_outcome`,
    /// whose contract fixes the status for every outcome.  A wait can fail
    /// only through the syscall itself or through the unexpected-shape
    /// rule, never with a memory error.
    pub fn wait(&self) -> (result: Result<Status, ControlError>)
        ensures
            result matches Err(e) ==> (e matches ControlError::Syscall(_) || e
                == ControlError::UnexpectedWaitStatus),
    {
        match wait_for_child(self.pid) {
            Err(e) => Err(ControlError::Syscall(e)),
            Ok(WaitOutcome::Stopped(signal)) => match ptrace_getregs(self.pid) {
                Ok(regs) => status_of_outcome(
                    WaitOutcome::Stopped(signal),
                    regs_instruction_pointer(&regs),
                ),
                Err(e) => Err(ControlError::Syscall(e)),
            },
            Ok(outcome) => status_of_outcome(outcome, 0),
        }
    }

    /// A fresh snapshot of the registers the engine reads.  Valid only while
    /// the child is stopped.  Fails only through the register-read syscall;
    /// the value read is converted by `snapshot_of_registers`, whose
    /// contract fixes both fields.
    pub fn read_register_snapshot(&self) -> (result: Result<RegisterSnapshot, ControlError>)
        ensures
            result matches Err(e) ==> e matches ControlError::Syscall(_),
    {
        match ptrace_getregs(self.pid) {
            Ok(regs) => Ok(snapshot_of_registers(&regs)),
            Err(e) => Err(ControlError::Syscall(e)),
        }
    }

    /// Patch one byte of the child's memory and return the byte that was
    /// there.  The trace primitive works on whole words, so the containing
    /// word is read, one byte of it replaced, and the word written back;
    /// the word-level arithmetic is verified to preserve every other byte
    /// (see `crate::word`).  Only valid while the child is stopped.
    pub fn write_byte(&mut self, addr: usize, val: u8) -> (result: Result<u8, MemoryError>)
        requires
            old(self).alive(),
        ensures
            *final(self) == *old(self),
    {
        let aligned = align_addr_to_word(addr);
        let offset = addr - aligned;
        proof {
            assert(offset < WORD_SIZE);
        }
        match ptrace_peek(self.pid, aligned) {
            Ok(word) => {
                let original = extract_byte(word, offset);
                let patched = replace_byte(word, offset, val);
                match ptrace_poke(self.pid, aligned, patched) {
                    Ok(_) => Ok(original),
                    Err(e) => Err(MemoryError { errno: e }),
                }
            },
            Err(e) => Err(MemoryError { errno: e }),
        }
    }

    /// Resume the stopped child, optionally delivering a signal, and block
    /// until the next stop, exit or termination.
    ///
    /// If the child is stopped exactly one byte past an installed
    /// breakpoint (instruction pointer equals the breakpoint address plus
    /// the one-byte trap's length), the step-over protocol runs first:
    /// restore the original byte, rewind the instruction pointer to the
    /// breakpoint address, single-step exactly one instruction, and — if
    /// the child is still alive — re-install the trap byte before falling
    /// through to the normal resume.  If the single step reports an exit or
    /// termination, that status is propagated at once and nothing is
    /// re-patched.
    ///
    /// The breakpoint table is read, never rewritten: every recorded
    /// original byte survives a resume unchanged.
    pub fn continue_run(&mut self, signal: Option<i32>, breakpoints: &BreakpointTable) -> (result:
        Result<Status, ControlError>)
        requires
            old(self).alive(),
        ensures
            final(self).spec_pid() == old(self).spec_pid(),
            match result {
                Ok(status) => (final(self).alive() <==> status matches Status::Stopped(_, _)),
                Err(_) => final(self).alive(),
            },
            (result matches Ok(status) && status matches Status::Stopped(_, _)) ==> *final(self)
                == *old(self),
            result is Err ==> *final(self) == *old(self),
    {
        let pid = self.pid;
        let regs = match ptrace_getregs(pid) {
            Ok(regs) => regs,
            Err(e) => { return Err(ControlError::Syscall(e)) },
        };
        let rip = regs_instruction_pointer(&regs) as usize;
        if rip >= 1 {
            let breakpoint_addr = rip - 1;
            if let Some(original) = breakpoints.installed_byte_for(breakpoint_addr) {
                // Stopped just past a trap: run the step-over protocol.
                match self.write_byte(breakpoint_addr, original) {
                    Ok(_) => (),
                    Err(e) => { return Err(ControlError::Memory(e)) },
                }
                let rewound = regs_with_instruction_pointer(&regs, breakpoint_addr as u64);
                proof {
                    // The register set handed back to the OS really carries
                    // the breakpoint address as its instruction pointer and
                    // keeps the frame-base pointer it was read with.
                    assert(spec_rip(rewound) == breakpoint_addr as u64);
                    assert(spec_rbp(rewound) == spec_rbp(regs));
                }
                match ptrace_setregs(pid, &rewound) {
                    Ok(_) => (),
                    Err(e) => { return Err(ControlError::Syscall(e)) },
                }
                match ptrace_single_step(pid) {
                    Ok(_) => (),
                    Err(e) => { return Err(ControlError::Syscall(e)) },
                }
                match self.wait() {
                    Err(e) => { return Err(e) },
                    Ok(Status::Exited(code)) => {
                        self.alive = false;
                        return Ok(Status::Exited(code));
                    },
                    Ok(Status::Signaled(sig)) => {
                        self.alive = false;
                        return Ok(Status::Signaled(sig));
                    },
                    Ok(Status::Stopped(_, _)) => {
                        // The real instruction has now run once: re-arm the
                        // trap so future passes still stop here.
                        match self.write_byte(breakpoint_addr, TRAP_BYTE) {
                            Ok(_) => (),
                            Err(e) => { return Err(ControlError::Memory(e)) },
                        }
                    },
                }
            }
        }
        match ptrace_resume(pid, signal) {
            Ok(_) => (),
            Err(e) => { return Err(ControlError::Syscall(e)) },
        }
        match self.wait() {
            Err(e) => Err(e),
            Ok(Status::Exited(code)) => {
                self.alive = false;
                Ok(Status::Exited(code))
            },
            Ok(Status::Signaled(sig)) => {
                self.alive = false;
                Ok(Status::Signaled(sig))
            },
            Ok(Status::Stopped(sig, stop_rip)) => Ok(Status::Stopped(sig, stop_rip)),
        }
    }

    /// Terminate the child unconditionally and reap it so no defunct OS
    /// resource remains.  Idempotent: on a controller whose child is
    /// already gone this does nothing and never fails, so calling it twice
    /// in a row always succeeds.
    pub fn kill(&mut self)
        ensures
            !final(self).alive(),
            final(self).spec_pid() == old(self).spec_pid(),
            !old(self).alive() ==> *final(self) == *old(self),
    {
        if self.alive {
            // The child may already have died on its own; a failure of
            // either call then reports exactly that, and is ignored.
            let _ = send_sigkill(self.pid);
            let _ = wait_for_child(self.pid);
            self.alive = false;
        }
    }
}

} // verus!
