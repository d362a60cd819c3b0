//! Trusted boundary to the operating system's trace primitives.
//!
//! Everything the controller does to the traced child goes through the
//! wrappers here: reading and writing one word of its memory, reading and
//! writing its registers, resuming it, single-stepping it, waiting on it and
//! killing it.  Each wrapper holds exactly one call into the `nix` crate and
//! the conversions of its arguments and result.  What a call returns depends
//! on the state of the child process and of the operating system, so the
//! wrappers promise nothing about the values that come back; the verified
//! code around them states what holds whatever came back.

use vstd::prelude::*;

verus! {

/// What one wait on the traced child reported.
///
/// `Unexpected` stands for every wait-status shape that the blocking wait
/// used here cannot legitimately produce; meeting it is a broken OS contract
/// and the session must abort on it rather than swallow it.
#[derive(Clone, Copy, PartialEq, Eq, Structural, Debug)]
pub enum WaitOutcome {
    /// The child exited normally with this status code.
    Exited(i32),
    /// The child was terminated by this signal.
    Signaled(i32),
    /// The child is alive but stopped by this signal.
    Stopped(i32),
    /// Any other shape.
    Unexpected,
}

#[verifier::external_type_specification]
#[verifier::external_body]
pub struct ExUserRegs(nix::libc::user_regs_struct);

/// The instruction pointer held in a register set: the `rip` field, a pure
/// function of the register values.
pub uninterp spec fn spec_rip(regs: nix::libc::user_regs_struct) -> u64;

/// The frame-base pointer held in a register set: the `rbp` field, a pure
/// function of the register values.
pub uninterp spec fn spec_rbp(regs: nix::libc::user_regs_struct) -> u64;

/// Relies on nix::sys::ptrace::getregs: reads the general-purpose registers
/// of a stopped tracee.
#[verifier::external_body]
pub(crate) fn ptrace_getregs(pid: i32) -> (r: Result<nix::libc::user_regs_struct, i32>) {
    nix::sys::ptrace::getregs(nix::unistd::Pid::from_raw(pid)).map_err(|e| e as i32)
}

/// Relies on nix::sys::ptrace::setregs: writes the general-purpose registers
/// of a stopped tracee.
#[verifier::external_body]
pub(crate) fn ptrace_setregs(pid: i32, regs: &nix::libc::user_regs_struct) -> (r: Result<
    (),
    i32,
>) {
    nix::sys::ptrace::setregs(nix::unistd::Pid::from_raw(pid), *regs).map_err(|e| e as i32)
}

/// Relies on libc::user_regs_struct: the field `rip` is the tracee's
/// instruction pointer.
#[verifier::external_body]
pub(crate) fn regs_instruction_pointer(regs: &nix::libc::user_regs_struct) -> (r: u64)
    ensures
        r == spec_rip(*regs),
{
    regs.rip
}

/// Relies on libc::user_regs_struct: the field `rbp` is the tracee's
/// frame-base pointer.
#[verifier::external_body]
pub(crate) fn regs_frame_pointer(regs: &nix::libc::user_regs_struct) -> (r: u64)
    ensures
        r == spec_rbp(*regs),
{
    regs.rbp
}

/// Relies on libc::user_regs_struct: a copy of `regs` whose `rip` field is
/// replaced by the given value, every other register unchanged.
#[verifier::external_body]
pub(crate) fn regs_with_instruction_pointer(
    regs: &nix::libc::user_regs_struct,
    rip: u64,
) -> (r: nix::libc::user_regs_struct)
    ensures
        spec_rip(r) == rip,
        spec_rbp(r) == spec_rbp(*regs),
{
    let mut out = *regs;
    out.rip = rip;
    out
}

/// Relies on nix::sys::ptrace::read: reads the machine word of tracee memory
/// at the given address.
#[verifier::external_body]
pub(crate) fn ptrace_peek(pid: i32, addr: usize) -> (r: Result<u64, i32>) {
    nix::sys::ptrace::read(
        nix::unistd::Pid::from_raw(pid),
        addr as nix::sys::ptrace::AddressType,
    ).map(|w| w as u64).map_err(|e| e as i32)
}

/// Relies on nix::sys::ptrace::write: writes one machine word into tracee
/// memory at the given address.
#[verifier::external_body]
pub(crate) fn ptrace_poke(pid: i32, addr: usize, word: u64) -> (r: Result<(), i32>) {
    nix::sys::ptrace::write(
        nix::unistd::Pid::from_raw(pid),
        addr as nix::sys::ptrace::AddressType,
        word as nix::libc::c_long,
    ).map_err(|e| e as i32)
}

/// Relies on nix::sys::ptrace::cont: resumes a stopped tracee, optionally
/// delivering the given signal, and returns without waiting.
#[verifier::external_body]
pub(crate) fn ptrace_resume(pid: i32, signal: Option<i32>) -> (r: Result<(), i32>) {
    let sig = match signal {
        Some(n) => match nix::sys::signal::Signal::try_from(n) {
            Ok(s) => Some(s),
            Err(e) => return Err(e as i32),
        },
        None => None,
    };
    nix::sys::ptrace::cont(nix::unistd::Pid::from_raw(pid), sig).map_err(|e| e as i32)
}

/// Relies on nix::sys::ptrace::step: lets a stopped tracee execute exactly
/// one machine instruction, and returns without waiting.
#[verifier::external_body]
pub(crate) fn ptrace_single_step(pid: i32) -> (r: Result<(), i32>) {
    nix::sys::ptrace::step(nix::unistd::Pid::from_raw(pid), None).map_err(|e| e as i32)
}

/// Relies on nix::sys::wait::waitpid called without flags: blocks until the
/// child changes state and reports an exit, a termination by signal or a
/// stop.  The remaining `WaitStatus` shapes are only produced under flags
/// that are not passed here; they map to `Unexpected`.
#[verifier::external_body]
pub(crate) fn wait_for_child(pid: i32) -> (r: Result<WaitOutcome, i32>) {
    match nix::sys::wait::waitpid(nix::unistd::Pid::from_raw(pid), None) {
        Ok(nix::sys::wait::WaitStatus::Exited(_, code)) => Ok(WaitOutcome::Exited(code)),
        Ok(nix::sys::wait::WaitStatus::Signaled(_, sig, _)) => Ok(
            WaitOutcome::Signaled(sig as i32),
        ),
        Ok(nix::sys::wait::WaitStatus::Stopped(_, sig)) => Ok(WaitOutcome::Stopped(sig as i32)),
        Ok(_) => Ok(WaitOutcome::Unexpected),
        Err(e) => Err(e as i32),
    }
}

/// Relies on nix::sys::signal::kill with SIGKILL: terminates the process
/// unconditionally; fails with ESRCH if the process is already gone.
#[verifier::external_body]
pub(crate) fn send_sigkill(pid: i32) -> (r: Result<(), i32>) {
    nix::sys::signal::kill(
        nix::unistd::Pid::from_raw(pid),
        nix::sys::signal::Signal::SIGKILL,
    ).map_err(|e| e as i32)
}

} // verus!
