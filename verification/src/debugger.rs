//! The session orchestrator.
//!
//! A [`Debugger`] owns the breakpoint table, the symbol table and the one
//! traced process, and turns discrete commands — run, continue, backtrace,
//! break, quit — into controller operations and plain reports.  The
//! interactive front end around it reads lines, tokenizes them, performs
//! the one thing the library cannot (spawning the traced child), and prints
//! the reports.
//!
//! The breakpoint table outlives process replacement: breakpoints set
//! before a process exists are installed into every new process when the
//! engine attaches to it; breakpoints set while a process is alive are
//! installed immediately.

use vstd::prelude::*;

use crate::breakpoint::{addresses_unique, Breakpoint, BreakpointTable};
use crate::inferior::{ControlError, Inferior, Status, TRAP_BYTE};
use crate::symbols::{Location, SymbolTable};
use crate::text::{all_digits, parse_unsigned, radix_value, str_eq};
use crate::unwind::{frame_continues, resolved_frame, unwind, StackFrame};
use vstd::string::StringExecFns;
use vstd::string::StrSliceExecFns;

verus! {

/// Whether `s` starts with a hexadecimal prefix, `0x` or `0X`.
pub open spec fn has_hex_prefix(s: Seq<char>) -> bool {
    s.len() >= 2 && s[0] == '0' && (s[1] == 'x' || s[1] == 'X')
}

/// The digits of a written address: what follows the hexadecimal prefix if
/// there is one, the whole text otherwise.
pub open spec fn spec_hex_digits(s: Seq<char>) -> Seq<char> {
    if has_hex_prefix(s) {
        s.skip(2)
    } else {
        s
    }
}

/// Parse a hexadecimal address, with or without a `0x`/`0X` prefix.
/// Succeeds exactly when at least one digit is present, all characters
/// after the optional prefix are hexadecimal digits, and the value fits
/// the machine.
pub fn parse_address(addr: &str) -> (parsed: Option<usize>)
    ensures
        parsed is Some <==> spec_hex_digits(addr@).len() >= 1 && all_digits(
            spec_hex_digits(addr@),
            16,
        ) && radix_value(spec_hex_digits(addr@), 16) <= usize::MAX,
        parsed matches Some(value) ==> value == radix_value(spec_hex_digits(addr@), 16),
{
    let len = addr.unicode_len();
    let prefixed = len >= 2 && addr.get_char(0) == '0' && (addr.get_char(1) == 'x'
        || addr.get_char(1) == 'X');
    if prefixed {
        parse_unsigned(addr, 2, 16)
    } else {
        proof {
            assert(addr@.skip(0) =~= addr@);
        }
        parse_unsigned(addr, 0, 16)
    }
}

/// A discrete session command, one per input line.
#[derive(PartialEq, Eq, Debug)]
pub enum Command {
    /// Start (or restart) the target with these arguments.
    Run(Vec<String>),
    /// Resume the stopped process.
    Continue,
    /// Reconstruct and report the call stack.
    Backtrace,
    /// Set a breakpoint at a raw address (`*` prefix), a source line
    /// number, or a function name.
    Break(String),
    /// Tear everything down and end the session.
    Quit,
}

/// The words that ask to start the target.
pub open spec fn is_run_word(w: Seq<char>) -> bool {
    w == "r"@ || w == "run"@
}

/// The words that ask to resume the target.
pub open spec fn is_continue_word(w: Seq<char>) -> bool {
    w == "c"@ || w == "cont"@ || w == "continue"@
}

/// The words that ask for the call stack.
pub open spec fn is_backtrace_word(w: Seq<char>) -> bool {
    w == "bt"@ || w == "back"@ || w == "backtrace"@
}

/// The words that ask for a breakpoint.
pub open spec fn is_break_word(w: Seq<char>) -> bool {
    w == "b"@ || w == "break"@ || w == "breakpoint"@
}

/// The words that ask to end the session.
pub open spec fn is_quit_word(w: Seq<char>) -> bool {
    w == "q"@ || w == "quit"@
}

impl Command {
    /// Parse one tokenized input line.  The first word picks the command;
    /// `run` takes every following token as a target argument, `break`
    /// takes exactly one location token, and the parameterless commands
    /// ignore nothing — extra tokens make them unrecognized.
    pub fn from_tokens(tokens: &Vec<String>) -> (command: Option<Command>)
        ensures
            match command {
                Some(Command::Run(args)) => tokens@.len() >= 1 && is_run_word(tokens@[0]@)
                    && args@.len() == tokens@.len() - 1 && forall|k: int|
                    0 <= k < args@.len() ==> args@[k]@ == tokens@[k + 1]@,
                Some(Command::Continue) => tokens@.len() == 1 && is_continue_word(tokens@[0]@),
                Some(Command::Backtrace) => tokens@.len() == 1 && is_backtrace_word(tokens@[0]@),
                Some(Command::Break(location)) => tokens@.len() == 2 && is_break_word(
                    tokens@[0]@,
                ) && location@ == tokens@[1]@,
                Some(Command::Quit) => tokens@.len() == 1 && is_quit_word(tokens@[0]@),
                None => !(tokens@.len() >= 1 && is_run_word(tokens@[0]@)) && !(tokens@.len() == 1
                    && is_continue_word(tokens@[0]@)) && !(tokens@.len() == 1
                    && is_backtrace_word(tokens@[0]@)) && !(tokens@.len() == 2 && is_break_word(
                    tokens@[0]@,
                )) && !(tokens@.len() == 1 && is_quit_word(tokens@[0]@)),
            },
    {
        if tokens.len() == 0 {
            return None;
        }
        let word = tokens[0].as_str();
        if str_eq(word, "r") || str_eq(word, "run") {
            let mut args: Vec<String> = Vec::new();
            let mut i: usize = 1;
            while i < tokens.len()
                invariant
                    1 <= i <= tokens@.len(),
                    args@.len() == i - 1,
                    forall|k: int| 0 <= k < args@.len() ==> args@[k]@ == tokens@[k + 1]@,
                decreases tokens@.len() - i,
            {
                args.push(tokens[i].clone());
                i += 1;
            }
            Some(Command::Run(args))
        } else if tokens.len() == 1 && (str_eq(word, "c") || str_eq(word, "cont") || str_eq(
            word,
            "continue",
        )) {
            Some(Command::Continue)
        } else if tokens.len() == 1 && (str_eq(word, "bt") || str_eq(word, "back") || str_eq(
            word,
            "backtrace",
        )) {
            Some(Command::Backtrace)
        } else if tokens.len() == 2 && (str_eq(word, "b") || str_eq(word, "break") || str_eq(
            word,
            "breakpoint",
        )) {
            Some(Command::Break(tokens[1].clone()))
        } else if tokens.len() == 1 && (str_eq(word, "q") || str_eq(word, "quit")) {
            Some(Command::Quit)
        } else {
            None
        }
    }
}

/// What a handled command tells the user.
#[derive(PartialEq, Eq, Debug)]
pub enum Report {
    /// The target could not be spawned, or never produced its initial stop.
    SpawnFailed,
    /// The command needs a live process and there is none.
    NoProcess,
    /// The child exited normally with this status code.
    Exited(i32),
    /// The child was terminated by this signal.
    TerminatedBySignal(i32),
    /// The child stopped, with whatever the resolver knows of the stop
    /// address.
    Stopped { signal: i32, address: usize, function: Option<String>, location: Option<Location> },
    /// The reconstructed call stack, innermost frame first.
    Backtrace(Vec<StackFrame>),
    /// A breakpoint is recorded (and installed if a process is alive).
    BreakpointSet { id: usize, address: usize },
    /// The resolved breakpoint address is not in the live process's mapped
    /// memory.
    InvalidBreakpoint(usize),
    /// The text after `*` is not a hexadecimal address.
    InvalidAddress,
    /// The line number has no address in the line table.
    InvalidLine,
    /// The location is neither an address, a line number, nor a known
    /// function name.
    UnknownLocation,
    /// A control operation on the live process failed.
    ControlFailed(ControlError),
}

/// What the front end must do with a handled command.
#[derive(PartialEq, Eq, Debug)]
pub enum Action {
    /// Spawn the target executable with these arguments, traced from its
    /// first instruction, and hand the process id back to `on_spawned`.
    Spawn { target: String, args: Vec<String> },
    /// Show this report.
    Report(Report),
    /// End the session.
    Exit,
}

/// The location text asks for a raw address.
pub open spec fn is_address_request(loc: Seq<char>) -> bool {
    loc.len() >= 1 && loc[0] == '*'
}

/// The location text is a line number: all decimal digits, fitting the
/// machine.
pub open spec fn is_line_request(loc: Seq<char>) -> bool {
    loc.len() >= 1 && all_digits(loc, 10) && radix_value(loc, 10) <= usize::MAX
}

/// The session orchestrator.
pub struct Debugger {
    target: String,
    inferior: Option<Inferior>,
    breakpoints: BreakpointTable,
    symbols: SymbolTable,
}

impl Debugger {
    /// Path of the target executable.
    pub closed spec fn spec_target(self) -> Seq<char> {
        self.target@
    }

    /// The traced process, while one exists.
    pub closed spec fn spec_inferior(self) -> Option<Inferior> {
        self.inferior
    }

    /// The breakpoint records.
    pub closed spec fn spec_breakpoints(self) -> Seq<Breakpoint> {
        self.breakpoints@
    }

    /// The symbol tables consulted for resolution.
    pub closed spec fn spec_symbols(self) -> SymbolTable {
        self.symbols
    }

    /// A held process is always one that has not been seen to die.
    pub open spec fn wf(self) -> bool {
        match self.spec_inferior() {
            Some(inferior) => inferior.alive(),
            None => true,
        }
    }

    /// The file hint used for line lookups: the target path with a C
    /// source suffix.
    pub open spec fn spec_file_hint(self) -> Seq<char> {
        self.spec_target() + ".c"@
    }

    /// `address` is what the location text resolves to in this session: the
    /// written hexadecimal address after `*`, the line table's first row for
    /// a decimal line number against the session's file hint, or the entry
    /// address of the first function of that name.
    pub open spec fn spec_resolved_address(self, loc: Seq<char>, address: usize) -> bool {
        if is_address_request(loc) {
            address == radix_value(spec_hex_digits(loc.skip(1)), 16)
        } else if is_line_request(loc) {
            exists|i: int|
                self.spec_symbols().is_first_line_number_match(
                    self.spec_file_hint(),
                    radix_value(loc, 10) as usize,
                    i,
                ) && address == self.spec_symbols().spec_lines()[i].address
        } else {
            exists|i: int|
                self.spec_symbols().is_first_name_match(loc, i) && address
                    == self.spec_symbols().spec_functions()[i].low
        }
    }

    /// A fresh session for this target: no process yet, no breakpoints.
    pub fn new(target: String, symbols: SymbolTable) -> (debugger: Debugger)
        ensures
            debugger.wf(),
            debugger.spec_target() == target@,
            debugger.spec_inferior() is None,
            debugger.spec_breakpoints() == Seq::<Breakpoint>::empty(),
            debugger.spec_symbols() == symbols,
    {
        Debugger { target, inferior: None, breakpoints: BreakpointTable::new(), symbols }
    }

    /// Whether a traced process currently exists.
    pub fn has_inferior(&self) -> (held: bool)
        ensures
            held == (self.spec_inferior() is Some),
    {
        self.inferior.is_some()
    }

    /// Number of breakpoint records.
    pub fn breakpoint_count(&self) -> (count: usize)
        ensures
            count == self.spec_breakpoints().len(),
    {
        self.breakpoints.len()
    }

    /// Kill and reap the traced process if one exists.  Idempotent: with no
    /// process held this does nothing, so it can always be called again.
    pub fn kill_inferior(&mut self)
        ensures
            final(self).spec_inferior() is None,
            final(self).spec_target() == old(self).spec_target(),
            final(self).spec_breakpoints() == old(self).spec_breakpoints(),
            final(self).spec_symbols() == old(self).spec_symbols(),
    {
        let mut held: Option<Inferior> = None;
        std::mem::swap(&mut held, &mut self.inferior);
        match held {
            Some(mut inferior) => inferior.kill(),
            None => (),
        }
    }

    /// Handle one command.
    ///
    /// `run` tears down any existing process and asks the front end to
    /// spawn a fresh one; `quit` tears down and ends the session; the rest
    /// are handled entirely here and produce a report.
    pub fn handle_command(&mut self, command: Command) -> (action: Action)
        requires
            old(self).wf(),
        ensures
            final(self).wf(),
            final(self).spec_target() == old(self).spec_target(),
            final(self).spec_symbols() == old(self).spec_symbols(),
            match command {
                Command::Run(args) => action matches Action::Spawn { target, args: spawn_args }
                    && target@ == old(self).spec_target() && spawn_args == args && final(self).spec_inferior() is None && final(self).spec_breakpoints() == old(self).spec_breakpoints(),
                Command::Quit => action == Action::Exit && final(self).spec_inferior() is None
                    && final(self).spec_breakpoints() == old(self).spec_breakpoints(),
                Command::Continue => action matches Action::Report(report) && (old(self).spec_inferior() is None <==> report == Report::NoProcess) && ((
                report matches Report::Exited(_) || report matches Report::TerminatedBySignal(_))
                    ==> final(self).spec_inferior() is None) && (report matches Report::Stopped {
                    ..
                } ==> final(self).spec_inferior() is Some) && final(self).spec_breakpoints()
                    == old(self).spec_breakpoints(),
                Command::Backtrace => action matches Action::Report(report) && (old(self).spec_inferior() is None <==> report == Report::NoProcess) && *final(self)
                    == *old(self),
                Command::Break(_) => action matches Action::Report(report) && final(self).spec_inferior() == old(self).spec_inferior() && addresses_unique(
                    final(self).spec_breakpoints(),
                ),
            },
    {
        match command {
            Command::Run(args) => {
                self.kill_inferior();
                Action::Spawn { target: self.target.clone(), args }
            },
            Command::Quit => {
                self.kill_inferior();
                Action::Exit
            },
            Command::Continue => Action::Report(self.handle_continue()),
            Command::Backtrace => Action::Report(self.handle_backtrace()),
            Command::Break(location) => Action::Report(self.handle_break(&location)),
        }
    }

    /// Resume the stopped process and report what happened next; with no
    /// process held, report exactly that.  A process seen to exit or be
    /// terminated is dropped: the next resume will find no process.
    pub fn handle_continue(&mut self) -> (report: Report)
        requires
            old(self).wf(),
        ensures
            final(self).wf(),
            final(self).spec_target() == old(self).spec_target(),
            final(self).spec_symbols() == old(self).spec_symbols(),
            final(self).spec_breakpoints() == old(self).spec_breakpoints(),
            old(self).spec_inferior() is None <==> report == Report::NoProcess,
            report == Report::NoProcess ==> *final(self) == *old(self),
            (report matches Report::Exited(_) || report matches Report::TerminatedBySignal(_))
                ==> final(self).spec_inferior() is None,
            (report matches Report::Stopped { .. } || report matches Report::ControlFailed(_))
                ==> final(self).spec_inferior() == old(self).spec_inferior(),
            report matches Report::Stopped { signal, address, function, location } ==> {
                &&& final(self).spec_symbols().resolved_name_at(address, function)
                &&& final(self).spec_symbols().resolved_location_at(address, location)
            },
            (report matches Report::Exited(_) || report matches Report::TerminatedBySignal(_)
                || report matches Report::Stopped { .. } || report matches Report::ControlFailed(
                _,
            ) || report == Report::NoProcess),
    {
        let outcome: Option<Result<Status, ControlError>>;
        match &mut self.inferior {
            None => {
                outcome = None;
            },
            Some(inferior) => {
                outcome = Some(inferior.continue_run(None, &self.breakpoints));
            },
        }
        match outcome {
            None => Report::NoProcess,
            Some(Err(e)) => Report::ControlFailed(e),
            Some(Ok(status)) => {
                match status {
                    Status::Stopped(_, _) => (),
                    _ => {
                        // The process is gone; drop the dead handle so the
                        // next resume finds no process.
                        self.inferior = None;
                    },
                }
                self.status_report(status)
            },
        }
    }

    /// The report one process status produces: an exit code and a
    /// terminating signal pass through unchanged; a stop carries exactly
    /// the resolver's answers for the stop address.
    pub fn status_report(&self, status: Status) -> (report: Report)
        ensures
            status matches Status::Exited(code) ==> report == Report::Exited(code),
            status matches Status::Signaled(signal) ==> report == Report::TerminatedBySignal(
                signal,
            ),
            status matches Status::Stopped(signal, address) ==> report matches Report::Stopped {
                signal: s,
                address: a,
                function,
                location,
            } && s == signal && a == address && self.spec_symbols().resolved_name_at(
                address,
                function,
            ) && self.spec_symbols().resolved_location_at(address, location),
    {
        match status {
            Status::Exited(code) => Report::Exited(code),
            Status::Signaled(signal) => Report::TerminatedBySignal(signal),
            Status::Stopped(signal, address) => {
                let function = self.symbols.function_name_at(address);
                let location = self.symbols.source_location_at(address);
                Report::Stopped { signal, address, function, location }
            },
        }
    }

    /// Reconstruct and report the call stack of the stopped process; with
    /// no process held, report exactly that.
    pub fn handle_backtrace(&mut self) -> (report: Report)
        requires
            old(self).wf(),
        ensures
            final(self).wf(),
            *final(self) == *old(self),
            old(self).spec_inferior() is None <==> report == Report::NoProcess,
            report matches Report::Backtrace(frames) ==> {
                &&& frames@.len() >= 1
                &&& forall|k: int|
                    0 <= k < frames@.len() ==> resolved_frame(
                        old(self).spec_symbols(),
                        #[trigger] frames@[k],
                    )
                &&& forall|k: int|
                    0 <= k < frames@.len() - 1 ==> frame_continues(#[trigger] frames@[k])
            },
            (report matches Report::Backtrace(_) || report matches Report::ControlFailed(_)
                || report == Report::NoProcess),
    {
        match &self.inferior {
            None => Report::NoProcess,
            Some(inferior) => match unwind(inferior, &self.symbols) {
                Ok(frames) => Report::Backtrace(frames),
                Err(e) => Report::ControlFailed(e),
            },
        }
    }

    /// Resolve a breakpoint location — `*address`, line number, or function
    /// name — and record it, installing the trap at once if a process is
    /// alive.  With no process alive, a resolvable location always
    /// succeeds: the trap is installed when the next process is attached.
    pub fn handle_break(&mut self, location: &str) -> (report: Report)
        requires
            old(self).wf(),
        ensures
            final(self).wf(),
            final(self).spec_target() == old(self).spec_target(),
            final(self).spec_symbols() == old(self).spec_symbols(),
            final(self).spec_inferior() == old(self).spec_inferior(),
            addresses_unique(final(self).spec_breakpoints()),
            report == Report::InvalidAddress <==> is_address_request(location@) && !(
            spec_hex_digits(location@.skip(1)).len() >= 1 && all_digits(
                spec_hex_digits(location@.skip(1)),
                16,
            ) && radix_value(spec_hex_digits(location@.skip(1)), 16) <= usize::MAX),
            report == Report::InvalidLine <==> !is_address_request(location@) && is_line_request(
                location@,
            ) && !(exists|i: int|
                0 <= i < old(self).spec_symbols().spec_lines().len() && old(self).spec_symbols().spec_lines()[i].file@ == old(self).spec_file_hint() && old(self).spec_symbols().spec_lines()[i].line == radix_value(location@, 10)),
            report == Report::UnknownLocation <==> !is_address_request(location@)
                && !is_line_request(location@) && !(exists|i: int|
                0 <= i < old(self).spec_symbols().spec_functions().len() && old(self).spec_symbols().spec_functions()[i].name@ == location@),
            report matches Report::BreakpointSet { id, address } ==> {
                &&& (final(self).spec_breakpoints().len() == old(self).spec_breakpoints().len()
                    || final(self).spec_breakpoints().len() == old(self).spec_breakpoints().len() + 1)
                &&& forall|k: int|
                    0 <= k < old(self).spec_breakpoints().len() ==> final(self).spec_breakpoints()[k].address == old(self).spec_breakpoints()[k].address
                &&& id < final(self).spec_breakpoints().len()
                &&& final(self).spec_breakpoints()[id as int].address == address
                &&& old(self).spec_inferior() is Some ==> final(self).spec_breakpoints()[
                    id as int
                ].original_byte is Some
                &&& old(self).spec_resolved_address(location@, address)
            },
            report matches Report::InvalidBreakpoint(address) ==> old(self).spec_resolved_address(
                location@,
                address,
            ),
            (old(self).spec_inferior() is None && !(report == Report::InvalidAddress || report
                == Report::InvalidLine || report == Report::UnknownLocation)) ==> report matches
                Report::BreakpointSet { .. },
            report matches Report::InvalidBreakpoint(_) ==> old(self).spec_inferior() is Some
                && final(self).spec_breakpoints() == old(self).spec_breakpoints(),
    {
        proof {
            use_type_invariant(&self.breakpoints);
        }
        let len = location.unicode_len();
        if len >= 1 && location.get_char(0) == '*' {
            let rest = location.substring_char(1, len);
            proof {
                assert(rest@ =~= location@.skip(1));
            }
            match parse_address(rest) {
                Some(address) => self.install_breakpoint(address),
                None => Report::InvalidAddress,
            }
        } else {
            proof {
                assert(location@.skip(0) =~= location@);
            }
            match parse_unsigned(location, 0, 10) {
                Some(line) => {
                    let mut hint = self.target.clone();
                    hint.append(".c");
                    proof {
                        assert(hint@ == old(self).spec_file_hint());
                    }
                    match self.symbols.address_of_line(hint.as_str(), line) {
                        Some(address) => self.install_breakpoint(address),
                        None => Report::InvalidLine,
                    }
                },
                None => {
                    match self.symbols.address_of_function(location) {
                        Some(address) => self.install_breakpoint(address),
                        None => Report::UnknownLocation,
                    }
                },
            }
        }
    }

    /// Record a breakpoint at an already resolved address and, if a process
    /// is alive, patch the trap byte into it at once.  With no process
    /// alive this always succeeds; recording is pure bookkeeping.
    fn install_breakpoint(&mut self, address: usize) -> (report: Report)
        requires
            old(self).wf(),
        ensures
            final(self).wf(),
            final(self).spec_target() == old(self).spec_target(),
            final(self).spec_symbols() == old(self).spec_symbols(),
            final(self).spec_inferior() == old(self).spec_inferior(),
            addresses_unique(final(self).spec_breakpoints()),
            (report matches Report::BreakpointSet { id: _, address: a } && a == address) || (
            report matches Report::InvalidBreakpoint(a) && a == address),
            old(self).spec_inferior() is None ==> report matches Report::BreakpointSet { .. },
            report matches Report::BreakpointSet { .. } ==> {
                &&& (final(self).spec_breakpoints().len() == old(self).spec_breakpoints().len()
                    || final(self).spec_breakpoints().len() == old(self).spec_breakpoints().len()
                    + 1)
                &&& forall|k: int|
                    0 <= k < old(self).spec_breakpoints().len() ==> final(self).spec_breakpoints()[k].address == old(self).spec_breakpoints()[k].address
            },
            report matches Report::BreakpointSet { id, address: a } ==> {
                &&& id < final(self).spec_breakpoints().len()
                &&& final(self).spec_breakpoints()[id as int].address == a
                &&& old(self).spec_inferior() is Some ==> final(self).spec_breakpoints()[
                    id as int
                ].original_byte is Some
                &&& (forall|k: int|
                    0 <= k < old(self).spec_breakpoints().len() ==> old(self).spec_breakpoints()[k].address != a) ==> (id == old(self).spec_breakpoints().len() && final(self).spec_breakpoints().len() == old(self).spec_breakpoints().len() + 1)
            },
            report matches Report::InvalidBreakpoint(_) ==> old(self).spec_inferior() is Some
                && final(self).spec_breakpoints() == old(self).spec_breakpoints(),
    {
        proof {
            use_type_invariant(&self.breakpoints);
        }
        match &mut self.inferior {
            None => {
                let id = self.breakpoints.set(address);
                proof {
                    self.breakpoints.lemma_index_determined(address, id as int);
                }
                Report::BreakpointSet { id, address }
            },
            Some(inferior) => {
                match inferior.write_byte(address, TRAP_BYTE) {
                    Ok(original) => {
                        let id = self.breakpoints.set(address);
                        proof {
                            self.breakpoints.lemma_index_determined(address, id as int);
                        }
                        self.breakpoints.record_original(address, original);
                        proof {
                            self.breakpoints.lemma_index_determined(address, id as int);
                        }
                        Report::BreakpointSet { id, address }
                    },
                    Err(_) => Report::InvalidBreakpoint(address),
                }
            },
        }
    }

    /// Take control of the freshly spawned traced child (or register that
    /// the spawn failed), install the recorded breakpoints, and resume it
    /// for the first time, reporting what happened.
    pub fn on_spawned(&mut self, pid: Option<i32>) -> (report: Report)
        requires
            old(self).wf(),
        ensures
            final(self).wf(),
            final(self).spec_target() == old(self).spec_target(),
            final(self).spec_symbols() == old(self).spec_symbols(),
            addresses_unique(final(self).spec_breakpoints()),
            final(self).spec_breakpoints().len() == old(self).spec_breakpoints().len(),
            forall|k: int|
                0 <= k < old(self).spec_breakpoints().len() ==> final(self).spec_breakpoints()[k].address == old(self).spec_breakpoints()[k].address,
            pid is None ==> report == Report::SpawnFailed,
            report == Report::SpawnFailed ==> final(self).spec_inferior() is None,
            (report matches Report::Exited(_) || report matches Report::TerminatedBySignal(_))
                ==> final(self).spec_inferior() is None,
            report matches Report::Stopped { signal, address, function, location } ==> {
                &&& final(self).spec_inferior() is Some
                &&& final(self).spec_symbols().resolved_name_at(address, function)
                &&& final(self).spec_symbols().resolved_location_at(address, location)
            },
    {
        proof {
            use_type_invariant(&self.breakpoints);
        }
        self.kill_inferior();
        match pid {
            None => Report::SpawnFailed,
            Some(p) => {
                match Inferior::new(p, &mut self.breakpoints) {
                    Err(_) => Report::SpawnFailed,
                    Ok(inferior) => {
                        self.inferior = Some(inferior);
                        self.handle_continue()
                    },
                }
            },
        }
    }
}

} // verus!
