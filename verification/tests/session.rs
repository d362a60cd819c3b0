use deet::debugger::{Action, Command, Debugger, Report};
use deet::inferior::Status;
use deet::symbols::SymbolTable;

fn fresh_session() -> Debugger {
    let mut symbols = SymbolTable::new();
    symbols.add_function(String::from("main"), 0x1000, 0x1100);
    symbols.add_line(String::from("prog.c"), 12, 0x1040);
    Debugger::new(String::from("prog"), symbols)
}

#[test]
fn continue_without_process_reports_no_process() {
    let mut session = fresh_session();
    assert!(!session.has_inferior());
    let action = session.handle_command(Command::Continue);
    assert_eq!(action, Action::Report(Report::NoProcess));
    // Still no process: asking again reports the same.
    let action = session.handle_command(Command::Continue);
    assert_eq!(action, Action::Report(Report::NoProcess));
}

#[test]
fn backtrace_without_process_reports_no_process() {
    let mut session = fresh_session();
    let action = session.handle_command(Command::Backtrace);
    assert_eq!(action, Action::Report(Report::NoProcess));
}

#[test]
fn breakpoints_before_any_process_are_recorded() {
    let mut session = fresh_session();
    let action = session.handle_command(Command::Break(String::from("*0x2000")));
    assert_eq!(action, Action::Report(Report::BreakpointSet { id: 0, address: 0x2000 }));
    // Same address again: same record, same number.
    let action = session.handle_command(Command::Break(String::from("*0x2000")));
    assert_eq!(action, Action::Report(Report::BreakpointSet { id: 0, address: 0x2000 }));
    assert_eq!(session.breakpoint_count(), 1);
    let action = session.handle_command(Command::Break(String::from("*0x3000")));
    assert_eq!(action, Action::Report(Report::BreakpointSet { id: 1, address: 0x3000 }));
    assert_eq!(session.breakpoint_count(), 2);
}

#[test]
fn break_locations_resolve_three_ways() {
    let mut session = fresh_session();
    // Raw address.
    let action = session.handle_command(Command::Break(String::from("*0x2000")));
    assert_eq!(action, Action::Report(Report::BreakpointSet { id: 0, address: 0x2000 }));
    // Line number, resolved through the line table against prog.c.
    let action = session.handle_command(Command::Break(String::from("12")));
    assert_eq!(action, Action::Report(Report::BreakpointSet { id: 1, address: 0x1040 }));
    // Function name, resolved to its entry address.
    let action = session.handle_command(Command::Break(String::from("main")));
    assert_eq!(action, Action::Report(Report::BreakpointSet { id: 2, address: 0x1000 }));
}

#[test]
fn bad_break_locations_are_rejected() {
    let mut session = fresh_session();
    let action = session.handle_command(Command::Break(String::from("*zz")));
    assert_eq!(action, Action::Report(Report::InvalidAddress));
    let action = session.handle_command(Command::Break(String::from("999")));
    assert_eq!(action, Action::Report(Report::InvalidLine));
    let action = session.handle_command(Command::Break(String::from("absent")));
    assert_eq!(action, Action::Report(Report::UnknownLocation));
    assert_eq!(session.breakpoint_count(), 0);
}

#[test]
fn run_asks_the_front_end_to_spawn() {
    let mut session = fresh_session();
    let args = vec![String::from("3")];
    let action = session.handle_command(Command::Run(args.clone()));
    assert_eq!(action, Action::Spawn { target: String::from("prog"), args });
    assert!(!session.has_inferior());
}

#[test]
fn failed_spawn_is_reported_and_leaves_no_process() {
    let mut session = fresh_session();
    assert_eq!(session.on_spawned(None), Report::SpawnFailed);
    assert!(!session.has_inferior());
    let action = session.handle_command(Command::Continue);
    assert_eq!(action, Action::Report(Report::NoProcess));
}

#[test]
fn attaching_to_a_nonexistent_child_fails_the_run() {
    let mut session = fresh_session();
    // No such child process: the initial wait fails, the run attempt is
    // abandoned, the session stays usable.
    assert_eq!(session.on_spawned(Some(-1)), Report::SpawnFailed);
    assert!(!session.has_inferior());
    assert_eq!(session.handle_command(Command::Continue), Action::Report(Report::NoProcess));
}

#[test]
fn kill_is_idempotent_on_a_process_free_session() {
    let mut session = fresh_session();
    session.kill_inferior();
    session.kill_inferior();
    assert!(!session.has_inferior());
}

#[test]
fn quit_tears_down_and_exits() {
    let mut session = fresh_session();
    let action = session.handle_command(Command::Quit);
    assert_eq!(action, Action::Exit);
    assert!(!session.has_inferior());
    // Quit again: still a clean exit.
    let action = session.handle_command(Command::Quit);
    assert_eq!(action, Action::Exit);
}

#[test]
fn status_reports_carry_payloads_and_resolution() {
    let session = fresh_session();
    assert_eq!(session.status_report(Status::Exited(0)), Report::Exited(0));
    assert_eq!(session.status_report(Status::Signaled(11)), Report::TerminatedBySignal(11));
    assert_eq!(
        session.status_report(Status::Stopped(5, 0x1000)),
        Report::Stopped {
            signal: 5,
            address: 0x1000,
            function: Some(String::from("main")),
            location: None,
        }
    );
}
