use deet::debugger::{parse_address, Command};
use deet::inferior::{status_of_outcome, ControlError, Status};
use deet::text::{parse_unsigned, str_eq};
use deet::trace::WaitOutcome;
use deet::Main;

#[test]
fn parse_address_accepts_hex_with_and_without_prefix() {
    assert_eq!(parse_address("0x1234"), Some(0x1234));
    assert_eq!(parse_address("0X00ff"), Some(0xff));
    assert_eq!(parse_address("1234"), Some(0x1234));
    assert_eq!(parse_address("deadBEEF"), Some(0xdead_beef));
    assert_eq!(parse_address("0"), Some(0));
}

#[test]
fn parse_address_rejects_junk() {
    assert_eq!(parse_address(""), None);
    assert_eq!(parse_address("0x"), None);
    assert_eq!(parse_address("zz"), None);
    assert_eq!(parse_address("0x12g4"), None);
    assert_eq!(parse_address("*0x10"), None);
    // Twenty hex digits cannot fit a 64-bit machine address.
    assert_eq!(parse_address("0xffffffffffffffffffff"), None);
}

#[test]
fn parse_unsigned_decimal() {
    assert_eq!(parse_unsigned("42", 0, 10), Some(42));
    assert_eq!(parse_unsigned("0", 0, 10), Some(0));
    assert_eq!(parse_unsigned("18446744073709551615", 0, 10), Some(usize::MAX));
    assert_eq!(parse_unsigned("18446744073709551616", 0, 10), None);
    assert_eq!(parse_unsigned("4a", 0, 10), None);
    assert_eq!(parse_unsigned("", 0, 10), None);
    assert_eq!(parse_unsigned("x42", 1, 10), Some(42));
}

#[test]
fn str_eq_compares_exactly() {
    assert!(str_eq("main", "main"));
    assert!(!str_eq("main", "Main"));
    assert!(!str_eq("main", "main2"));
    assert!(str_eq("", ""));
}

#[test]
fn commands_parse_from_tokens() {
    let tokens = |words: &[&str]| -> Vec<String> {
        words.iter().map(|w| String::from(*w)).collect()
    };
    assert_eq!(
        Command::from_tokens(&tokens(&["r", "3", "x"])),
        Some(Command::Run(vec![String::from("3"), String::from("x")]))
    );
    assert_eq!(Command::from_tokens(&tokens(&["run"])), Some(Command::Run(vec![])));
    assert_eq!(Command::from_tokens(&tokens(&["c"])), Some(Command::Continue));
    assert_eq!(Command::from_tokens(&tokens(&["continue"])), Some(Command::Continue));
    assert_eq!(Command::from_tokens(&tokens(&["bt"])), Some(Command::Backtrace));
    assert_eq!(Command::from_tokens(&tokens(&["backtrace"])), Some(Command::Backtrace));
    assert_eq!(
        Command::from_tokens(&tokens(&["b", "*0x100"])),
        Some(Command::Break(String::from("*0x100")))
    );
    assert_eq!(
        Command::from_tokens(&tokens(&["break", "main"])),
        Some(Command::Break(String::from("main")))
    );
    assert_eq!(Command::from_tokens(&tokens(&["q"])), Some(Command::Quit));
    assert_eq!(Command::from_tokens(&tokens(&["quit"])), Some(Command::Quit));
    assert_eq!(Command::from_tokens(&tokens(&[])), None);
    assert_eq!(Command::from_tokens(&tokens(&["frobnicate"])), None);
    assert_eq!(Command::from_tokens(&tokens(&["c", "extra"])), None);
    assert_eq!(Command::from_tokens(&tokens(&["b"])), None);
    assert_eq!(Command::from_tokens(&tokens(&["b", "x", "y"])), None);
}

#[test]
fn entry_point_wants_exactly_one_argument() {
    assert!(Main::args_are_valid(2));
    assert!(!Main::args_are_valid(1));
    assert!(!Main::args_are_valid(3));
}

#[test]
fn wait_outcomes_map_to_statuses() {
    assert_eq!(status_of_outcome(WaitOutcome::Exited(3), 0), Ok(Status::Exited(3)));
    assert_eq!(status_of_outcome(WaitOutcome::Signaled(9), 0), Ok(Status::Signaled(9)));
    assert_eq!(status_of_outcome(WaitOutcome::Stopped(5), 0x4018), Ok(Status::Stopped(5, 0x4018)));
    // The shape the blocking wait cannot legitimately produce is the one
    // error the session must abort on.
    assert_eq!(
        status_of_outcome(WaitOutcome::Unexpected, 0),
        Err(ControlError::UnexpectedWaitStatus)
    );
}
