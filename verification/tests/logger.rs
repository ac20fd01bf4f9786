use sbi_console::{
    init, InitError, Level, LevelFilter, Metadata, Record, Registration, SimpleLogger,
};

const LEVELS: [Level; 5] = [Level::Error, Level::Warn, Level::Info, Level::Debug, Level::Trace];

fn codes_of(text: &str) -> Vec<usize> {
    text.chars().map(|c| c as usize).collect()
}

fn logged(level: Level, message: &str) -> Vec<usize> {
    SimpleLogger.log(&Record { level, target: "kernel", message })
}

#[test]
fn log_error_line() {
    assert_eq!(logged(Level::Error, "boot failed"), codes_of("\x1b[31m[ERROR] boot failed\n\x1b[0m"));
}

#[test]
fn log_warn_line() {
    assert_eq!(logged(Level::Warn, "m"), codes_of("\x1b[93m[ WARN] m\n\x1b[0m"));
}

#[test]
fn log_info_line() {
    assert_eq!(logged(Level::Info, "m"), codes_of("\x1b[34m[ INFO] m\n\x1b[0m"));
}

#[test]
fn log_debug_line() {
    assert_eq!(logged(Level::Debug, "m"), codes_of("\x1b[32m[DEBUG] m\n\x1b[0m"));
}

#[test]
fn log_trace_line() {
    assert_eq!(logged(Level::Trace, "m"), codes_of("\x1b[90m[TRACE] m\n\x1b[0m"));
}

#[test]
fn log_lines_follow_each_other_in_call_order() {
    let mut calls = SimpleLogger.log(&Record { level: Level::Info, target: "a", message: "one" });
    calls.extend(SimpleLogger.log(&Record { level: Level::Warn, target: "b", message: "two" }));
    assert_eq!(calls, codes_of("\x1b[34m[ INFO] one\n\x1b[0m\x1b[93m[ WARN] two\n\x1b[0m"));
}

#[test]
fn log_same_record_twice_gives_the_same_line_twice() {
    let record = Record { level: Level::Debug, target: "t", message: "again" };
    let first = SimpleLogger.log(&record);
    let second = SimpleLogger.log(&record);
    assert_eq!(first, second);
    assert_eq!(first, codes_of("\x1b[32m[DEBUG] again\n\x1b[0m"));
}

#[test]
fn log_ignores_the_target() {
    let a = SimpleLogger.log(&Record { level: Level::Info, target: "mm", message: "x" });
    let b = SimpleLogger.log(&Record { level: Level::Info, target: "", message: "x" });
    assert_eq!(a, b);
}

#[test]
fn log_of_an_empty_message() {
    assert_eq!(logged(Level::Error, ""), codes_of("\x1b[31m[ERROR] \n\x1b[0m"));
}

#[test]
fn log_is_what_print_makes_of_the_rendered_line() {
    for level in LEVELS {
        let line = sbi_console::render(level, "caf\u{e9}");
        assert_eq!(logged(level, "caf\u{e9}"), sbi_console::print(&line));
    }
}

#[test]
fn enabled_for_every_level_and_target() {
    for level in LEVELS {
        for target in ["", "kernel", "mm::frame", "\u{4e16}\u{754c}"] {
            assert!(SimpleLogger.enabled(&Metadata { level, target }));
        }
    }
}

#[test]
fn enabled_after_init_too() {
    let mut state = Registration::new();
    assert_eq!(init(&mut state), Ok(()));
    for level in LEVELS {
        assert!(SimpleLogger.enabled(&Metadata { level, target: "kernel" }));
    }
}

#[test]
fn metadata_of_a_record() {
    let record = Record { level: Level::Warn, target: "fs", message: "full" };
    let metadata = record.metadata();
    assert_eq!(metadata.level, Level::Warn);
    assert_eq!(metadata.target, "fs");
}

#[test]
fn flush_transmits_nothing() {
    assert!(SimpleLogger.flush().is_empty());
    let _ = logged(Level::Info, "pending?");
    assert!(SimpleLogger.flush().is_empty());
}

#[test]
fn new_registration_is_empty() {
    let state = Registration::new();
    assert_eq!(state.logger, None);
    assert_eq!(state.max_level, LevelFilter::Off);
}

#[test]
fn init_registers_and_opens_the_filter() {
    let mut state = Registration::new();
    assert_eq!(init(&mut state), Ok(()));
    assert_eq!(state.logger, Some(SimpleLogger));
    assert_eq!(state.max_level, LevelFilter::Trace);
}

#[test]
fn init_twice_fails_and_keeps_the_first_registration() {
    let mut state = Registration::new();
    assert_eq!(init(&mut state), Ok(()));
    let after_first = state;
    assert_eq!(init(&mut state), Err(InitError::AlreadyRegistered));
    assert_eq!(state, after_first);
    assert_eq!(init(&mut state), Err(InitError::AlreadyRegistered));
    assert_eq!(state, after_first);
}

#[test]
fn init_on_a_registered_state_leaves_its_filter() {
    let mut state = Registration { logger: Some(SimpleLogger), max_level: LevelFilter::Warn };
    assert_eq!(init(&mut state), Err(InitError::AlreadyRegistered));
    assert_eq!(state, Registration { logger: Some(SimpleLogger), max_level: LevelFilter::Warn });
}
