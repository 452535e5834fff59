use clg::{AlreadyInstalledError, ConsoleLogger, Level, LogLevel, LoggerSlot};

#[test]
fn second_install_fails() {
    let mut slot = LoggerSlot::new();
    assert_eq!(ConsoleLogger(LogLevel::Info).real_init(&mut LoggerSlot::new()), Ok(()));
    let first = ConsoleLogger::init(&mut slot, Some(LogLevel::Debug));
    assert_eq!(first.level(), LogLevel::Debug);
    assert_eq!(slot.installed(), Some(LogLevel::Debug));
    assert_eq!(ConsoleLogger(LogLevel::Warn).real_init(&mut slot), Err(AlreadyInstalledError));
    assert_eq!(ConsoleLogger(LogLevel::Trace).real_init(&mut slot), Err(AlreadyInstalledError));
    assert_eq!(slot.installed(), Some(LogLevel::Debug));
}

#[test]
fn default_threshold_is_info() {
    let mut slot = LoggerSlot::new();
    let logger = ConsoleLogger::init(&mut slot, None);
    assert_eq!(logger.level(), LogLevel::Info);
    assert_eq!(slot.installed(), Some(LogLevel::Info));
    assert_eq!(ConsoleLogger::default().level(), LogLevel::Info);
}

#[test]
fn off_is_never_installed() {
    let mut slot = LoggerSlot::new();
    let logger = ConsoleLogger::init(&mut slot, Some(LogLevel::Off));
    assert_eq!(slot.installed(), None);
    for l in [Level::Error, Level::Warn, Level::Info, Level::Debug, Level::Trace] {
        assert!(!logger.enabled(l));
    }
    let mut full = LoggerSlot::new();
    ConsoleLogger(LogLevel::Error).real_init(&mut full).unwrap();
    assert_eq!(ConsoleLogger::init(&mut full, Some(LogLevel::Off)).level(), LogLevel::Off);
    assert_eq!(full.installed(), Some(LogLevel::Error));
}

#[test]
fn loose_loggers_leave_the_slot_alone() {
    let mut slot = LoggerSlot::new();
    ConsoleLogger::init(&mut slot, Some(LogLevel::Warn));
    let loose = ConsoleLogger(LogLevel::Trace);
    assert_eq!(loose.get_level(), "Trace");
    assert_eq!(loose.get_level_num(), 5);
    assert!(loose.enabled(Level::Trace));
    loose.flush();
    assert_eq!(slot.installed(), Some(LogLevel::Warn));
}

#[test]
fn level_accessors() {
    let l = ConsoleLogger(LogLevel::Warn);
    assert_eq!(l.get_level(), "Warn");
    assert_eq!(l.get_level_num(), 2);
    assert_eq!(ConsoleLogger(LogLevel::Off).get_level_num(), 0);
    assert!(l.enabled(Level::Error));
    assert!(!l.enabled(Level::Info));
}
