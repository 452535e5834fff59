use clg::{channel_for, get_offset_time, pick_time, render, Channel, ConsoleLogger, Level, LogLevel, LogRecord, Timestamp};

fn strip_styles(s: &str) -> String {
    let mut out = String::new();
    let mut chars = s.chars();
    while let Some(c) = chars.next() {
        if c == '\x1b' {
            for d in chars.by_ref() {
                if d == 'm' {
                    break;
                }
            }
        } else {
            out.push(c);
        }
    }
    out
}

fn stamp(is_utc: bool) -> Timestamp {
    Timestamp { hour: 9, minute: 5, second: 3, millisecond: 7, is_utc }
}

#[test]
fn render_utc_line() {
    let line = render(Level::Error, &stamp(true), "app::net", 42, "boom");
    assert_eq!(strip_styles(&line), "09:05:03.007Z [Error] app::net:42 boom");
    assert_eq!(line, "09:05:03.007Z [\x1b[31;1mError\x1b[0m] app::net:\x1b[34m42\x1b[39m boom");
}

#[test]
fn render_local_line_has_no_suffix() {
    let line = render(Level::Error, &stamp(false), "app::net", 42, "boom");
    assert_eq!(strip_styles(&line), "09:05:03.007 [Error] app::net:42 boom");
}

#[test]
fn render_styles_each_level() {
    let t = Timestamp { hour: 23, minute: 59, second: 59, millisecond: 999, is_utc: false };
    assert_eq!(render(Level::Warn, &t, "m", 0, "x"), "23:59:59.999 [\x1b[33;1mWarn\x1b[0m] m:\x1b[34m0\x1b[39m x");
    assert!(render(Level::Info, &t, "", 7, "").contains("[\x1b[32mInfo\x1b[0m]"));
    assert!(render(Level::Debug, &t, "", 7, "").contains("[\x1b[34mDebug\x1b[0m]"));
    assert!(render(Level::Trace, &t, "", 7, "").contains("[\x1b[36mTrace\x1b[0m]"));
    assert!(render(Level::Trace, &t, "", 4294967295, "").contains(":\x1b[34m4294967295\x1b[39m "));
}

#[test]
fn dispatch_routes_by_ordinal() {
    assert_eq!(channel_for(1), Channel::Error);
    assert_eq!(channel_for(2), Channel::Warn);
    assert_eq!(channel_for(3), Channel::Info);
    assert_eq!(channel_for(4), Channel::Info);
    assert_eq!(channel_for(5), Channel::Trace);
    assert_eq!(channel_for(0), Channel::Trace);
    assert_eq!(channel_for(17), Channel::Trace);
}

#[test]
fn output_pairs_channel_and_text() {
    let l = ConsoleLogger::output(LogLevel::Debug.to_ordinal(), "dbg message");
    assert_eq!(l.channel, Channel::Info);
    assert_eq!(l.text, "dbg message");
    assert_eq!(ConsoleLogger::output(2, "w").channel, Channel::Warn);
}

#[test]
fn format_record_defaults_module_and_line() {
    let logger = ConsoleLogger(LogLevel::Trace);
    let rec = LogRecord { level: Level::Debug, module: None, line: None, message: "hi".to_string() };
    let l = logger.format_record(&rec, &stamp(true)).unwrap();
    assert_eq!(l.channel, Channel::Info);
    assert_eq!(strip_styles(&l.text), "09:05:03.007Z [Debug] :0 hi");
}

#[test]
fn format_record_skips_filtered_records() {
    let logger = ConsoleLogger(LogLevel::Warn);
    let rec = LogRecord { level: Level::Info, module: Some("a".to_string()), line: Some(1), message: "m".to_string() };
    assert!(logger.format_record(&rec, &stamp(true)).is_none());
    assert!(logger.log(&rec).is_none());
}

#[test]
fn log_uses_the_clock() {
    let logger = ConsoleLogger(LogLevel::Info);
    let rec = LogRecord { level: Level::Error, module: Some("app::net".to_string()), line: Some(42), message: "boom".to_string() };
    let l = logger.log(&rec).unwrap();
    assert_eq!(l.channel, Channel::Error);
    let plain = strip_styles(&l.text);
    assert!(plain.ends_with(" [Error] app::net:42 boom"));
    assert_eq!(&plain[2..3], ":");
    assert_eq!(&plain[8..9], ".");
}

#[test]
fn clock_gives_a_valid_time() {
    let t = get_offset_time();
    assert!(t.hour < 24 && t.minute < 60 && t.second < 60 && t.millisecond < 1000);
}

#[test]
fn record_levels_route_to_their_channels() {
    let routed: Vec<Channel> = [Level::Error, Level::Warn, Level::Info, Level::Debug, Level::Trace]
        .iter()
        .map(|l| channel_for(l.to_ordinal()))
        .collect();
    assert_eq!(routed, vec![Channel::Error, Channel::Warn, Channel::Info, Channel::Info, Channel::Trace]);
}

#[test]
fn pick_time_prefers_the_local_reading() {
    let local = Timestamp { hour: 11, minute: 30, second: 0, millisecond: 250, is_utc: false };
    let utc = Timestamp { hour: 9, minute: 30, second: 0, millisecond: 250, is_utc: true };
    assert_eq!(pick_time(Some(local), utc), local);
}

#[test]
fn pick_time_falls_back_to_utc() {
    let utc = Timestamp { hour: 9, minute: 30, second: 0, millisecond: 250, is_utc: true };
    let t = pick_time(None, utc);
    assert_eq!(t, utc);
    assert!(t.is_utc);
}
