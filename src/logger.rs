use vstd::prelude::*;
use vstd::string::StringExecFns;
use crate::clock::{get_offset_time, Timestamp};
use crate::console::{channel_for, channel_of, ConsoleLine};
use crate::format::{render, rendered};
use crate::log_level::{Level, LogLevel};

verus! {

/// A logger: the threshold that records must pass to be shown.
#[derive(Clone, Copy, PartialEq, Eq, Structural, PartialOrd, Ord, Debug, Hash)]
pub struct ConsoleLogger(pub LogLevel);

/// One record to log.
#[derive(Clone, Debug, PartialEq, Eq)]
pub struct LogRecord {
    pub level: Level,
    /// The module that emitted the record, where known.
    pub module: Option<String>,
    /// The source line that emitted the record, where known.
    pub line: Option<u32>,
    pub message: String,
}

/// A global logger is already installed.
#[derive(Clone, Copy, PartialEq, Eq, Structural, Debug, Hash)]
pub struct AlreadyInstalledError;

/// The process-wide slot of the active logger: it is written at most once.
#[derive(Debug)]
pub struct LoggerSlot {
    active: Option<LogLevel>,
}

impl View for LoggerSlot {
    /// The threshold of the installed logger, if one is installed.
    type V = Option<LogLevel>;

    closed spec fn view(&self) -> Option<LogLevel> {
        self.active
    }
}

/// An install into `slot` succeeds.
pub open spec fn install_succeeds(slot: Option<LogLevel>) -> bool {
    slot is None
}

/// The slot after an attempt to install a logger with threshold `level`.
pub open spec fn slot_after_install(slot: Option<LogLevel>, level: LogLevel) -> Option<LogLevel> {
    if slot is None {
        Some(level)
    } else {
        slot
    }
}

/// The threshold that `ConsoleLogger::init` gives: `Info` where none is given.
pub open spec fn threshold_of(level: Option<LogLevel>) -> LogLevel {
    match level {
        Some(l) => l,
        None => LogLevel::Info,
    }
}

/// `ConsoleLogger::init` installs a logger: it does unless the threshold is `Off`.
pub open spec fn init_installs(level: Option<LogLevel>) -> bool {
    level != Some(LogLevel::Off)
}

/// The text of `record` rendered at time `now`: an unknown module is empty and
/// an unknown line is 0.
pub open spec fn record_text(record: LogRecord, now: Timestamp) -> Seq<char> {
    rendered(
        record.level,
        now,
        match record.module {
            Some(m) => m@,
            None => Seq::empty(),
        },
        match record.line {
            Some(n) => n as nat,
            None => 0,
        },
        record.message@,
    )
}

impl LoggerSlot {
    /// An empty slot: no logger installed.
    pub fn new() -> (r: LoggerSlot)
        ensures
            r@ is None,
    {
        LoggerSlot { active: None }
    }

    /// The threshold of the installed logger, if one is installed.
    pub fn installed(&self) -> (r: Option<LogLevel>)
        ensures
            r == self@,
    {
        self.active
    }
}

impl ConsoleLogger {
    /// The threshold.
    pub open spec fn threshold(self) -> LogLevel {
        self.0
    }

    /// A logger with threshold `level`, or `Info` where none is given, installed
    /// into `slot` unless the threshold is `Off`. A second installation is
    /// fatal, so a slot that already holds a logger is not accepted for an
    /// installing level.
    pub fn init(slot: &mut LoggerSlot, level: Option<LogLevel>) -> (r: ConsoleLogger)
        requires
            init_installs(level) ==> install_succeeds(old(slot)@),
        ensures
            final(slot)@ == if init_installs(level) {
                slot_after_install(old(slot)@, threshold_of(level))
            } else {
                old(slot)@
            },
            init_installs(level) ==> final(slot)@ == Some(threshold_of(level)),
            r.0 == threshold_of(level),
    {
        let instance = match level {
            Some(LogLevel::Off) => return ConsoleLogger(LogLevel::Off),
            Some(lv) => ConsoleLogger(lv),
            None => ConsoleLogger::default(),
        };
        let installed = instance.real_init(slot);
        assert(installed is Ok);
        instance
    }

    /// Installs this logger into `slot`, which fixes the process-wide threshold
    /// to this logger's. Fails, leaving the slot as it is, where a logger is
    /// already installed.
    pub fn real_init(self, slot: &mut LoggerSlot) -> (r: Result<(), AlreadyInstalledError>)
        ensures
            r is Ok <==> install_succeeds(old(slot)@),
            final(slot)@ == slot_after_install(old(slot)@, self.0),
    {
        if slot.active.is_some() {
            Err(AlreadyInstalledError)
        } else {
            slot.active = Some(self.0);
            Ok(())
        }
    }

    /// The threshold.
    pub fn level(&self) -> (r: LogLevel)
        ensures
            r == self.0,
    {
        self.0
    }

    /// The name of the threshold.
    pub fn get_level(&self) -> (r: String)
        ensures
            r@ == self.0.name(),
    {
        String::from_str(self.0.to_text())
    }

    /// The threshold as a number: Off is 0, Error 1, Warn 2, Info 3, Debug 4,
    /// Trace 5.
    pub fn get_level_num(&self) -> (r: usize)
        ensures
            r == self.0.ordinal(),
    {
        self.0.to_ordinal()
    }

    /// A record of severity `level` passes this logger.
    pub fn enabled(&self, level: Level) -> (r: bool)
        ensures
            r == level.enabled_under(self.0),
    {
        level.is_enabled_under(self.0)
    }

    /// The console channel for `level` (see `channel_of`), with `content`.
    pub fn output(level: usize, content: &str) -> (r: ConsoleLine)
        ensures
            r.channel == channel_of(level as nat),
            r.text@ == content@,
    {
        ConsoleLine { channel: channel_for(level), text: String::from_str(content) }
    }

    /// The line that logging `record` at time `now` shows, or `None` where the
    /// record does not pass this logger.
    pub fn format_record(&self, record: &LogRecord, now: &Timestamp) -> (r: Option<ConsoleLine>)
        requires
            now.wf(),
        ensures
            r is Some <==> record.level.enabled_under(self.0),
            r matches Some(l) ==> l.channel == channel_of(record.level.ordinal()) && l.text@ == record_text(*record, *now),
    {
        if !self.enabled(record.level) {
            return None;
        }
        let module: &str = match &record.module {
            Some(m) => m.as_str(),
            None => "",
        };
        let line: u32 = match record.line {
            Some(n) => n,
            None => 0,
        };
        let text = render(record.level, now, module, line, record.message.as_str());
        proof {
            reveal_strlit("");
        }
        assert(text@ == record_text(*record, *now));
        Some(Self::output(record.level.to_ordinal(), text.as_str()))
    }

    /// Logs `record` at the present time of day: the line to show, or `None`
    /// where the record does not pass this logger.
    pub fn log(&self, record: &LogRecord) -> (r: Option<ConsoleLine>)
        ensures
            r is Some <==> record.level.enabled_under(self.0),
            r matches Some(l) ==> l.channel == channel_of(record.level.ordinal()) && exists|now: Timestamp|
                now.wf() && l.text@ == #[trigger] record_text(*record, now),
    {
        if !self.enabled(record.level) {
            return None;
        }
        let now = get_offset_time();
        self.format_record(record, &now)
    }

    /// Nothing is buffered, so there is nothing to flush.
    pub fn flush(&self) {
    }
}

impl Default for ConsoleLogger {
    /// A logger with threshold `Info`.
    fn default() -> (r: ConsoleLogger)
        ensures
            r.0 == LogLevel::Info,
    {
        ConsoleLogger(LogLevel::Info)
    }
}

/// Install-once: after an install succeeds, a second install into the same
/// slot fails and leaves the first logger in place.
pub proof fn lemma_install_once(slot: Option<LogLevel>, first: LogLevel, second: LogLevel)
    requires
        install_succeeds(slot),
    ensures
        slot_after_install(slot, first) == Some(first),
        !install_succeeds(slot_after_install(slot, first)),
        slot_after_install(slot_after_install(slot, first), second) == Some(first),
{
}

/// A threshold of `Off` installs nothing and lets no record through.
pub proof fn lemma_off_never_installs(level: Level)
    ensures
        !init_installs(Some(LogLevel::Off)),
        threshold_of(Some(LogLevel::Off)) == LogLevel::Off,
        !level.enabled_under(LogLevel::Off),
{
}

} // verus!
