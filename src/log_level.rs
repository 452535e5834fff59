use vstd::prelude::*;
use vstd::string::StrSliceExecFns;

verus! {

/// The threshold of a logger, from least to most permissive.
#[derive(Clone, Copy, PartialEq, Eq, Structural, PartialOrd, Ord, Debug, Hash)]
pub enum LogLevel {
    Off,
    Error,
    Warn,
    Info,
    Debug,
    Trace,
}

/// The severity of a single record, from most to least severe.
#[derive(Clone, Copy, PartialEq, Eq, Structural, PartialOrd, Ord, Debug, Hash)]
pub enum Level {
    Error,
    Warn,
    Info,
    Debug,
    Trace,
}

impl LogLevel {
    /// Numeric encoding: Off is 0, Trace is 5.
    pub open spec fn ordinal(self) -> nat {
        match self {
            LogLevel::Off => 0,
            LogLevel::Error => 1,
            LogLevel::Warn => 2,
            LogLevel::Info => 3,
            LogLevel::Debug => 4,
            LogLevel::Trace => 5,
        }
    }

    /// The canonical, capitalized name.
    pub open spec fn name(self) -> Seq<char> {
        match self {
            LogLevel::Off => "Off"@,
            LogLevel::Error => "Error"@,
            LogLevel::Warn => "Warn"@,
            LogLevel::Info => "Info"@,
            LogLevel::Debug => "Debug"@,
            LogLevel::Trace => "Trace"@,
        }
    }

    pub fn to_ordinal(self) -> (r: usize)
        ensures
            r == self.ordinal(),
    {
        match self {
            LogLevel::Off => 0,
            LogLevel::Error => 1,
            LogLevel::Warn => 2,
            LogLevel::Info => 3,
            LogLevel::Debug => 4,
            LogLevel::Trace => 5,
        }
    }

    pub fn to_text(self) -> (r: &'static str)
        ensures
            r@ == self.name(),
    {
        match self {
            LogLevel::Off => "Off",
            LogLevel::Error => "Error",
            LogLevel::Warn => "Warn",
            LogLevel::Info => "Info",
            LogLevel::Debug => "Debug",
            LogLevel::Trace => "Trace",
        }
    }
}

impl Level {
    /// Numeric encoding, shared with `LogLevel`: Error is 1, Trace is 5.
    pub open spec fn ordinal(self) -> nat {
        match self {
            Level::Error => 1,
            Level::Warn => 2,
            Level::Info => 3,
            Level::Debug => 4,
            Level::Trace => 5,
        }
    }

    pub open spec fn name(self) -> Seq<char> {
        match self {
            Level::Error => "Error"@,
            Level::Warn => "Warn"@,
            Level::Info => "Info"@,
            Level::Debug => "Debug"@,
            Level::Trace => "Trace"@,
        }
    }

    /// A record of this severity passes a logger whose threshold is `threshold`.
    pub open spec fn enabled_under(self, threshold: LogLevel) -> bool {
        self.ordinal() <= threshold.ordinal()
    }

    pub fn to_ordinal(self) -> (r: usize)
        ensures
            r == self.ordinal(),
    {
        match self {
            Level::Error => 1,
            Level::Warn => 2,
            Level::Info => 3,
            Level::Debug => 4,
            Level::Trace => 5,
        }
    }

    pub fn to_text(self) -> (r: &'static str)
        ensures
            r@ == self.name(),
    {
        match self {
            Level::Error => "Error",
            Level::Warn => "Warn",
            Level::Info => "Info",
            Level::Debug => "Debug",
            Level::Trace => "Trace",
        }
    }

    pub fn is_enabled_under(self, threshold: LogLevel) -> (r: bool)
        ensures
            r == self.enabled_under(threshold),
    {
        self.to_ordinal() <= threshold.to_ordinal()
    }
}

/// The code of `c` once an ASCII capital letter is turned into its small letter.
pub open spec fn ascii_fold(c: char) -> u32 {
    if 'A' <= c && c <= 'Z' {
        ((c as u32) + 32) as u32
    } else {
        c as u32
    }
}

/// The two texts are equal once ASCII letters are compared without regard to case.
pub open spec fn same_ignoring_ascii_case(a: Seq<char>, b: Seq<char>) -> bool {
    a.len() == b.len() && forall|i: int| 0 <= i < a.len() ==> ascii_fold(#[trigger] a[i]) == ascii_fold(b[i])
}

/// The level whose name `s` spells in any letter case, if any.
pub open spec fn level_named(s: Seq<char>) -> Option<LogLevel> {
    if same_ignoring_ascii_case(s, LogLevel::Off.name()) {
        Some(LogLevel::Off)
    } else if same_ignoring_ascii_case(s, LogLevel::Error.name()) {
        Some(LogLevel::Error)
    } else if same_ignoring_ascii_case(s, LogLevel::Warn.name()) {
        Some(LogLevel::Warn)
    } else if same_ignoring_ascii_case(s, LogLevel::Info.name()) {
        Some(LogLevel::Info)
    } else if same_ignoring_ascii_case(s, LogLevel::Debug.name()) {
        Some(LogLevel::Debug)
    } else if same_ignoring_ascii_case(s, LogLevel::Trace.name()) {
        Some(LogLevel::Trace)
    } else {
        None
    }
}

/// Relies on `log::LevelFilter::from_str`: it accepts exactly the names
/// OFF, ERROR, WARN, INFO, DEBUG and TRACE, compared with
/// `str::eq_ignore_ascii_case`, and fails on any other text.
#[verifier::external_body]
fn parse_level_filter(s: &str) -> (r: Option<LogLevel>)
    ensures
        r == level_named(s@),
{
    match <log::LevelFilter as core::str::FromStr>::from_str(s) {
        Ok(log::LevelFilter::Off) => Some(LogLevel::Off),
        Ok(log::LevelFilter::Error) => Some(LogLevel::Error),
        Ok(log::LevelFilter::Warn) => Some(LogLevel::Warn),
        Ok(log::LevelFilter::Info) => Some(LogLevel::Info),
        Ok(log::LevelFilter::Debug) => Some(LogLevel::Debug),
        Ok(log::LevelFilter::Trace) => Some(LogLevel::Trace),
        Err(_) => None,
    }
}

/// Reads a level from its name in any letter case: off, error, warn, info,
/// debug or trace. Any other text gives `None`, and the caller picks a default.
pub fn new_log_level(s: &str) -> (r: Option<LogLevel>)
    ensures
        r == level_named(s@),
        r is None <==> forall|l: LogLevel| !same_ignoring_ascii_case(s@, #[trigger] l.name()),
        forall|l: LogLevel| same_ignoring_ascii_case(s@, #[trigger] l.name()) ==> r == Some(l),
{
    proof {
        lemma_level_named_complete(s@);
    }
    parse_level_filter(s)
}

/// Which level a text names, ignoring letter case, is read off the canonical
/// names: the text names `l` exactly when it spells `l.name()`.
pub proof fn lemma_level_named_complete(s: Seq<char>)
    ensures
        level_named(s) is None <==> forall|l: LogLevel| !same_ignoring_ascii_case(s, #[trigger] l.name()),
        forall|l: LogLevel| same_ignoring_ascii_case(s, #[trigger] l.name()) ==> level_named(s) == Some(l),
{
    reveal_strlit("Off");
    reveal_strlit("Error");
    reveal_strlit("Warn");
    reveal_strlit("Info");
    reveal_strlit("Debug");
    reveal_strlit("Trace");
    // The six names differ in their first letter, so a text spells at most one.
    assert forall|l: LogLevel| same_ignoring_ascii_case(s, #[trigger] l.name()) implies ascii_fold(s[0]) == ascii_fold(l.name()[0]) by {
        assert(0 < l.name().len());
    }
}

/// Parsing the canonical name of a level gives that level back.
pub proof fn lemma_parse_round_trip(l: LogLevel)
    ensures
        level_named(l.name()) == Some(l),
        level_named(l.name()).unwrap().ordinal() == l.ordinal(),
{
    lemma_level_named_complete(l.name());
    assert(same_ignoring_ascii_case(l.name(), l.name()));
}

/// Filtering is monotonic: when a record passes a threshold, every more severe
/// record passes it too.
pub proof fn lemma_enabled_monotonic(level1: Level, level2: Level, threshold: LogLevel)
    requires
        level1.ordinal() <= level2.ordinal(),
        level2.enabled_under(threshold),
    ensures
        level1.enabled_under(threshold),
{
}

/// The level whose canonical name is exactly `s`; any other text gives `Info`.
pub open spec fn level_of_exact_name(s: Seq<char>) -> LogLevel {
    if s == LogLevel::Off.name() {
        LogLevel::Off
    } else if s == LogLevel::Error.name() {
        LogLevel::Error
    } else if s == LogLevel::Warn.name() {
        LogLevel::Warn
    } else if s == LogLevel::Debug.name() {
        LogLevel::Debug
    } else if s == LogLevel::Trace.name() {
        LogLevel::Trace
    } else {
        LogLevel::Info
    }
}

fn same_text(a: &str, b: &str) -> (r: bool)
    ensures
        r == (a@ == b@),
{
    let n = a.unicode_len();
    if n != b.unicode_len() {
        return false;
    }
    let mut i: usize = 0;
    while i < n
        invariant
            n == a@.len(),
            n == b@.len(),
            i <= n,
            a@.subrange(0, i as int) == b@.subrange(0, i as int),
        decreases n - i,
    {
        if a.get_char(i) != b.get_char(i) {
            return false;
        }
        assert(a@.subrange(0, i + 1) =~= a@.subrange(0, i as int).push(a@[i as int]));
        assert(b@.subrange(0, i + 1) =~= b@.subrange(0, i as int).push(b@[i as int]));
        i = i + 1;
    }
    assert(a@ =~= a@.subrange(0, n as int));
    assert(b@ =~= b@.subrange(0, n as int));
    true
}

impl<'a> From<&'a str> for LogLevel {
    /// Reads a canonical, capitalized name; any other text gives `Info`.
    fn from(val: &'a str) -> (r: LogLevel)
        ensures
            r == level_of_exact_name(val@),
    {
        if same_text(val, "Off") {
            LogLevel::Off
        } else if same_text(val, "Error") {
            LogLevel::Error
        } else if same_text(val, "Warn") {
            LogLevel::Warn
        } else if same_text(val, "Debug") {
            LogLevel::Debug
        } else if same_text(val, "Trace") {
            LogLevel::Trace
        } else {
            LogLevel::Info
        }
    }
}

impl<'a> vstd::std_specs::convert::FromSpecImpl<&'a str> for LogLevel {
    open spec fn obeys_from_spec() -> bool {
        true
    }

    open spec fn from_spec(v: &'a str) -> LogLevel {
        level_of_exact_name(v@)
    }
}

} // verus!
