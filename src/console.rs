use vstd::prelude::*;
use crate::log_level::Level;

verus! {

/// The console functions a log line can go to. The host console often lacks
/// a channel of its own for debug output, so Debug shares the info channel.
#[derive(Clone, Copy, PartialEq, Eq, Structural, Debug, Hash)]
pub enum Channel {
    Error,
    Warn,
    Info,
    Trace,
}

/// 1 goes to the error channel, 2 to warn, 3 and 4 to info, anything else to
/// trace.
pub open spec fn channel_of(level: nat) -> Channel {
    if level == 1 {
        Channel::Error
    } else if level == 2 {
        Channel::Warn
    } else if level == 3 || level == 4 {
        Channel::Info
    } else {
        Channel::Trace
    }
}

pub fn channel_for(level: usize) -> (r: Channel)
    ensures
        r == channel_of(level as nat),
{
    match level {
        1 => Channel::Error,
        2 => Channel::Warn,
        3 | 4 => Channel::Info,
        _ => Channel::Trace,
    }
}

/// One line, and the console channel that is to show it.
#[derive(Clone, Debug, PartialEq, Eq)]
pub struct ConsoleLine {
    pub channel: Channel,
    pub text: String,
}

/// Routing of record severities: every record has an ordinal from 1 to 5, so
/// the ordinal of `Off` never reaches dispatch; Error goes only to the error
/// channel, Warn only to warn, Info and Debug to the same info channel, and
/// Trace to trace.
pub proof fn lemma_routing(level: Level)
    ensures
        1 <= level.ordinal() <= 5,
        channel_of(level.ordinal()) == Channel::Error <==> level == Level::Error,
        channel_of(level.ordinal()) == Channel::Warn <==> level == Level::Warn,
        channel_of(level.ordinal()) == Channel::Info <==> (level == Level::Info || level == Level::Debug),
        channel_of(level.ordinal()) == Channel::Trace <==> level == Level::Trace,
{
}

} // verus!
