//! A small logging engine for a host console: severity levels and their
//! names, the filtering rule, the layout of a log line, the choice of console
//! channel, and the one-time installation of a global logger.

pub mod clock;
pub mod console;
pub mod format;
pub mod log_level;
pub mod logger;

pub use clock::{get_offset_time, pick_time, Timestamp};
pub use console::{channel_for, Channel, ConsoleLine};
pub use format::{render, TagStyle};
pub use log_level::{new_log_level, Level, LogLevel};
pub use logger::{AlreadyInstalledError, ConsoleLogger, LogRecord, LoggerSlot};
