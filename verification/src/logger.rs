//! Leveled log entries: which messages a logger records, and how an entry
//! reads. Where the entries are written is up to the caller.

use vstd::prelude::*;
use vstd::string::*;

verus! {

/// The severity of a message, and the threshold of a logger.
#[derive(Debug, Clone, Copy, PartialEq, Eq, Structural)]
pub enum LogLevel {
    Info,
    Warning,
    Error,
}

impl LogLevel {
    /// The place of the level in the order of severity.
    pub open spec fn rank(self) -> nat {
        match self {
            LogLevel::Info => 0,
            LogLevel::Warning => 1,
            LogLevel::Error => 2,
        }
    }

    /// The word that marks an entry of this level.
    pub open spec fn label(self) -> Seq<char> {
        match self {
            LogLevel::Info => "INFO"@,
            LogLevel::Warning => "WARNING"@,
            LogLevel::Error => "ERROR"@,
        }
    }

    /// Whether a logger of this threshold records a message of the level
    /// `message`.
    pub fn precedes(self, message: LogLevel) -> (recorded: bool)
        ensures
            recorded == (message.rank() >= self.rank()),
    {
        match (self, message) {
            (LogLevel::Info, _) => true,
            (LogLevel::Warning, LogLevel::Info) => false,
            (LogLevel::Warning, _) => true,
            (LogLevel::Error, LogLevel::Error) => true,
            (LogLevel::Error, _) => false,
        }
    }

    /// The word that marks an entry of this level.
    pub fn word(self) -> (word: &'static str)
        ensures
            word@ == self.label(),
    {
        match self {
            LogLevel::Info => "INFO",
            LogLevel::Warning => "WARNING",
            LogLevel::Error => "ERROR",
        }
    }
}

/// How an entry reads: the time in square brackets, the level's word in
/// square brackets, a colon, and the message.
pub open spec fn entry_text(timestamp: Seq<char>, level: LogLevel, message: Seq<char>) -> Seq<
    char,
> {
    "["@ + timestamp + "] ["@ + level.label() + "]: "@ + message
}

/// The entry for a message of the given level at the given time.
pub fn log_entry(timestamp: &str, level: LogLevel, message: &str) -> (entry: String)
    ensures
        entry@ == entry_text(timestamp@, level, message@),
{
    let mut entry = String::from_str("[");
    entry.append(timestamp);
    entry.append("] [");
    entry.append(level.word());
    entry.append("]: ");
    entry.append(message);
    entry
}

/// The least length of a timestamp: a year of four digits and five fields of
/// two, with their five separators.
pub const TIMESTAMP_MIN_LEN: usize = 19;

/// The local time of the machine's clock, as `chrono::Local::now` reads it and
/// `DateTime::format` writes it with the pattern `%Y-%m-%d %H:%M:%S`. Which
/// time it shows depends on the clock and on the time zone, and nothing is
/// claimed of that. The one claim is the least length: the pattern pads the
/// year with zeros to four digits, or more with a sign, and each other field
/// to two.
#[verifier::external_body]
fn local_timestamp() -> (timestamp: String)
    ensures
        timestamp@.len() >= TIMESTAMP_MIN_LEN,
{
    chrono::Local::now().format("%Y-%m-%d %H:%M:%S").to_string()
}

/// A logger with a threshold: it records the messages whose level is at least
/// its own.
#[derive(Debug, Clone, Copy, PartialEq, Eq, Structural)]
pub struct Logger {
    pub level: LogLevel,
}

impl Logger {
    /// Whether the logger records a message of the level `message`.
    pub open spec fn records(self, message: LogLevel) -> bool {
        message.rank() >= self.level.rank()
    }

    /// A logger with the threshold `level`.
    pub fn new(level: LogLevel) -> (logger: Logger)
        ensures
            logger.level == level,
    {
        Logger { level }
    }

    /// The entry for `message` at the level `level` and the time `timestamp`,
    /// if the logger records that level.
    pub fn entry_at(&self, timestamp: &str, level: LogLevel, message: &str) -> (entry: Option<
        String,
    >)
        ensures
            entry is Some <==> self.records(level),
            entry matches Some(text) ==> text@ == entry_text(timestamp@, level, message@),
    {
        let recorded = self.level.precedes(level);
        if recorded {
            Some(log_entry(timestamp, level, message))
        } else {
            None
        }
    }

    fn log(&self, level: LogLevel, message: &str) -> (entry: Option<String>)
        ensures
            entry is Some <==> self.records(level),
            entry matches Some(text) ==> exists|timestamp: Seq<char>|
                timestamp.len() >= TIMESTAMP_MIN_LEN && text@ == entry_text(
                    timestamp,
                    level,
                    message@,
                ),
    {
        if self.level.precedes(level) {
            let timestamp = local_timestamp();
            let text = log_entry(timestamp.as_str(), level, message);
            assert(text@ == entry_text(timestamp@, level, message@));
            Some(text)
        } else {
            None
        }
    }

    /// The entry for an informational message at the present time, if the
    /// logger records such messages.
    pub fn info(&self, message: &str) -> (entry: Option<String>)
        ensures
            entry is Some <==> self.level == LogLevel::Info,
            entry matches Some(text) ==> exists|timestamp: Seq<char>|
                timestamp.len() >= TIMESTAMP_MIN_LEN && text@ == entry_text(
                    timestamp,
                    LogLevel::Info,
                    message@,
                ),
    {
        self.log(LogLevel::Info, message)
    }

    /// The entry for a warning at the present time, if the logger records
    /// warnings.
    pub fn warning(&self, message: &str) -> (entry: Option<String>)
        ensures
            entry is Some <==> self.level != LogLevel::Error,
            entry matches Some(text) ==> exists|timestamp: Seq<char>|
                timestamp.len() >= TIMESTAMP_MIN_LEN && text@ == entry_text(
                    timestamp,
                    LogLevel::Warning,
                    message@,
                ),
    {
        self.log(LogLevel::Warning, message)
    }

    /// The entry for an error at the present time. Every logger records
    /// errors.
    pub fn error(&self, message: &str) -> (entry: String)
        ensures
            exists|timestamp: Seq<char>|
                timestamp.len() >= TIMESTAMP_MIN_LEN && entry@ == entry_text(
                    timestamp,
                    LogLevel::Error,
                    message@,
                ),
    {
        match self.log(LogLevel::Error, message) {
            Some(text) => text,
            None => vstd::pervasive::unreached(),
        }
    }
}

/// An error is always recorded, and a logger that records a level records
/// every level above it.
pub proof fn law_threshold(logger: Logger, lower: LogLevel, higher: LogLevel)
    requires
        lower.rank() <= higher.rank(),
    ensures
        logger.records(LogLevel::Error),
        logger.records(lower) ==> logger.records(higher),
{
}

} // verus!
