//! Log-level configuration.  The verified core keeps the level in an
//! explicit configuration value owned by the caller — there is no global
//! state — and decides which message classes a level lets through.

use vstd::prelude::*;
use vstd::string::StringSliceAdditionalSpecFns;

verus! {

/// Verbosity of the console log.  A level shows every message class whose
/// rank is at or below its own; `Off` shows nothing.
#[derive(Clone, Copy, Debug, PartialEq, Eq, Structural)]
pub enum Level {
    Info,
    Warn,
    Error,
    Debug,
    Off,
}

/// Rank of a level: the classes it admits are those of rank at most its
/// own.  `Off` ranks below every message class.
pub open spec fn spec_level_rank(l: Level) -> int {
    match l {
        Level::Info => 0,
        Level::Warn => 1,
        Level::Error => 2,
        Level::Debug => 4,
        Level::Off => -1,
    }
}

/// Whether a message of class `message` is shown under the configured
/// `current` level.
pub fn enabled(current: Level, message: Level) -> (r: bool)
    ensures
        r == (spec_level_rank(message) <= spec_level_rank(current)),
{
    let current_rank: i8 = match current {
        Level::Info => 0,
        Level::Warn => 1,
        Level::Error => 2,
        Level::Debug => 4,
        Level::Off => -1,
    };
    let message_rank: i8 = match message {
        Level::Info => 0,
        Level::Warn => 1,
        Level::Error => 2,
        Level::Debug => 4,
        Level::Off => -1,
    };
    message_rank <= current_rank
}

/// The log configuration a caller threads through the operations it runs.
#[derive(Clone, Copy, Debug, PartialEq, Eq, Structural)]
pub struct LogConfig {
    pub level: Level,
}

impl LogConfig {
    /// A fresh configuration; nothing is logged until a level is set.
    pub fn new() -> (r: LogConfig)
        ensures
            r.level == Level::Off,
    {
        LogConfig { level: Level::Off }
    }
}

/// Sets the configured log level.
pub fn set_level(config: &mut LogConfig, level: Level)
    ensures
        final(config).level == level,
{
    config.level = level;
}

/// Reads the configured log level.
pub fn level(config: &LogConfig) -> (r: Level)
    ensures
        r == config.level,
{
    config.level
}

/// ASCII upper-case folding of one byte; other bytes are untouched.
pub open spec fn spec_upper_byte(b: u8) -> u8 {
    if 97 <= b <= 122 {
        (b - 32) as u8
    } else {
        b
    }
}

/// Upper-cases one ASCII byte.
pub fn upper_byte(b: u8) -> (r: u8)
    ensures
        r == spec_upper_byte(b),
{
    if 97 <= b && b <= 122 {
        b - 32
    } else {
        b
    }
}

/// The level a name denotes, compared without regard to ASCII case:
/// `INFO`, `WARNING` or `WARN`, `ERROR`, `DEBUG`, `NONE`; every other
/// name falls back to `Error`.
pub open spec fn spec_level_from(bytes: Seq<u8>) -> Level {
    if bytes.len() == 4 && spec_upper_byte(bytes[0]) == 73 && spec_upper_byte(bytes[1]) == 78
        && spec_upper_byte(bytes[2]) == 70 && spec_upper_byte(bytes[3]) == 79 {
        Level::Info
    } else if bytes.len() == 7 && spec_upper_byte(bytes[0]) == 87 && spec_upper_byte(bytes[1])
        == 65 && spec_upper_byte(bytes[2]) == 82 && spec_upper_byte(bytes[3]) == 78
        && spec_upper_byte(bytes[4]) == 73 && spec_upper_byte(bytes[5]) == 78 && spec_upper_byte(
        bytes[6],
    ) == 71 {
        Level::Warn
    } else if bytes.len() == 4 && spec_upper_byte(bytes[0]) == 87 && spec_upper_byte(bytes[1])
        == 65 && spec_upper_byte(bytes[2]) == 82 && spec_upper_byte(bytes[3]) == 78 {
        Level::Warn
    } else if bytes.len() == 5 && spec_upper_byte(bytes[0]) == 69 && spec_upper_byte(bytes[1])
        == 82 && spec_upper_byte(bytes[2]) == 82 && spec_upper_byte(bytes[3]) == 79
        && spec_upper_byte(bytes[4]) == 82 {
        Level::Error
    } else if bytes.len() == 5 && spec_upper_byte(bytes[0]) == 68 && spec_upper_byte(bytes[1])
        == 69 && spec_upper_byte(bytes[2]) == 66 && spec_upper_byte(bytes[3]) == 85
        && spec_upper_byte(bytes[4]) == 71 {
        Level::Debug
    } else if bytes.len() == 4 && spec_upper_byte(bytes[0]) == 78 && spec_upper_byte(bytes[1])
        == 79 && spec_upper_byte(bytes[2]) == 78 && spec_upper_byte(bytes[3]) == 69 {
        Level::Off
    } else {
        Level::Error
    }
}

/// Parses a level name, without regard to ASCII case.  Unknown names give
/// the default, `Error`.
pub fn level_from(name: &str) -> (r: Level)
    ensures
        r == spec_level_from(name.spec_bytes()),
{
    let b = name.as_bytes();
    if b.len() == 4 && upper_byte(b[0]) == 73 && upper_byte(b[1]) == 78 && upper_byte(b[2]) == 70
        && upper_byte(b[3]) == 79 {
        Level::Info
    } else if b.len() == 7 && upper_byte(b[0]) == 87 && upper_byte(b[1]) == 65 && upper_byte(b[2])
        == 82 && upper_byte(b[3]) == 78 && upper_byte(b[4]) == 73 && upper_byte(b[5]) == 78
        && upper_byte(b[6]) == 71 {
        Level::Warn
    } else if b.len() == 4 && upper_byte(b[0]) == 87 && upper_byte(b[1]) == 65 && upper_byte(b[2])
        == 82 && upper_byte(b[3]) == 78 {
        Level::Warn
    } else if b.len() == 5 && upper_byte(b[0]) == 69 && upper_byte(b[1]) == 82 && upper_byte(b[2])
        == 82 && upper_byte(b[3]) == 79 && upper_byte(b[4]) == 82 {
        Level::Error
    } else if b.len() == 5 && upper_byte(b[0]) == 68 && upper_byte(b[1]) == 69 && upper_byte(b[2])
        == 66 && upper_byte(b[3]) == 85 && upper_byte(b[4]) == 71 {
        Level::Debug
    } else if b.len() == 4 && upper_byte(b[0]) == 78 && upper_byte(b[1]) == 79 && upper_byte(b[2])
        == 78 && upper_byte(b[3]) == 69 {
        Level::Off
    } else {
        Level::Error
    }
}

} // verus!
