//! Log levels, which messages a level lets through, and the text of a log entry.

use vstd::prelude::*;

use crate::civil_date::days_to_date;
use crate::text::{join_path, path_in, push_padded, text_view, zero_padded};

verus! {

/// How much is logged. A level lets through its own messages and those of the levels before it.
#[derive(Debug, Clone, Copy, PartialEq, Eq, PartialOrd, Ord, Hash, Structural)]
pub enum LogLevel {
    /// Errors only.
    Error,
    /// Errors and the application's flow.
    Info,
    /// Everything.
    Verbose,
}

impl LogLevel {
    /// The number of a level: a more verbose level has a larger number.
    pub open spec fn rank(self) -> int {
        match self {
            LogLevel::Error => 0,
            LogLevel::Info => 1,
            LogLevel::Verbose => 2,
        }
    }

    /// The name of a level in a log entry.
    pub open spec fn name(self) -> Seq<char> {
        match self {
            LogLevel::Error => "ERROR"@,
            LogLevel::Info => "INFO"@,
            LogLevel::Verbose => "VERBOSE"@,
        }
    }

    /// The level with the given number; numbers above the last level's stand for the last level.
    pub fn from_u8(value: u8) -> (level: LogLevel)
        ensures
            level.rank() == (if value <= 2 {
                value as int
            } else {
                2
            }),
    {
        match value {
            0 => LogLevel::Error,
            1 => LogLevel::Info,
            _ => LogLevel::Verbose,
        }
    }

    /// The number of the level.
    pub fn as_u8(self) -> (value: u8)
        ensures
            value == self.rank(),
    {
        match self {
            LogLevel::Error => 0,
            LogLevel::Info => 1,
            LogLevel::Verbose => 2,
        }
    }
}

/// A level's number gives back the level.
pub proof fn log_level_is_determined_by_rank(a: LogLevel, b: LogLevel)
    requires
        a.rank() == b.rank(),
    ensures
        a == b,
{
}

/// Whether a logger at `threshold` writes a message of the given level.
pub open spec fn passes(level: LogLevel, threshold: LogLevel) -> bool {
    level.rank() <= threshold.rank()
}

/// Whatever a level lets through, every more verbose level lets through too.
pub proof fn higher_levels_include_lower_ones(level: LogLevel, low: LogLevel, high: LogLevel)
    requires
        low.rank() <= high.rank(),
        passes(level, low),
    ensures
        passes(level, high),
{
}

/// A date and a time of day as `YYYY-MM-DD HH:MM:SS`.
pub open spec fn timestamp_text(y: nat, mo: nat, d: nat, h: nat, mi: nat, s: nat) -> Seq<char> {
    zero_padded(y, 4) + "-"@ + zero_padded(mo, 2) + "-"@ + zero_padded(d, 2) + " "@ + zero_padded(
        h,
        2,
    ) + ":"@ + zero_padded(mi, 2) + ":"@ + zero_padded(s, 2)
}

/// The moment that is `secs` seconds after the start of 1970 (UTC), as text.
pub open spec fn timestamp(secs: nat) -> Seq<char> {
    let date = crate::civil_date::date_of(secs as int / 86400);
    timestamp_text(
        date.0 as nat,
        date.1 as nat,
        date.2 as nat,
        secs % 86400 / 3600,
        secs % 3600 / 60,
        secs % 60,
    )
}

/// The moment that is `total_secs` seconds after the start of 1970 (UTC), as
/// `YYYY-MM-DD HH:MM:SS`.
pub fn format_timestamp(total_secs: u64) -> (text: String)
    ensures
        text@ == timestamp(total_secs as nat),
{
    let days: u64 = total_secs / 86400;
    let day_secs: u64 = total_secs % 86400;
    let hours: u64 = day_secs / 3600;
    let minutes: u64 = (day_secs % 3600) / 60;
    let seconds: u64 = day_secs % 60;
    assert(total_secs % 86400 % 3600 == total_secs % 3600);
    assert(total_secs % 86400 % 60 == total_secs % 60);
    let (year, month, day) = days_to_date(days);
    let mut text = String::new();
    push_padded(&mut text, year, 4);
    assert(text@ =~= zero_padded(year as nat, 4));
    text.append("-");
    push_padded(&mut text, month, 2);
    text.append("-");
    push_padded(&mut text, day, 2);
    text.append(" ");
    push_padded(&mut text, hours, 2);
    text.append(":");
    push_padded(&mut text, minutes, 2);
    text.append(":");
    push_padded(&mut text, seconds, 2);
    text
}

/// The line that a logger writes for a message.
pub open spec fn log_entry(secs: nat, level: LogLevel, module: Seq<char>, message: Seq<char>) ->
    Seq<char> {
    "["@ + timestamp(secs) + "] ["@ + level.name() + "] ["@ + module + "] "@ + message + "\n"@
}

/// The log file's name.
pub const LOG_FILE: &'static str = "addin_debug.log";

/// Where the log file lies: in the add-in's directory of the user's local data or, where there is
/// none, directly in the directory for temporary files, or else in the current directory.
pub open spec fn default_log_path(
    local_app_data: Option<Seq<char>>,
    temp: Option<Seq<char>>,
    tmp: Option<Seq<char>>,
) -> Seq<char> {
    match (local_app_data, temp, tmp) {
        (Some(data), _, _) => path_in(path_in(data, "SpamBayes"@), LOG_FILE@),
        (None, Some(directory), _) => path_in(directory, LOG_FILE@),
        (None, None, Some(directory)) => path_in(directory, LOG_FILE@),
        (None, None, None) => path_in("."@, LOG_FILE@),
    }
}

/// Which messages are written, and how they look in the log file.
#[derive(Debug, Clone, Copy)]
pub struct Logger {
    level: LogLevel,
}

impl Logger {
    /// The least severe level that is written.
    pub closed spec fn threshold(&self) -> LogLevel {
        self.level
    }

    /// A logger with the given level.
    pub fn new(level: LogLevel) -> (logger: Logger)
        ensures
            logger.threshold() == level,
    {
        Logger { level }
    }

    /// The log file's path, from the values of the environment variables `LOCALAPPDATA`, `TEMP` and
    /// `TMP`.
    pub fn default_path(local_app_data: Option<String>, temp: Option<String>, tmp: Option<String>)
        -> (path: String)
        ensures
            path@ == default_log_path(
                text_view(local_app_data),
                text_view(temp),
                text_view(tmp),
            ),
    {
        match local_app_data {
            Some(data) => join_path(join_path(data.as_str(), "SpamBayes").as_str(), LOG_FILE),
            None => {
                let base = match temp {
                    Some(directory) => directory,
                    None => match tmp {
                        Some(directory) => directory,
                        None => ".".to_owned(),
                    },
                };
                join_path(base.as_str(), LOG_FILE)
            },
        }
    }

    /// Changes the level.
    pub fn set_level(&mut self, level: LogLevel)
        ensures
            final(self).threshold() == level,
    {
        self.level = level;
    }

    /// The level.
    pub fn current_level(&self) -> (level: LogLevel)
        ensures
            level == self.threshold(),
    {
        self.level
    }

    /// The level that a verbosity setting stands for: 0, 1, and everything above.
    pub fn verbosity_to_level(verbose: u32) -> (level: LogLevel)
        ensures
            level.rank() == (if verbose <= 2 {
                verbose as int
            } else {
                2
            }),
    {
        match verbose {
            0 => LogLevel::Error,
            1 => LogLevel::Info,
            _ => LogLevel::Verbose,
        }
    }

    /// The line to write for a message at the given time, or nothing if the level keeps the
    /// message out.
    pub fn log(&self, level: LogLevel, module: &str, message: &str, now_secs: u64) -> (entry:
        Option<String>)
        ensures
            passes(level, self.threshold()) <==> entry is Some,
            entry matches Some(line) ==> line@ == log_entry(
                now_secs as nat,
                level,
                module@,
                message@,
            ),
    {
        if level.as_u8() > self.level.as_u8() {
            return None;
        }
        let name = match level {
            LogLevel::Error => "ERROR",
            LogLevel::Info => "INFO",
            LogLevel::Verbose => "VERBOSE",
        };
        let mut line = "[".to_owned();
        line.append(format_timestamp(now_secs).as_str());
        line.append("] [");
        line.append(name);
        line.append("] [");
        line.append(module);
        line.append("] ");
        line.append(message);
        line.append("\n");
        Some(line)
    }

    /// The line to write for an error message.
    pub fn error(&self, module: &str, message: &str, now_secs: u64) -> (entry: Option<String>)
        ensures
            entry matches Some(line) && line@ == log_entry(
                now_secs as nat,
                LogLevel::Error,
                module@,
                message@,
            ),
    {
        self.log(LogLevel::Error, module, message, now_secs)
    }

    /// The line to write for an informational message, if the level lets it through.
    pub fn info(&self, module: &str, message: &str, now_secs: u64) -> (entry: Option<String>)
        ensures
            self.threshold() != LogLevel::Error <==> entry is Some,
            entry matches Some(line) ==> line@ == log_entry(
                now_secs as nat,
                LogLevel::Info,
                module@,
                message@,
            ),
    {
        self.log(LogLevel::Info, module, message, now_secs)
    }

    /// The line to write for a diagnostic message, if the level lets it through.
    pub fn verbose(&self, module: &str, message: &str, now_secs: u64) -> (entry: Option<String>)
        ensures
            self.threshold() == LogLevel::Verbose <==> entry is Some,
            entry matches Some(line) ==> line@ == log_entry(
                now_secs as nat,
                LogLevel::Verbose,
                module@,
                message@,
            ),
    {
        self.log(LogLevel::Verbose, module, message, now_secs)
    }
}

/// A message is written exactly if it is at least as severe as the level asks: errors always,
/// information unless only errors are wanted, and diagnostics only if everything is. The special
/// functions write what the general one writes for their level.
pub proof fn severe_messages_are_written(
    logger: &Logger,
    module: &str,
    message: &str,
    now: u64,
    level: LogLevel,
    entry: Option<String>,
    error: Option<String>,
    info: Option<String>,
    verbose: Option<String>,
)
    requires
        call_ensures(Logger::log, (logger, level, module, message, now), entry),
        call_ensures(Logger::error, (logger, module, message, now), error),
        call_ensures(Logger::info, (logger, module, message, now), info),
        call_ensures(Logger::verbose, (logger, module, message, now), verbose),
    ensures
        error is Some,
        info is Some <==> !(logger.threshold() is Error),
        verbose is Some <==> logger.threshold() is Verbose,
        level is Error ==> entry is Some && entry->0@ == error->0@,
        level is Info ==> (entry is Some <==> info is Some) && (entry is Some ==> entry->0@
            == info->0@),
        level is Verbose ==> (entry is Some <==> verbose is Some) && (entry is Some ==> entry->0@
            == verbose->0@),
{
}

/// A line names the time, the level, the module and the message, in that order.
pub proof fn a_line_holds_its_parts(
    logger: &Logger,
    module: &str,
    message: &str,
    now: u64,
    level: LogLevel,
    entry: Option<String>,
    time: String,
)
    requires
        call_ensures(Logger::log, (logger, level, module, message, now), entry),
        call_ensures(format_timestamp, (now,), time),
        entry is Some,
    ensures
        level is Error ==> entry->0@ == "["@ + time@ + "] ["@ + "ERROR"@ + "] ["@ + module@ + "] "@
            + message@ + "\n"@,
        level is Info ==> entry->0@ == "["@ + time@ + "] ["@ + "INFO"@ + "] ["@ + module@ + "] "@
            + message@ + "\n"@,
        level is Verbose ==> entry->0@ == "["@ + time@ + "] ["@ + "VERBOSE"@ + "] ["@ + module@
            + "] "@ + message@ + "\n"@,
{
}

/// A level is what it was set to; numbers, and verbosity settings, stand for the levels in the
/// order of how much is written, with everything beyond for the last; and a level's number stands
/// for it.
pub proof fn levels_are_set_and_numbered(
    level: LogLevel,
    created: Logger,
    changed: &mut Logger,
    told: LogLevel,
    number: u8,
    found: LogLevel,
    value: u8,
    of_value: LogLevel,
    setting: u32,
    of_setting: LogLevel,
)
    requires
        call_ensures(Logger::new, (level,), created),
        call_ensures(Logger::set_level, (changed, level), ()),
        call_ensures(Logger::current_level, (final(changed),), told),
        call_ensures(LogLevel::as_u8, (level,), number),
        call_ensures(LogLevel::from_u8, (number,), found),
        call_ensures(LogLevel::from_u8, (value,), of_value),
        call_ensures(Logger::verbosity_to_level, (setting,), of_setting),
    ensures
        created.threshold() == level,
        told == level,
        found == level,
        of_value is Error <==> value == 0,
        of_value is Info <==> value == 1,
        of_value is Verbose <==> value >= 2,
        of_setting is Error <==> setting == 0,
        of_setting is Info <==> setting == 1,
        of_setting is Verbose <==> setting >= 2,
{
}

/// Hours and minutes of a moment: whole hours of the day, and whole minutes of the hour.
pub proof fn hours_and_minutes(n: int)
    requires
        0 <= n,
    ensures
        n % 86400 / 3600 == n / 3600 % 24,
        n % 3600 / 60 == n / 60 % 60,
{
    let (hours, rest) = (n / 3600, n % 3600);
    let (days, hour) = (hours / 24, hours % 24);
    assert(n == 86400 * days + (3600 * hour + rest));
    assert(0 <= 3600 * hour + rest < 86400);
    assert(n % 86400 == 3600 * hour + rest);
    let (minutes, second) = (n / 60, n % 60);
    let (whole_hours, minute) = (minutes / 60, minutes % 60);
    assert(n == 3600 * whole_hours + (60 * minute + second));
    assert(0 <= 60 * minute + second < 3600);
    assert(n % 3600 == 60 * minute + second);
}

/// A moment is written as the day that its number of days stands for, and as the hours of that day,
/// the minutes of that hour and the seconds of that minute.
pub proof fn times_are_written_in_order(now: u64, text: String)
    requires
        call_ensures(format_timestamp, (now,), text),
    ensures
        ({
            let date = crate::civil_date::date_of(now as int / 86400);
            let second = now as int % 60;
            let minute = now as int / 60 % 60;
            let hour = now as int / 3600 % 24;
            &&& text@ == zero_padded(date.0 as nat, 4) + "-"@ + zero_padded(date.1 as nat, 2) + "-"@
                + zero_padded(date.2 as nat, 2) + " "@ + zero_padded(hour as nat, 2) + ":"@
                + zero_padded(minute as nat, 2) + ":"@ + zero_padded(second as nat, 2)
        }),
{
    hours_and_minutes(now as int);
}

/// The log file lies in the directory `SpamBayes` of the local data where that is known, whatever
/// the other directories are; else in the first known directory for temporary files, and else in
/// the current one. It is always called the same.
pub proof fn the_log_lies_in_the_first_known_directory(
    data: Option<String>,
    temp: Option<String>,
    tmp: Option<String>,
    path: String,
)
    requires
        call_ensures(Logger::default_path, (data, temp, tmp), path),
    ensures
        ({
            let name = "addin_debug.log"@;
            let base = match data {
                Some(d) => d@,
                None => match temp {
                    Some(d) => d@,
                    None => match tmp {
                        Some(d) => d@,
                        None => "."@,
                    },
                },
            };
            &&& base.len() + name.len() <= path@.len()
            &&& path@.take(base.len() as int) == base
            &&& path@.skip(path@.len() - name.len()) == name
            &&& data is None ==> path@ == path_in(base, name)
            &&& data is Some ==> path@ == path_in(path_in(base, "SpamBayes"@), name)
        }),
{
    let name = "addin_debug.log"@;
    let base = match data {
        Some(d) => d@,
        None => match temp {
            Some(d) => d@,
            None => match tmp {
                Some(d) => d@,
                None => "."@,
            },
        },
    };
    assert(path@.take(base.len() as int) =~= base);
    assert(path@.skip(path@.len() - name.len()) =~= name);
}

} // verus!
