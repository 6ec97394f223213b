//! Log lines: what one holds, when it is well-formed, and how it is read back from
//! the JSON it was written as.

use vstd::prelude::*;
use vstd::string::StrSliceExecFns;
use vstd::string::StringExecFns;
use crate::error::io_error_text;
use crate::json::json_document;
use crate::json::json_model;
use crate::json::JsonModel;
use crate::text::contains;
use crate::text::join;
use crate::text::join_path;
use crate::text::joined_path;
use crate::text::occurs_in;
use crate::text::same_text;
use crate::text::to_uppercase;
use crate::text::uppercase_of;

verus! {

/// Where the logs go, below the home directory.
pub const LOG_DIR: &'static str = ".local/share/smart-refresh";

/// Number of log files that are kept.
pub const MAX_LOG_FILES: usize = 3;

/// Fewest characters of a timestamp with date and time.
pub const MIN_TIMESTAMP_LEN: usize = 19;

/// What can go wrong when logging is set up.
#[derive(Debug)]
pub enum LoggingError {
    /// There is no home directory to log under.
    HomeDirectoryNotFound,
    /// The directory for the logs could not be made.
    DirectoryCreationFailed { path: String, source: std::io::Error },
    /// The log file could not be opened.
    AppenderCreationFailed(String),
}

impl LoggingError {
    /// The part of the message that does not come from the operating system: the
    /// whole message, or what stands before the system's own words.
    pub open spec fn text(self) -> Seq<char> {
        match self {
            LoggingError::HomeDirectoryNotFound =>
                "Could not determine home directory (HOME or USERPROFILE not set)"@,
            LoggingError::DirectoryCreationFailed { path, source } =>
                "Failed to create log directory '"@ + path@ + "': "@,
            LoggingError::AppenderCreationFailed(detail) =>
                "Failed to create log file appender: "@ + detail@,
        }
    }

    /// The message for a reader.
    pub fn message(&self) -> (s: String)
        ensures
            self is DirectoryCreationFailed ==> self.text().is_prefix_of(s@),
            !(self is DirectoryCreationFailed) ==> s@ == self.text(),
    {
        match self {
            LoggingError::HomeDirectoryNotFound => String::from_str(
                "Could not determine home directory (HOME or USERPROFILE not set)",
            ),
            LoggingError::DirectoryCreationFailed { path, source } => {
                let mut s: String = join("Failed to create log directory '", path.as_str());
                s.append("': ");
                let ghost head = s@;
                let detail: String = io_error_text(source);
                s.append(detail.as_str());
                assert(head.is_prefix_of(s@)) by {
                    assert(s@.subrange(0, head.len() as int) =~= head);
                }
                s
            },
            LoggingError::AppenderCreationFailed(detail) => join(
                "Failed to create log file appender: ",
                detail.as_str(),
            ),
        }
    }
}

/// The directory the logs go to: below the home directory, which is `home` where
/// there is one and `user_profile` otherwise.
pub fn get_log_directory(home: Option<&str>, user_profile: Option<&str>) -> (r: Result<
    String,
    LoggingError,
>)
    ensures
        r is Ok <==> home is Some || user_profile is Some,
        r matches Ok(dir) ==> dir@ == joined_path(
            match home {
                Some(home) => home@,
                None => user_profile->Some_0@,
            },
            LOG_DIR@,
        ),
        r matches Err(e) ==> e is HomeDirectoryNotFound,
{
    match home {
        Some(home) => Ok(join_path(home, LOG_DIR)),
        None => match user_profile {
            Some(profile) => Ok(join_path(profile, LOG_DIR)),
            None => Err(LoggingError::HomeDirectoryNotFound),
        },
    }
}

/// A log line as a mathematical value.
pub struct LogEntryModel {
    /// When the line was written.
    pub timestamp: Seq<char>,
    /// How severe the event is.
    pub level: Seq<char>,
    /// What happened.
    pub message: Seq<char>,
    /// The module that wrote the line.
    pub target: Option<Seq<char>>,
    /// The source file that wrote the line.
    pub filename: Option<Seq<char>>,
    /// The line of the source file.
    pub line_number: Option<u32>,
}

/// Whether an upper-case word names one of the five levels.
pub open spec fn is_level_name(word: Seq<char>) -> bool {
    word == "ERROR"@ || word == "WARN"@ || word == "INFO"@ || word == "DEBUG"@ || word
        == "TRACE"@
}

impl LogEntryModel {
    /// The timestamp holds a `T` between date and time and has 19 characters or
    /// more.
    pub open spec fn timestamp_valid(self) -> bool {
        occurs_in("T"@, self.timestamp) && self.timestamp.len() >= MIN_TIMESTAMP_LEN
    }

    /// The level is one of the five, in any case.
    pub open spec fn level_valid(self) -> bool {
        is_level_name(uppercase_of(self.level))
    }

    /// Timestamp, level and message are there, and timestamp and level are valid.
    pub open spec fn valid(self) -> bool {
        &&& self.timestamp.len() > 0
        &&& self.level.len() > 0
        &&& self.message.len() > 0
        &&& self.timestamp_valid()
        &&& self.level_valid()
    }
}

/// The text of a member that is a string, and the empty text otherwise.
pub open spec fn text_or_empty(found: Option<Seq<char>>) -> Seq<char> {
    match found {
        Some(text) => text,
        None => Seq::empty(),
    }
}

/// The message of a log line: the member `message` of the member `fields` where
/// that is a string, else the member `message` of the line itself.
pub open spec fn message_of(doc: JsonModel) -> Option<Seq<char>> {
    let nested = match doc.member("fields"@) {
        Some(fields) => fields.member_text("message"@),
        None => None,
    };
    if nested is Some {
        nested
    } else {
        doc.member_text("message"@)
    }
}

/// The line number of a log line, cut to 32 bits.
pub open spec fn line_number_of(doc: JsonModel) -> Option<u32> {
    match doc.member("line_number"@) {
        Some(inner) => match inner.unsigned() {
            Some(n) => Some((n % 0x1_0000_0000) as u32),
            None => None,
        },
        None => None,
    }
}

/// The log line that a JSON document stands for. A member that is missing or no
/// string gives an empty timestamp, level or message, and no target or file name.
pub open spec fn log_entry_of(doc: JsonModel) -> LogEntryModel {
    LogEntryModel {
        timestamp: text_or_empty(doc.member_text("timestamp"@)),
        level: text_or_empty(doc.member_text("level"@)),
        message: text_or_empty(message_of(doc)),
        target: doc.member_text("target"@),
        filename: doc.member_text("filename"@),
        line_number: line_number_of(doc),
    }
}

/// One line of the log.
#[derive(Debug, Clone)]
pub struct LogEntry {
    /// When the line was written, as date, `T` and time.
    pub timestamp: String,
    /// How severe the event is: `ERROR`, `WARN`, `INFO`, `DEBUG` or `TRACE`.
    pub level: String,
    /// What happened.
    pub message: String,
    /// The module that wrote the line.
    pub target: Option<String>,
    /// The source file that wrote the line.
    pub filename: Option<String>,
    /// The line of the source file.
    pub line_number: Option<u32>,
}

impl View for LogEntry {
    type V = LogEntryModel;

    open spec fn view(&self) -> LogEntryModel {
        LogEntryModel {
            timestamp: self.timestamp@,
            level: self.level@,
            message: self.message@,
            target: match self.target {
                Some(target) => Some(target@),
                None => None,
            },
            filename: match self.filename {
                Some(filename) => Some(filename@),
                None => None,
            },
            line_number: self.line_number,
        }
    }
}

impl LogEntry {
    /// Whether the line has a timestamp, a level and a message, the timestamp with a
    /// `T` and 19 characters or more, the level one of the five.
    pub fn is_valid(&self) -> (valid: bool)
        ensures
            valid == self@.valid(),
    {
        self.timestamp.as_str().unicode_len() > 0 && self.level.as_str().unicode_len() > 0
            && self.message.as_str().unicode_len() > 0 && self.is_valid_timestamp()
            && self.is_valid_level()
    }

    /// Whether the timestamp holds a `T` and has 19 characters or more.
    pub fn is_valid_timestamp(&self) -> (valid: bool)
        ensures
            valid == self@.timestamp_valid(),
    {
        contains(self.timestamp.as_str(), "T") && self.timestamp.as_str().unicode_len()
            >= MIN_TIMESTAMP_LEN
    }

    /// Whether the level is one of the five, in any case.
    pub fn is_valid_level(&self) -> (valid: bool)
        ensures
            valid == self@.level_valid(),
    {
        let upper: String = to_uppercase(self.level.as_str());
        same_text(upper.as_str(), "ERROR") || same_text(upper.as_str(), "WARN") || same_text(
            upper.as_str(),
            "INFO",
        ) || same_text(upper.as_str(), "DEBUG") || same_text(upper.as_str(), "TRACE")
    }
}

/// The text of the member with the given name, where the value is an object and
/// the member a string.
fn member_text(value: &serde_json::Value, name: &str) -> (r: Option<String>)
    ensures
        r is Some <==> json_model(*value).member_text(name@) is Some,
        r matches Some(text) ==> json_model(*value).member_text(name@) == Some(text@),
{
    match crate::json::get(value, name) {
        Some(inner) => crate::json::as_str(inner),
        None => None,
    }
}

/// The text, or an empty one where there is none.
fn or_empty(found: Option<String>) -> (text: String)
    ensures
        text@ == text_or_empty(
            match found {
                Some(text) => Some(text@),
                None => None,
            },
        ),
{
    match found {
        Some(text) => text,
        None => String::new(),
    }
}

/// The log line that a parsed JSON document stands for.
pub fn log_entry_from_value(value: &serde_json::Value) -> (entry: LogEntry)
    ensures
        entry@ == log_entry_of(json_model(*value)),
{
    let timestamp: String = or_empty(member_text(value, "timestamp"));
    let level: String = or_empty(member_text(value, "level"));
    let nested: Option<String> = match crate::json::get(value, "fields") {
        Some(fields) => member_text(fields, "message"),
        None => None,
    };
    let message: String = match nested {
        Some(text) => text,
        None => or_empty(member_text(value, "message")),
    };
    let target: Option<String> = member_text(value, "target");
    let filename: Option<String> = member_text(value, "filename");
    let line_number: Option<u32> = match crate::json::get(value, "line_number") {
        Some(inner) => match crate::json::as_u64(inner) {
            Some(n) => Some((n % 0x1_0000_0000) as u32),
            None => None,
        },
        None => None,
    };
    LogEntry { timestamp, level, message, target, filename, line_number }
}

/// Reads a log line back from the JSON it was written as. Any JSON document gives
/// a line, valid or not; a text that is no JSON document gives the error of the
/// JSON reader.
pub fn parse_log_entry(json_line: &str) -> (r: Result<LogEntry, serde_json::Error>)
    ensures
        r is Ok <==> json_document(json_line@) is Some,
        r matches Ok(entry) ==> entry@ == log_entry_of(json_document(json_line@)->Some_0),
{
    match crate::json::parse(json_line) {
        Ok(value) => Ok(log_entry_from_value(&value)),
        Err(e) => Err(e),
    }
}

} // verus!
