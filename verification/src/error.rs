//! The errors of an import and their messages.

use vstd::prelude::*;
use vstd::string::*;
use crate::text::{decimal_text, u64_text};

verus! {

/// What can go wrong while an export is read.
#[derive(Debug, PartialEq, Eq)]
pub enum TwistyTimerError {
    /// The category of a row is empty.
    EmptyPuzzleType,
    /// The date is a number, but negative or too large; holds the date's text.
    InvalidTimestamp(String),
    /// The date is no number; holds the date's text and the reason why it
    /// could not be read as a number.
    TimestampParseError(String, String),
    /// The export could not be read; holds the reason.
    IoError(String),
    /// The export is no well-formed table; holds the reason.
    CsvError(String),
    /// A row could not be turned into a record; holds the row's number,
    /// counted from one, and the message of what was wrong with it.
    CsvRecordError(usize, String),
    /// A required field is empty or absent; holds the field's name.
    MissingField(String),
    /// The time is no number or too large; holds the time's text.
    InvalidTimeValue(String),
}

/// The mathematical value of an error.
pub enum ErrorModel {
    EmptyPuzzleType,
    InvalidTimestamp(Seq<char>),
    TimestampParseError(Seq<char>, Seq<char>),
    IoError(Seq<char>),
    CsvError(Seq<char>),
    CsvRecordError(nat, Seq<char>),
    MissingField(Seq<char>),
    InvalidTimeValue(Seq<char>),
}

impl View for TwistyTimerError {
    type V = ErrorModel;

    open spec fn view(&self) -> ErrorModel {
        match self {
            TwistyTimerError::EmptyPuzzleType => ErrorModel::EmptyPuzzleType,
            TwistyTimerError::InvalidTimestamp(s) => ErrorModel::InvalidTimestamp(s@),
            TwistyTimerError::TimestampParseError(s, reason) => ErrorModel::TimestampParseError(
                s@,
                reason@,
            ),
            TwistyTimerError::IoError(s) => ErrorModel::IoError(s@),
            TwistyTimerError::CsvError(s) => ErrorModel::CsvError(s@),
            TwistyTimerError::CsvRecordError(n, s) => ErrorModel::CsvRecordError(*n as nat, s@),
            TwistyTimerError::MissingField(s) => ErrorModel::MissingField(s@),
            TwistyTimerError::InvalidTimeValue(s) => ErrorModel::InvalidTimeValue(s@),
        }
    }
}

/// The message of an error.
pub open spec fn message_of(e: ErrorModel) -> Seq<char> {
    match e {
        ErrorModel::EmptyPuzzleType => "Empty puzzle type"@,
        ErrorModel::InvalidTimestamp(s) => "Invalid timestamp: "@ + s,
        ErrorModel::TimestampParseError(s, reason) => "Failed to parse timestamp '"@ + s + "': "@
            + reason,
        ErrorModel::IoError(s) => "IO error: "@ + s,
        ErrorModel::CsvError(s) => "CSV error: "@ + s,
        ErrorModel::CsvRecordError(n, s) => "CSV error at record "@ + decimal_text(n) + ": "@ + s,
        ErrorModel::MissingField(s) => "Missing required field: "@ + s,
        ErrorModel::InvalidTimeValue(s) => "Invalid time value: "@ + s,
    }
}

/// `prefix` followed by `rest`.
fn prefixed(prefix: &str, rest: &str) -> (r: String)
    ensures
        r@ == prefix@ + rest@,
{
    let mut r = String::from_str(prefix);
    r.append(rest);
    r
}

impl TwistyTimerError {
    /// The message of the error, as it is shown to a person.
    pub fn to_string(&self) -> (r: String)
        ensures
            r@ == message_of(self@),
    {
        match self {
            TwistyTimerError::EmptyPuzzleType => String::from_str("Empty puzzle type"),
            TwistyTimerError::InvalidTimestamp(s) => prefixed("Invalid timestamp: ", s.as_str()),
            TwistyTimerError::TimestampParseError(s, reason) => {
                let mut r = prefixed("Failed to parse timestamp '", s.as_str());
                r.append("': ");
                r.append(reason.as_str());
                r
            },
            TwistyTimerError::IoError(s) => prefixed("IO error: ", s.as_str()),
            TwistyTimerError::CsvError(s) => prefixed("CSV error: ", s.as_str()),
            TwistyTimerError::CsvRecordError(n, s) => {
                let number = u64_text(*n as u64);
                let mut r = prefixed("CSV error at record ", number.as_str());
                r.append(": ");
                r.append(s.as_str());
                r
            },
            TwistyTimerError::MissingField(s) => prefixed("Missing required field: ", s.as_str()),
            TwistyTimerError::InvalidTimeValue(s) => prefixed("Invalid time value: ", s.as_str()),
        }
    }
}

} // verus!
