//! The wire formats of the event log and the files of a persisted trace.

use vstd::prelude::*;

verus! {

/// The encoding of the event log, chosen once when a session starts.
#[derive(Clone, Copy, Debug, PartialEq, Eq, Structural)]
pub enum TraceFormat {
    /// Structured text.
    Json,
    /// The legacy binary encoding.
    BinaryV0,
    /// The current binary encoding.
    Binary,
}

/// Why a format selector was turned down.
#[derive(Clone, Copy, Debug, PartialEq, Eq, Structural)]
pub enum FormatError {
    /// The selector names no known format.
    UnknownFormat,
}

/// The format that a selector names, if any: `json`, `binaryv0`, and
/// `binary` or its short form `bin`.
pub open spec fn format_named(selector: Seq<char>) -> Option<TraceFormat> {
    if selector == "binaryv0"@ {
        Some(TraceFormat::BinaryV0)
    } else if selector == "binary"@ || selector == "bin"@ {
        Some(TraceFormat::Binary)
    } else if selector == "json"@ {
        Some(TraceFormat::Json)
    } else {
        None
    }
}

/// The outcome of choosing a format: text where none is asked for, an error
/// for a selector that names none.
pub open spec fn format_chosen(selector: Option<&str>) -> Result<TraceFormat, FormatError> {
    match selector {
        None => Ok(TraceFormat::Json),
        Some(name) => match format_named(name@) {
            Some(format) => Ok(format),
            None => Err(FormatError::UnknownFormat),
        },
    }
}

/// What the host hands over to choose a format.
#[derive(Debug, PartialEq, Eq)]
pub enum FormatSelector {
    /// Nothing was given.
    Absent,
    /// A name was given.
    Name(String),
    /// Something was given that is not a name.
    NotAName,
}

/// The outcome of choosing a format from what the host handed over: text
/// where nothing was given, the named format for a known name, an error for
/// an unknown name and for anything that is not a name.
pub open spec fn format_selected(selector: FormatSelector) -> Result<TraceFormat, FormatError> {
    match selector {
        FormatSelector::Absent => Ok(TraceFormat::Json),
        FormatSelector::Name(name) => match format_named(name@) {
            Some(format) => Ok(format),
            None => Err(FormatError::UnknownFormat),
        },
        FormatSelector::NotAName => Err(FormatError::UnknownFormat),
    }
}

/// Whether two texts are the same.
fn same_text(a: &str, b: &str) -> (same: bool)
    ensures
        same == (a@ == b@),
{
    String::from_str(a) == String::from_str(b)
}

/// Chooses the format of a session from an optional selector.
pub fn parse_format(selector: Option<&str>) -> (r: Result<TraceFormat, FormatError>)
    ensures
        r == format_chosen(selector),
{
    match selector {
        None => Ok(TraceFormat::Json),
        Some(name) => {
            if same_text(name, "binaryv0") {
                Ok(TraceFormat::BinaryV0)
            } else if same_text(name, "binary") || same_text(name, "bin") {
                Ok(TraceFormat::Binary)
            } else if same_text(name, "json") {
                Ok(TraceFormat::Json)
            } else {
                Err(FormatError::UnknownFormat)
            }
        },
    }
}

/// Chooses the format of a session from what the host handed over.
pub fn select_format(selector: &FormatSelector) -> (r: Result<TraceFormat, FormatError>)
    ensures
        r == format_selected(*selector),
{
    match selector {
        FormatSelector::Absent => parse_format(None),
        FormatSelector::Name(name) => parse_format(Some(name.as_str())),
        FormatSelector::NotAName => Err(FormatError::UnknownFormat),
    }
}

impl FormatError {
    /// The message shown for the error.
    pub fn message(&self) -> (text: &'static str)
        ensures
            text@ == "Unknown format"@,
    {
        "Unknown format"
    }
}

/// The file that holds the event log in `format`.
pub open spec fn events_file(format: TraceFormat) -> Seq<char> {
    match format {
        TraceFormat::Json => "trace.json"@,
        TraceFormat::BinaryV0 => "trace.bin"@,
        TraceFormat::Binary => "trace.bin"@,
    }
}

/// The name of the file that holds the event log in `format`.
pub fn events_file_name(format: TraceFormat) -> (name: &'static str)
    ensures
        name@ == events_file(format),
{
    match format {
        TraceFormat::Json => "trace.json",
        TraceFormat::BinaryV0 => "trace.bin",
        TraceFormat::Binary => "trace.bin",
    }
}

/// The name of the file that holds the session's metadata.
pub fn metadata_file_name() -> (name: &'static str)
    ensures
        name@ == "trace_metadata.json"@,
{
    "trace_metadata.json"
}

/// The name of the file that holds the path table.
pub fn paths_file_name() -> (name: &'static str)
    ensures
        name@ == "trace_paths.json"@,
{
    "trace_paths.json"
}

} // verus!
