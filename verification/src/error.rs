//! The structured error that one pull of the reader can surface. A failure
//! concerns one record only: the stream goes on after resynchronization.

use vstd::prelude::*;

verus! {

/// What one pull of the reader can fail with. Numeric and domain failures
/// carry the offending field text and, for field decoders, the whole source
/// line, so that a caller can report them without string matching.
#[derive(Debug)]
pub enum Error {
    /// The underlying line source reported a fault; the message of that
    /// fault is kept verbatim.
    Io(String),
    /// A fixed-column field did not decode as an unsigned or signed integer:
    /// `text` is the raw (untrimmed) field, `line` the whole source line.
    ParseInt { text: String, line: String },
    /// A fixed-column coordinate field did not decode as a decimal number:
    /// `text` is the raw (untrimmed) field, `line` the whole source line.
    ParseFloat { text: String, line: String },
    /// A domain failure, such as an element symbol that names no element or
    /// a charge entry pointing outside the atom block; holds the offending
    /// field text.
    ParseFile(String),
}

/// The mathematical shape of an `Error`: the same variants over sequences of
/// characters instead of heap strings.
pub enum ErrorModel {
    Io(Seq<char>),
    ParseInt { text: Seq<char>, line: Seq<char> },
    ParseFloat { text: Seq<char>, line: Seq<char> },
    ParseFile(Seq<char>),
}

impl View for Error {
    type V = ErrorModel;

    open spec fn view(&self) -> ErrorModel {
        match self {
            Error::Io(m) => ErrorModel::Io(m@),
            Error::ParseInt { text, line } => ErrorModel::ParseInt { text: text@, line: line@ },
            Error::ParseFloat { text, line } => ErrorModel::ParseFloat {
                text: text@,
                line: line@,
            },
            Error::ParseFile(m) => ErrorModel::ParseFile(m@),
        }
    }
}

impl Error {
    /// A short label naming the variant, in place of a `Display` rendering.
    pub fn kind(&self) -> (r: &'static str)
        ensures
            r@ == match self@ {
                ErrorModel::Io(_) => "io"@,
                ErrorModel::ParseInt { .. } => "integer"@,
                ErrorModel::ParseFloat { .. } => "float"@,
                ErrorModel::ParseFile(_) => "domain"@,
            },
    {
        match self {
            Error::Io(_) => "io",
            Error::ParseInt { .. } => "integer",
            Error::ParseFloat { .. } => "float",
            Error::ParseFile(_) => "domain",
        }
    }
}

} // verus!
