//! The parse-failure taxonomy.  Every failure is fatal to the enclosing
//! parse; nothing is recovered or skipped.

use vstd::prelude::*;

verus! {

/// Abstract form of a parse failure, used in contracts.
pub enum ErrV {
    /// A file could not be opened; carries the file name.
    IO { filename: Seq<char> },
    /// A token that should be a number is not one.
    Numeric { line: int, token: Seq<char> },
    /// An unrecognized directive, or a recognized one with the wrong
    /// argument count; carries the raw line text.
    Format { filename: Seq<char>, line: int, text: Seq<char> },
    /// A face declared with fewer than three points.
    TooFewPoints { line: int },
}

/// A parse failure, as handed to callers.
#[derive(Debug, Clone, PartialEq, Eq)]
pub enum ParseError {
    /// A file could not be opened.  The library itself never opens
    /// files; the caller reports an open failure through this variant.
    IOError { filename: String },
    /// A token that should be a number is not one (1-based line).
    NumericParseError { line: i32, token: String },
    /// An unrecognized directive or wrong argument count, with the raw
    /// text of the offending line.
    FormatError { filename: String, line: i32, text: String },
    /// A face declared with fewer than three points.
    TooFewPointsError { line: i32 },
}

impl View for ParseError {
    type V = ErrV;

    open spec fn view(&self) -> ErrV {
        match self {
            ParseError::IOError { filename } => ErrV::IO { filename: filename@ },
            ParseError::NumericParseError { line, token } => ErrV::Numeric {
                line: *line as int,
                token: token@,
            },
            ParseError::FormatError { filename, line, text } => ErrV::Format {
                filename: filename@,
                line: *line as int,
                text: text@,
            },
            ParseError::TooFewPointsError { line } => ErrV::TooFewPoints { line: *line as int },
        }
    }
}

impl DeepView for ParseError {
    type V = ErrV;

    open spec fn deep_view(&self) -> ErrV {
        self.view()
    }
}

} // verus!
