use vstd::prelude::*;

verus! {

/// The class of a decoding failure.
#[derive(Clone, Copy, Debug, PartialEq, Eq, Structural)]
pub enum ErrorKind {
    /// Reading the input failed.
    Io,
    /// The bytes are not well-formed in the expected format.
    Syntax,
    /// The bytes are well-formed, but do not fit the target type.
    Data,
    /// The input ended before a whole value was read.
    Eof,
    /// The record lacks the metadata field that was asked for.
    MissingField,
}

/// The words that render an error kind.
pub open spec fn kind_text(kind: ErrorKind) -> Seq<char> {
    match kind {
        ErrorKind::Io => "failure to read the input"@,
        ErrorKind::Syntax => "input is not well-formed"@,
        ErrorKind::Data => "input does not fit the expected type"@,
        ErrorKind::Eof => "input ended before a complete value"@,
        ErrorKind::MissingField => "record lacks the requested field"@,
    }
}

impl ErrorKind {
    /// A human-readable description of the kind, the same for every decoder.
    pub fn description(&self) -> (r: &'static str)
        ensures
            r@ == kind_text(*self),
    {
        match self {
            ErrorKind::Io => "failure to read the input",
            ErrorKind::Syntax => "input is not well-formed",
            ErrorKind::Data => "input does not fit the expected type",
            ErrorKind::Eof => "input ended before a complete value",
            ErrorKind::MissingField => "record lacks the requested field",
        }
    }
}

/// Why a record or a byte buffer could not be decoded.
///
/// `line` and `column` locate the failure in the input; both are zero where the
/// failure has no position (a missing field).
#[derive(Clone, Copy, Debug, PartialEq, Eq, Structural)]
pub struct DecodeError {
    pub kind: ErrorKind,
    pub line: usize,
    pub column: usize,
}

impl DecodeError {
    /// The error of a record that lacks a metadata field.
    pub fn missing_field() -> (r: DecodeError)
        ensures
            r == (DecodeError { kind: ErrorKind::MissingField, line: 0, column: 0 }),
    {
        DecodeError { kind: ErrorKind::MissingField, line: 0, column: 0 }
    }

    /// Whether the failure lies in the input bytes, rather than in missing metadata.
    pub fn is_payload_error(&self) -> (r: bool)
        ensures
            r == (self.kind != ErrorKind::MissingField),
    {
        match self.kind {
            ErrorKind::MissingField => false,
            _ => true,
        }
    }
}

} // verus!
