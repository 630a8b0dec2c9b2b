//! The error taxonomy of scene-description loading.

use vstd::prelude::*;

verus! {

/// Where and why the scanner rejected the source text.
#[derive(Debug)]
pub struct ScanFailure {
    /// Line of the offending position, starting from 1.
    pub line: usize,
    /// Column of the offending position, starting from 0.
    pub col: usize,
    /// The scanner's report as it renders it: the description of the
    /// failure together with the position.
    pub message: String,
}

/// A read failure, carrying the causing operating-system error.
#[derive(Debug)]
pub struct IoFailure {
    /// The raw operating-system error code, when the failure has one.
    pub os_code: Option<i32>,
    /// The operating system's description of the failure.
    pub message: String,
}

/// Any error that can occur while loading the scene description:
/// - a syntax error in the source text,
/// - an I/O error (open or read of the file or stream),
/// - a value needed for scene construction that is missing and has no
///   default.
#[derive(Debug)]
pub enum ParseError {
    YamlScanError(ScanFailure),
    IOError(IoFailure),
    UnknownValueError(String),
}

impl ParseError {
    /// The message that the error carries.
    pub open spec fn message_spec(&self) -> Seq<char> {
        match self {
            ParseError::YamlScanError(d) => d.message@,
            ParseError::IOError(d) => d.message@,
            ParseError::UnknownValueError(s) => s@,
        }
    }

    /// Describes the error: the underlying cause's own message.
    pub fn description(&self) -> (r: &str)
        ensures
            r@ == self.message_spec(),
    {
        match self {
            ParseError::YamlScanError(d) => d.message.as_str(),
            ParseError::IOError(d) => d.message.as_str(),
            ParseError::UnknownValueError(s) => s.as_str(),
        }
    }
}

} // verus!
