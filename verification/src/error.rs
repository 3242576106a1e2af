//! The formatter's error type. Every failure is a returned value; no
//! partial output is produced for a statement that errors.
use vstd::prelude::*;

verus! {

/// What can go wrong while formatting.
#[derive(Debug)]
pub enum FormaError {
    /// The input could not be parsed as SQL. Raised at the parsing
    /// boundary, outside the core; it carries the parser's message.
    InvalidInput(String),
    /// Formatting would change the input; raised only when a check run was
    /// asked for.
    WouldFormat,
    /// The statement is outside the supported query grammar.
    UnsupportedStatement,
    /// Writing to the output destination failed. Raised only by callers
    /// that own a sink.
    TransformationFailure,
    /// The rendered bytes were not valid text. Unreachable for documents
    /// built from text; kept so callers can surface it rather than swallow
    /// it.
    Utf8Failure,
}

impl FormaError {
    /// A short human-readable description of the error.
    pub fn message(&self) -> (r: String)
        ensures
            r@.len() > 0,
    {
        let s = match self {
            FormaError::InvalidInput(_) => "Invalid SQL provided as input",
            FormaError::WouldFormat => "Check failed; would format SQL",
            FormaError::UnsupportedStatement => "Unsupported statement kind",
            FormaError::TransformationFailure => "Transformation did not succeed",
            FormaError::Utf8Failure => "A UTF8 error occurred",
        };
        proof {
            reveal_strlit("Invalid SQL provided as input");
            reveal_strlit("Check failed; would format SQL");
            reveal_strlit("Unsupported statement kind");
            reveal_strlit("Transformation did not succeed");
            reveal_strlit("A UTF8 error occurred");
        }
        s.to_owned()
    }
}

} // verus!
