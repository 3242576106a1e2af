//! The templated dialect: the identifier grammar handed to the external
//! parser, widened so `{{...}}`-delimited template tokens read as ordinary
//! identifiers. The core renders such identifiers as plain text.
use vstd::prelude::*;

verus! {

/// A generic SQL dialect that tolerates template brackets in identifiers.
pub struct TemplatedDialect {}

impl TemplatedDialect {
    /// Whether a character can start an identifier: a letter, `_`, `#`,
    /// `@`, or an opening template bracket.
    pub fn is_identifier_start(&self, ch: char) -> (r: bool)
        ensures
            r == (('a' <= ch && ch <= 'z') || ('A' <= ch && ch <= 'Z') || ch == '_' || ch == '#'
                || ch == '@' || ch == '{'),
    {
        ('a' <= ch && ch <= 'z') || ('A' <= ch && ch <= 'Z') || ch == '_' || ch == '#' || ch == '@'
            || ch == '{'
    }

    /// Whether a character can continue an identifier: a letter, a digit,
    /// `@`, `$`, `#`, `_`, or a template bracket.
    pub fn is_identifier_part(&self, ch: char) -> (r: bool)
        ensures
            r == (('a' <= ch && ch <= 'z') || ('A' <= ch && ch <= 'Z') || ('0' <= ch && ch <= '9')
                || ch == '@' || ch == '$' || ch == '#' || ch == '_' || ch == '{' || ch == '}'),
    {
        ('a' <= ch && ch <= 'z') || ('A' <= ch && ch <= 'Z') || ('0' <= ch && ch <= '9') || ch
            == '@' || ch == '$' || ch == '#' || ch == '_' || ch == '{' || ch == '}'
    }
}

} // verus!
