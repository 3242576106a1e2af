//! An opinionated, width-aware SQL pretty-printer.
//!
//! A parsed statement and a target line width go in; canonical, reformatted
//! SQL text comes out. The document model and layout engine implement a
//! Wadler-style layout algebra with conditional line breaking; the
//! transformers map the SQL grammar onto documents.
pub mod ast;
pub mod chars;
pub mod dialect;
pub mod doc;
pub mod error;
pub mod format;
pub mod layout;
pub mod transform;

pub use crate::dialect::TemplatedDialect;
pub use crate::doc::{interweave_comma, parenthenized, Doc};
pub use crate::error::FormaError;
pub use crate::format::{format_statement, formatter, prettify_statement, render_statement};
pub use crate::layout::render;
pub use crate::transform::{body_doc, expr_doc, ident_doc, is_newline_op, order_by_doc, query_doc, resolve_negation};
