//! The render driver: statement plus width to text, and the formatting
//! entry points built on it, including the would-format check.
use vstd::prelude::*;

use crate::ast::Statement;
use crate::error::FormaError;
use crate::layout::{render, spec_render_doc};
use crate::transform::{query_doc, v_statement_doc};

verus! {

/// The canonical text of a supported statement at the given width.
pub open spec fn spec_statement_text(st: Statement, w: usize) -> Seq<char> {
    spec_render_doc(v_statement_doc(st), w)
}

/// Renders the statement in accordance with the provided maximum width.
/// A query yields exactly its canonical text; a statement kind outside the
/// supported grammar fails with an explicit error rather than guessed
/// output.
pub fn render_statement(statement: &Statement, max_width: usize) -> (r: Result<
    String,
    FormaError,
>)
    ensures
        statement is Query ==> (r matches Ok(s) && s@ == spec_statement_text(
            *statement,
            max_width,
        )),
        statement is Unsupported ==> (r matches Err(e) && e is UnsupportedStatement),
{
    match statement {
        Statement::Query(q) => {
            let d = query_doc(&**q);
            Ok(render(&d, max_width))
        },
        Statement::Unsupported => Err(FormaError::UnsupportedStatement),
    }
}

/// Turns a supported statement into delightfully formatted SQL.
pub fn prettify_statement(statement: &Statement, width: usize) -> (r: String)
    requires
        statement is Query,
    ensures
        r@ == spec_statement_text(*statement, width),
{
    match statement {
        Statement::Query(q) => {
            let d = query_doc(&**q);
            render(&d, width)
        },
        Statement::Unsupported => vstd::pervasive::unreached(),
    }
}

/// A formatted statement as emitted: its canonical text, a semicolon and a
/// newline.
pub open spec fn spec_pretty_text(st: Statement, w: usize) -> Seq<char> {
    spec_statement_text(st, w) + ";\n"@
}

/// What formatting one statement returns: the emitted text, or the error
/// owed on this input. With `check` set, input that formatting would
/// change is reported instead of rewritten.
pub open spec fn spec_format_statement(st: Statement, sql: Seq<char>, check: bool, w: usize) -> Result<
    Seq<char>,
    FormaError,
> {
    if !(st is Query) {
        Err(FormaError::UnsupportedStatement)
    } else if check && spec_pretty_text(st, w) != sql {
        Err(FormaError::WouldFormat)
    } else {
        Ok(spec_pretty_text(st, w))
    }
}

/// Formats one statement: its canonical text followed by `;` and a
/// newline. When `check` is set and the result differs from `sql`, the
/// statement is reported as would-format instead.
pub fn format_statement(sql: &str, statement: &Statement, check: bool, max_width: usize) -> (r:
    Result<String, FormaError>)
    ensures
        (match r {
            Ok(s) => spec_format_statement(*statement, sql@, check, max_width) == Ok::<
                Seq<char>,
                FormaError,
            >(s@),
            Err(e) => spec_format_statement(*statement, sql@, check, max_width) == Err::<
                Seq<char>,
                FormaError,
            >(e),
        }),
{
    match render_statement(statement, max_width) {
        Err(e) => Err(e),
        Ok(rendered) => {
            let mut pretty = rendered;
            pretty.append(";\n");
            let sql_owned = sql.to_owned();
            if check && !(pretty == sql_owned) {
                Err(FormaError::WouldFormat)
            } else {
                Ok(pretty)
            }
        },
    }
}

/// What formatting a list of statements returns: the emitted texts in
/// order, or the first error.
pub open spec fn spec_format(sts: Seq<Statement>, sql: Seq<char>, check: bool, w: usize) -> Result<
    Seq<Seq<char>>,
    FormaError,
>
    decreases sts.len(),
{
    if sts.len() == 0 {
        Ok(Seq::empty())
    } else {
        match spec_format(sts.drop_last(), sql, check, w) {
            Err(e) => Err(e),
            Ok(prev) => match spec_format_statement(sts.last(), sql, check, w) {
                Err(e) => Err(e),
                Ok(t) => Ok(prev.push(t)),
            },
        }
    }
}

proof fn lemma_format_error_propagates(
    sts: Seq<Statement>,
    sql: Seq<char>,
    check: bool,
    w: usize,
    i: int,
)
    requires
        0 <= i <= sts.len(),
        spec_format(sts.take(i), sql, check, w) is Err,
    ensures
        spec_format(sts, sql, check, w) == spec_format(sts.take(i), sql, check, w),
    decreases sts.len() - i,
{
    if i == sts.len() {
        assert(sts.take(i) =~= sts);
    } else {
        assert(sts.take(i + 1).drop_last() =~= sts.take(i));
        lemma_format_error_propagates(sts, sql, check, w, i + 1);
    }
}

/// The views of a list of strings.
pub open spec fn texts_views(s: Seq<String>) -> Seq<Seq<char>> {
    s.map_values(|x: String| x@)
}

/// Formats a list of parsed statements in accordance with the given
/// maximum width. Each statement is formatted separately; the result holds
/// one emitted text per statement, or the first error.
pub fn format(statements: &Vec<Statement>, sql: &str, check: bool, max_width: usize) -> (r: Result<
    Vec<String>,
    FormaError,
>)
    ensures
        (match r {
            Ok(v) => spec_format(statements@, sql@, check, max_width) == Ok::<
                Seq<Seq<char>>,
                FormaError,
            >(texts_views(v@)),
            Err(e) => spec_format(statements@, sql@, check, max_width) == Err::<
                Seq<Seq<char>>,
                FormaError,
            >(e),
        }),
{
    let mut out: Vec<String> = Vec::new();
    let n = statements.len();
    let mut i: usize = 0;
    proof {
        assert(texts_views(out@) =~= Seq::<Seq<char>>::empty());
        assert(spec_format(statements@.take(0), sql@, check, max_width) == Ok::<
            Seq<Seq<char>>,
            FormaError,
        >(texts_views(out@)));
    }
    while i < n
        invariant
            i <= n,
            n == statements@.len(),
            spec_format(statements@.take(i as int), sql@, check, max_width) == Ok::<
                Seq<Seq<char>>,
                FormaError,
            >(texts_views(out@)),
        decreases n - i,
    {
        let ghost pre = statements@.take(i as int);
        match format_statement(sql, &statements[i], check, max_width) {
            Err(e) => {
                proof {
                    assert(statements@.take(i + 1).drop_last() =~= pre);
                    assert(statements@.take(i + 1).last() == statements@[i as int]);
                    assert(spec_format(statements@.take(i + 1), sql@, check, max_width) == Err::<
                        Seq<Seq<char>>,
                        FormaError,
                    >(e));
                    lemma_format_error_propagates(statements@, sql@, check, max_width, i + 1);
                }
                return Err(e);
            },
            Ok(t) => {
                let ghost prev_out = out@;
                let ghost tv = t@;
                out.push(t);
                i = i + 1;
                proof {
                    assert(statements@.take(i as int).drop_last() =~= pre);
                    assert(statements@.take(i as int).last() == statements@[i - 1]);
                    assert(texts_views(out@) =~= texts_views(prev_out).push(tv));
                }
            },
        }
    }
    proof {
        assert(statements@.take(n as int) =~= statements@);
    }
    Ok(out)
}

/// The concatenation of a list of texts, in order.
pub open spec fn concat_texts(s: Seq<Seq<char>>) -> Seq<char>
    decreases s.len(),
{
    if s.len() == 0 {
        Seq::empty()
    } else {
        concat_texts(s.drop_last()) + s.last()
    }
}

/// What formatting a whole input returns: every statement's emitted text,
/// concatenated in order, or the first error.
pub open spec fn spec_formatter(sts: Seq<Statement>, sql: Seq<char>, check: bool, w: usize) -> Result<
    Seq<char>,
    FormaError,
> {
    match spec_format(sts, sql, check, w) {
        Ok(v) => Ok(concat_texts(v)),
        Err(e) => Err(e),
    }
}

/// Formats the parsed statements of one input and returns the text to be
/// written: the formatted statements concatenated in order.
pub fn formatter(sql: &str, statements: &Vec<Statement>, check: bool, max_width: usize) -> (r:
    Result<String, FormaError>)
    ensures
        (match r {
            Ok(s) => spec_formatter(statements@, sql@, check, max_width) == Ok::<
                Seq<char>,
                FormaError,
            >(s@),
            Err(e) => spec_formatter(statements@, sql@, check, max_width) == Err::<
                Seq<char>,
                FormaError,
            >(e),
        }),
{
    let pieces = match format(statements, sql, check, max_width) {
        Ok(v) => v,
        Err(e) => {
            return Err(e);
        },
    };
    let mut out = String::new();
    let n = pieces.len();
    let mut i: usize = 0;
    proof {
        assert(out@ =~= concat_texts(texts_views(pieces@).take(0)));
    }
    while i < n
        invariant
            i <= n,
            n == pieces@.len(),
            out@ == concat_texts(texts_views(pieces@).take(i as int)),
        decreases n - i,
    {
        out.append(pieces[i].as_str());
        i = i + 1;
        proof {
            assert(texts_views(pieces@).take(i as int).drop_last() =~= texts_views(
                pieces@,
            ).take(i - 1));
            assert(texts_views(pieces@).take(i as int).last() == pieces@[i - 1]@);
        }
    }
    proof {
        assert(texts_views(pieces@).take(n as int) =~= texts_views(pieces@));
    }
    Ok(out)
}

} // verus!
