//! The document model: an immutable tree describing abstract layout
//! (literal text, conditional and unconditional line breaks, indentation,
//! grouping), independent of the final width.
use vstd::prelude::*;

verus! {

/// A layout document.
///
/// `Text` holds a newline-free literal. `Line` renders as one space in flat
/// mode and as a newline plus indentation in break mode; `ZeroLine` renders
/// as nothing in flat mode and like `Line` in break mode; `HardLine` always
/// renders as a newline plus indentation. `Nest` adds its delta to the
/// active indentation for its descendants, and `Group` marks a region that
/// is rendered flat if it fits the remaining width and broken otherwise.
pub enum Doc {
    Nil,
    Text(String),
    Line,
    ZeroLine,
    HardLine,
    Concat(Box<Doc>, Box<Doc>),
    Nest(usize, Box<Doc>),
    Group(Box<Doc>),
}

/// The mathematical shape of a document: the same tree with text as a
/// sequence of characters. All layout contracts are stated over this type.
pub enum DocV {
    Nil,
    Text(Seq<char>),
    Line,
    ZeroLine,
    HardLine,
    Concat(Box<DocV>, Box<DocV>),
    Nest(usize, Box<DocV>),
    Group(Box<DocV>),
}

/// The view of a document: the same tree over character sequences.
pub open spec fn doc_view(d: Doc) -> DocV
    decreases d,
{
    match d {
        Doc::Nil => DocV::Nil,
        Doc::Text(s) => DocV::Text(s@),
        Doc::Line => DocV::Line,
        Doc::ZeroLine => DocV::ZeroLine,
        Doc::HardLine => DocV::HardLine,
        Doc::Concat(a, b) => DocV::Concat(Box::new(doc_view(*a)), Box::new(doc_view(*b))),
        Doc::Nest(n, a) => DocV::Nest(n, Box::new(doc_view(*a))),
        Doc::Group(a) => DocV::Group(Box::new(doc_view(*a))),
    }
}

impl View for Doc {
    type V = DocV;

    open spec fn view(&self) -> DocV {
        doc_view(*self)
    }
}

/// Structural size of a document; the termination measure for the
/// layout functions.
pub open spec fn doc_size(d: DocV) -> nat
    decreases d,
{
    match d {
        DocV::Concat(a, b) => 1 + doc_size(*a) + doc_size(*b),
        DocV::Nest(_, a) => 1 + doc_size(*a),
        DocV::Group(a) => 1 + doc_size(*a),
        _ => 1,
    }
}

pub open spec fn v_cat(a: DocV, b: DocV) -> DocV {
    DocV::Concat(Box::new(a), Box::new(b))
}

pub open spec fn v_nest(n: usize, a: DocV) -> DocV {
    DocV::Nest(n, Box::new(a))
}

pub open spec fn v_group(a: DocV) -> DocV {
    DocV::Group(Box::new(a))
}

/// The empty document.
pub fn nil() -> (d: Doc)
    ensures
        d@ == DocV::Nil,
{
    Doc::Nil
}

/// A literal document. The string must contain no newline; line structure
/// flows only through `Line`, `ZeroLine` and `HardLine`.
pub fn text(s: &str) -> (d: Doc)
    ensures
        d@ == DocV::Text(s@),
{
    Doc::Text(s.to_owned())
}

/// A literal document from an owned string.
pub fn owned_text(s: String) -> (d: Doc)
    ensures
        d@ == DocV::Text(s@),
{
    Doc::Text(s)
}

/// A space in flat mode, a newline plus indentation in break mode.
pub fn line() -> (d: Doc)
    ensures
        d@ == DocV::Line,
{
    Doc::Line
}

/// Nothing in flat mode, a newline plus indentation in break mode.
pub fn zero_line() -> (d: Doc)
    ensures
        d@ == DocV::ZeroLine,
{
    Doc::ZeroLine
}

/// A newline plus indentation in every mode; a group that contains one can
/// never be rendered flat.
pub fn hard_line() -> (d: Doc)
    ensures
        d@ == DocV::HardLine,
{
    Doc::HardLine
}

/// `a` followed by `b` under the same indentation and mode.
pub fn cat(a: Doc, b: Doc) -> (d: Doc)
    ensures
        d@ == v_cat(a@, b@),
{
    Doc::Concat(Box::new(a), Box::new(b))
}

/// Adds `n` to the active indentation for everything inside `a`.
pub fn nest(n: usize, a: Doc) -> (d: Doc)
    ensures
        d@ == v_nest(n, a@),
{
    Doc::Nest(n, Box::new(a))
}

/// A unit that is rendered flat if it fits the remaining width, else broken.
pub fn group(a: Doc) -> (d: Doc)
    ensures
        d@ == v_group(a@),
{
    Doc::Group(Box::new(a))
}

/// The views of a sequence of documents.
pub open spec fn docs_views(s: Seq<Doc>) -> Seq<DocV> {
    s.map_values(|x: Doc| x@)
}

/// The separator placed after each document of a list but the last.
#[derive(Clone, Copy)]
pub enum SepKind {
    /// A comma and a conditional line break.
    CommaLine,
    /// A conditional line break.
    SoftLine,
    /// An unconditional line break.
    HardBreak,
    /// Nothing: the documents follow each other directly.
    Adjacent,
}

/// The separator document of a kind.
pub open spec fn v_sep_doc(k: SepKind) -> DocV {
    match k {
        SepKind::CommaLine => v_cat(DocV::Text(","@), DocV::Line),
        SepKind::SoftLine => DocV::Line,
        SepKind::HardBreak => DocV::HardLine,
        SepKind::Adjacent => DocV::Nil,
    }
}

fn sep_doc(k: SepKind) -> (d: Doc)
    ensures
        d@ == v_sep_doc(k),
{
    match k {
        SepKind::CommaLine => cat(text(","), line()),
        SepKind::SoftLine => line(),
        SepKind::HardBreak => hard_line(),
        SepKind::Adjacent => nil(),
    }
}

/// `intersperse` over the views of a sequence of documents: the documents
/// in order, each but the last followed by the separator.
pub open spec fn v_intersperse(k: SepKind, ds: Seq<DocV>) -> DocV
    decreases ds.len(),
{
    if ds.len() == 0 {
        DocV::Nil
    } else if ds.len() == 1 {
        ds[0]
    } else {
        v_cat(v_cat(ds[0], v_sep_doc(k)), v_intersperse(k, ds.drop_first()))
    }
}

/// Interleaves the provided documents with the separator of the given kind.
pub fn intersperse(k: SepKind, ds: Vec<Doc>) -> (d: Doc)
    ensures
        d@ == v_intersperse(k, docs_views(ds@)),
{
    let ghost all = docs_views(ds@);
    let ghost n = all.len();
    let mut ds = ds;
    let mut out = Doc::Nil;
    let mut started = false;
    while ds.len() > 0
        invariant
            n == all.len(),
            ds@.len() <= n,
            all.subrange(0, ds@.len() as int) =~= docs_views(ds@),
            started == (ds@.len() < n),
            started ==> out@ == v_intersperse(k, all.subrange(ds@.len() as int, n as int)),
            !started ==> out@ == DocV::Nil,
        decreases ds@.len(),
    {
        let ghost len0 = ds@.len() as int;
        let ghost prev = ds@;
        let item = ds.pop().unwrap();
        proof {
            assert(docs_views(prev)[len0 - 1] == prev[len0 - 1]@);
            assert(all[len0 - 1] == item@);
            assert(docs_views(ds@) =~= all.subrange(0, len0 - 1));
        }
        if started {
            out = cat(cat(item, sep_doc(k)), out);
        } else {
            out = item;
            started = true;
        }
        proof {
            assert(all.subrange(len0 - 1, n as int).drop_first() =~= all.subrange(
                len0,
                n as int,
            ));
            assert(all.subrange(len0 - 1, n as int)[0] == all[len0 - 1]);
        }
    }
    proof {
        if n == 0 {
            assert(all.subrange(0, 0) =~= all);
        } else {
            assert(all.subrange(0, n as int) =~= all);
        }
    }
    out
}

/// `interweave_comma` over the views of a sequence of documents: the
/// documents in order, each but the last followed by a comma and a
/// conditional line break.
pub open spec fn v_interweave_comma(ds: Seq<DocV>) -> DocV {
    v_intersperse(SepKind::CommaLine, ds)
}

/// Interweaves the provided documents with a comma and a conditional break.
pub fn interweave_comma(ds: Vec<Doc>) -> (d: Doc)
    ensures
        d@ == v_interweave_comma(docs_views(ds@)),
{
    intersperse(SepKind::CommaLine, ds)
}

/// The view of `parenthenized`: an opening parenthesis, a zero-width break,
/// the nested content, a zero-width break and a closing parenthesis, grouped
/// so the whole renders on one line when it fits.
pub open spec fn v_parenthenized(d: DocV) -> DocV {
    v_group(
        v_cat(
            v_cat(v_nest(2, v_cat(v_cat(DocV::Text("("@), DocV::ZeroLine), d)), DocV::ZeroLine),
            DocV::Text(")"@),
        ),
    )
}

/// Surrounds the provided document with parentheses and a soft break.
pub fn parenthenized(d: Doc) -> (r: Doc)
    ensures
        r@ == v_parenthenized(d@),
{
    group(cat(cat(nest(2, cat(cat(text("("), zero_line()), d)), zero_line()), text(")")))
}

} // verus!

verus! {

/// The document model's well-formedness: no text leaf embeds a raw
/// newline. All line structure flows through `Line`, `ZeroLine` and
/// `HardLine`; a text that broke this could fall outside every layout
/// guarantee.
pub open spec fn docv_wf(d: DocV) -> bool
    decreases d,
{
    match d {
        DocV::Text(s) => forall|i: int| 0 <= i < s.len() ==> s[i] != '\n',
        DocV::Concat(a, b) => docv_wf(*a) && docv_wf(*b),
        DocV::Nest(_, a) => docv_wf(*a),
        DocV::Group(a) => docv_wf(*a),
        _ => true,
    }
}

} // verus!
