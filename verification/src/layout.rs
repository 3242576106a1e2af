//! The layout engine: renders a document within a maximum width by
//! deciding, per group, whether its content fits flat on the current line
//! or must break.
//!
//! The renderer walks an explicit work list of `(indentation, flat, doc)`
//! triples. Columns and indentation saturate at the machine word limit,
//! far past any width a caller can ask for.
use vstd::prelude::*;

use crate::doc::{doc_size, Doc, DocV};

verus! {

/// A pending unit of work: active indentation, mode (`true` is flat) and
/// the document to render.
pub type Item<'a> = (usize, bool, &'a Doc);

/// The mathematical counterpart of a work item.
pub type ItemV = (usize, bool, DocV);

/// `n` spaces.
pub open spec fn spaces(n: usize) -> Seq<char> {
    Seq::new(n as nat, |i: int| ' ')
}

/// What a line break emits: a newline and the active indentation.
pub open spec fn break_text(ind: usize) -> Seq<char> {
    seq!['\n'] + spaces(ind)
}

/// Addition that saturates at the machine word limit.
pub open spec fn add_sat(a: int, b: int) -> usize {
    if a + b <= usize::MAX {
        (a + b) as usize
    } else {
        usize::MAX
    }
}

fn sat_add(a: usize, b: usize) -> (r: usize)
    ensures
        r == add_sat(a as int, b as int),
{
    if b <= usize::MAX - a {
        a + b
    } else {
        usize::MAX
    }
}

/// The view of a work item.
pub open spec fn item_view(t: Item<'_>) -> ItemV {
    (t.0, t.1, t.2@)
}

/// The view of a work list.
pub open spec fn stack_view(s: Seq<Item<'_>>) -> Seq<ItemV> {
    s.map_values(|t: Item<'_>| item_view(t))
}

/// Total document size on a work list; the termination measure of the
/// layout functions.
pub open spec fn items_size(items: Seq<ItemV>) -> nat
    decreases items.len(),
{
    if items.len() == 0 {
        0
    } else {
        items_size(items.drop_last()) + doc_size(items.last().2)
    }
}

pub proof fn lemma_items_size_push(s: Seq<ItemV>, x: ItemV)
    ensures
        items_size(s.push(x)) == items_size(s) + doc_size(x.2),
{
    assert(s.push(x).drop_last() =~= s);
    assert(s.push(x).last() == x);
}

/// The fits-check: simulates flat rendering of the items on the work list,
/// last item first, within `w` columns starting from column `col`. The
/// simulation flattens everything up to the next unconditional break: a
/// `HardLine` reached in break mode -- content that is past the group under
/// test -- ends the scan successfully, one inside the flat content means
/// the group can never be flat, and the scan fails as soon as the column
/// budget is exceeded.
pub open spec fn spec_fits(col: usize, w: usize, items: Seq<ItemV>) -> bool
    decreases items_size(items), items.len(),
    via spec_fits_decreases
{
    if col > w {
        false
    } else if items.len() == 0 {
        true
    } else {
        let (ind, flat, d) = items.last();
        let rest = items.drop_last();
        match d {
            DocV::Nil => spec_fits(col, w, rest),
            DocV::Text(s) => spec_fits(add_sat(col as int, s.len() as int), w, rest),
            DocV::Line => spec_fits(add_sat(col as int, 1), w, rest),
            DocV::ZeroLine => spec_fits(col, w, rest),
            DocV::HardLine => !flat,
            DocV::Concat(a, b) => spec_fits(
                col,
                w,
                rest.push((ind, flat, *b)).push((ind, flat, *a)),
            ),
            DocV::Nest(n, a) => spec_fits(
                col,
                w,
                rest.push((add_sat(ind as int, n as int), flat, *a)),
            ),
            DocV::Group(a) => spec_fits(col, w, rest.push((ind, flat, *a))),
        }
    }
}

#[via_fn]
proof fn spec_fits_decreases(col: usize, w: usize, items: Seq<ItemV>) {
    if col <= w && items.len() > 0 {
        let (ind, flat, d) = items.last();
        let rest = items.drop_last();
        match d {
            DocV::Concat(a, b) => {
                lemma_items_size_push(rest, (ind, flat, *b));
                lemma_items_size_push(rest.push((ind, flat, *b)), (ind, flat, *a));
            },
            DocV::Nest(n, a) => {
                lemma_items_size_push(rest, (add_sat(ind as int, n as int), flat, *a));
            },
            DocV::Group(a) => {
                lemma_items_size_push(rest, (ind, flat, *a));
            },
            _ => {},
        }
    }
}

/// What the work list renders to, last item first. Each group re-runs its
/// own fits-check at its own starting column; text advances the column,
/// breaks reset it to the active indentation.
pub open spec fn spec_render(col: usize, w: usize, items: Seq<ItemV>) -> Seq<char>
    decreases items_size(items), items.len(),
    via spec_render_decreases
{
    if items.len() == 0 {
        Seq::empty()
    } else {
        let (ind, flat, d) = items.last();
        let rest = items.drop_last();
        match d {
            DocV::Nil => spec_render(col, w, rest),
            DocV::Text(s) => s + spec_render(add_sat(col as int, s.len() as int), w, rest),
            DocV::Line => if flat {
                seq![' '] + spec_render(add_sat(col as int, 1), w, rest)
            } else {
                break_text(ind) + spec_render(ind, w, rest)
            },
            DocV::ZeroLine => if flat {
                spec_render(col, w, rest)
            } else {
                break_text(ind) + spec_render(ind, w, rest)
            },
            DocV::HardLine => break_text(ind) + spec_render(ind, w, rest),
            DocV::Concat(a, b) => spec_render(
                col,
                w,
                rest.push((ind, flat, *b)).push((ind, flat, *a)),
            ),
            DocV::Nest(n, a) => spec_render(
                col,
                w,
                rest.push((add_sat(ind as int, n as int), flat, *a)),
            ),
            DocV::Group(a) => if flat || spec_fits(col, w, rest.push((ind, true, *a))) {
                spec_render(col, w, rest.push((ind, true, *a)))
            } else {
                spec_render(col, w, rest.push((ind, false, *a)))
            },
        }
    }
}

#[via_fn]
proof fn spec_render_decreases(col: usize, w: usize, items: Seq<ItemV>) {
    if items.len() > 0 {
        let (ind, flat, d) = items.last();
        let rest = items.drop_last();
        match d {
            DocV::Concat(a, b) => {
                lemma_items_size_push(rest, (ind, flat, *b));
                lemma_items_size_push(rest.push((ind, flat, *b)), (ind, flat, *a));
            },
            DocV::Nest(n, a) => {
                lemma_items_size_push(rest, (add_sat(ind as int, n as int), flat, *a));
            },
            DocV::Group(a) => {
                lemma_items_size_push(rest, (ind, true, *a));
                lemma_items_size_push(rest, (ind, false, *a));
            },
            _ => {},
        }
    }
}

/// What a whole document renders to at the given width: the layout
/// engine's full specification.
pub open spec fn spec_render_doc(d: DocV, w: usize) -> Seq<char> {
    spec_render(0, w, seq![(0usize, false, d)])
}

fn push_newline_indent(out: &mut String, ind: usize)
    ensures
        final(out)@ == old(out)@ + break_text(ind),
{
    let ghost start = out@;
    out.append("\n");
    proof {
        reveal_strlit("\n");
        assert("\n"@ =~= seq!['\n']);
    }
    let mut i: usize = 0;
    while i < ind
        invariant
            i <= ind,
            out@ == start + seq!['\n'] + spaces(i),
        decreases ind - i,
    {
        out.append(" ");
        i = i + 1;
        proof {
            reveal_strlit(" ");
            assert(" "@ =~= seq![' ']);
            assert(spaces((i - 1) as usize) + seq![' '] =~= spaces(i));
            assert(out@ =~= start + seq!['\n'] + spaces(i));
        }
    }
    proof {
        assert(out@ =~= start + break_text(ind));
    }
}

/// The streaming fits-check over the current work list: `first` followed by
/// the pending items of `stack`, scanned from the top down.
#[verifier::rlimit(80)]
fn fits<'a>(w: usize, col: usize, stack: &Vec<Item<'a>>, first: Item<'a>) -> (r: bool)
    ensures
        r == spec_fits(col, w, stack_view(stack@).push(item_view(first))),
{
    if col > w {
        return false;
    }
    let mut overlay: Vec<Item<'a>> = Vec::new();
    overlay.push(first);
    proof {
        assert(stack_view(overlay@) =~= Seq::<ItemV>::empty().push(item_view(first)));
        assert(stack_view(stack@.take(stack@.len() as int)) + stack_view(overlay@)
            =~= stack_view(stack@).push(item_view(first)));
    }
    let mut j: usize = stack.len();
    let mut c: usize = col;
    loop
        invariant
            j <= stack@.len(),
            c <= w,
            spec_fits(col, w, stack_view(stack@).push(item_view(first))) == spec_fits(
                c,
                w,
                stack_view(stack@.take(j as int)) + stack_view(overlay@),
            ),
        decreases items_size(stack_view(stack@.take(j as int)) + stack_view(overlay@)),
    {
        let ghost comb = stack_view(stack@.take(j as int)) + stack_view(overlay@);
        let it: Item<'a>;
        if overlay.len() > 0 {
            let ghost ov = overlay@;
            it = overlay.pop().unwrap();
            proof {
                assert(stack_view(ov).drop_last() =~= stack_view(ov.drop_last()));
                assert(comb.drop_last() =~= stack_view(stack@.take(j as int)) + stack_view(
                    overlay@,
                ));
                assert(comb.last() == item_view(it));
            }
        } else if j > 0 {
            j = j - 1;
            it = stack[j];
            proof {
                assert(stack@.take(j + 1).drop_last() =~= stack@.take(j as int));
                assert(stack_view(stack@.take(j + 1)).drop_last() =~= stack_view(
                    stack@.take(j as int),
                ));
                assert(comb.drop_last() =~= stack_view(stack@.take(j as int)) + stack_view(
                    overlay@,
                ));
                assert(stack@.take(j + 1).last() == it);
                assert(comb.last() == item_view(it));
            }
        } else {
            proof {
                assert(comb =~= Seq::<ItemV>::empty());
            }
            return true;
        }
        let ghost rest = comb.drop_last();
        let (ind, flat, d) = it;
        match d {
            Doc::Nil => {},
            Doc::Text(s) => {
                let l = s.as_str().unicode_len();
                c = sat_add(c, l);
                if c > w {
                    proof {
                        assert(!spec_fits(c, w, rest));
                    }
                    return false;
                }
            },
            Doc::Line => {
                c = sat_add(c, 1);
                if c > w {
                    proof {
                        assert(!spec_fits(c, w, rest));
                    }
                    return false;
                }
            },
            Doc::ZeroLine => {},
            Doc::HardLine => {
                return !flat;
            },
            Doc::Concat(a, b) => {
                overlay.push((ind, flat, &**b));
                overlay.push((ind, flat, &**a));
                proof {
                    assert(stack_view(stack@.take(j as int)) + stack_view(overlay@) =~= rest.push(
                        (ind, flat, b@),
                    ).push((ind, flat, a@)));
                    lemma_items_size_push(rest, (ind, flat, b@));
                    lemma_items_size_push(rest.push((ind, flat, b@)), (ind, flat, a@));
                }
            },
            Doc::Nest(n, a) => {
                let ni = sat_add(ind, *n);
                overlay.push((ni, flat, &**a));
                proof {
                    assert(stack_view(stack@.take(j as int)) + stack_view(overlay@) =~= rest.push(
                        (ni, flat, a@),
                    ));
                    lemma_items_size_push(rest, (ni, flat, a@));
                }
            },
            Doc::Group(a) => {
                overlay.push((ind, flat, &**a));
                proof {
                    assert(stack_view(stack@.take(j as int)) + stack_view(overlay@) =~= rest.push(
                        (ind, flat, a@),
                    ));
                    lemma_items_size_push(rest, (ind, flat, a@));
                }
            },
        }
        proof {
            lemma_items_size_push(rest, comb.last());
            assert(comb =~= rest.push(comb.last()));
        }
    }
}

/// Renders the document within the given width and returns the text as one
/// string. Width is a soft target: content that cannot fit even fully
/// broken is still emitted past the budget.
#[verifier::rlimit(80)]
pub fn render(doc: &Doc, width: usize) -> (r: String)
    ensures
        r@ == spec_render_doc(doc@, width),
{
    let mut out = String::new();
    let mut col: usize = 0;
    let mut stack: Vec<Item<'_>> = Vec::new();
    stack.push((0, false, doc));
    proof {
        assert(stack_view(stack@) =~= Seq::<ItemV>::empty().push((0usize, false, doc@)));
        assert(stack_view(stack@) =~= seq![(0usize, false, doc@)]);
    }
    while stack.len() > 0
        invariant
            out@ + spec_render(col, width, stack_view(stack@)) == spec_render_doc(doc@, width),
        decreases items_size(stack_view(stack@)),
    {
        let ghost pre = stack_view(stack@);
        let ghost out0 = out@;
        let (ind, flat, d) = stack.pop().unwrap();
        proof {
            assert(pre.drop_last() =~= stack_view(stack@));
            assert(pre.last() == (ind, flat, d@));
        }
        let ghost rest = stack_view(stack@);
        match d {
            Doc::Nil => {},
            Doc::Text(s) => {
                let l = s.as_str().unicode_len();
                out.append(s.as_str());
                col = sat_add(col, l);
                proof {
                    assert(out@ + spec_render(col, width, rest) =~= out0 + (s@ + spec_render(
                        col,
                        width,
                        rest,
                    )));
                }
            },
            Doc::Line => {
                if flat {
                    out.append(" ");
                    col = sat_add(col, 1);
                    proof {
                        reveal_strlit(" ");
                        assert(" "@ =~= seq![' ']);
                        assert(out@ + spec_render(col, width, rest) =~= out0 + (seq![' ']
                            + spec_render(col, width, rest)));
                    }
                } else {
                    push_newline_indent(&mut out, ind);
                    col = ind;
                    proof {
                        assert(out@ + spec_render(col, width, rest) =~= out0 + (break_text(ind)
                            + spec_render(ind, width, rest)));
                    }
                }
            },
            Doc::ZeroLine => {
                if !flat {
                    push_newline_indent(&mut out, ind);
                    col = ind;
                    proof {
                        assert(out@ + spec_render(col, width, rest) =~= out0 + (break_text(ind)
                            + spec_render(ind, width, rest)));
                    }
                }
            },
            Doc::HardLine => {
                push_newline_indent(&mut out, ind);
                col = ind;
                proof {
                    assert(out@ + spec_render(col, width, rest) =~= out0 + (break_text(ind)
                        + spec_render(ind, width, rest)));
                }
            },
            Doc::Concat(a, b) => {
                stack.push((ind, flat, &**b));
                stack.push((ind, flat, &**a));
                proof {
                    assert(stack_view(stack@) =~= rest.push((ind, flat, b@)).push(
                        (ind, flat, a@),
                    ));
                    lemma_items_size_push(rest, (ind, flat, b@));
                    lemma_items_size_push(rest.push((ind, flat, b@)), (ind, flat, a@));
                }
            },
            Doc::Nest(n, a) => {
                let ni = sat_add(ind, *n);
                stack.push((ni, flat, &**a));
                proof {
                    assert(stack_view(stack@) =~= rest.push((ni, flat, a@)));
                    lemma_items_size_push(rest, (ni, flat, a@));
                }
            },
            Doc::Group(a) => {
                if flat {
                    stack.push((ind, true, &**a));
                    proof {
                        assert(stack_view(stack@) =~= rest.push((ind, true, a@)));
                        lemma_items_size_push(rest, (ind, true, a@));
                    }
                } else {
                    let f = fits(width, col, &stack, (ind, true, &**a));
                    stack.push((ind, f, &**a));
                    proof {
                        assert(stack_view(stack@) =~= rest.push((ind, f, a@)));
                        lemma_items_size_push(rest, (ind, f, a@));
                    }
                }
            },
        }
        proof {
            lemma_items_size_push(rest, pre.last());
            assert(pre =~= rest.push(pre.last()));
        }
    }
    out
}

} // verus!

verus! {

/// Determinism: the rendered text is a function of the document and the
/// width alone, so the same tree and width always produce byte-identical
/// output. `render` returns exactly `spec_render_doc`, so two calls on
/// equal inputs return equal strings.
pub proof fn lemma_render_deterministic(d1: DocV, d2: DocV, w1: usize, w2: usize)
    requires
        d1 == d2,
        w1 == w2,
    ensures
        spec_render_doc(d1, w1) == spec_render_doc(d2, w2),
{
}

/// An item at which the fits-check always stops: an unconditional break
/// reached in break mode.
pub open spec fn is_break_item(t: ItemV) -> bool {
    !t.1 && t.2 is HardLine
}

/// The fits-check never looks past an unconditional break: items that lie
/// deeper on the work list than a break-mode line have no bearing on its
/// outcome.
pub proof fn lemma_fits_stops_at_break(
    c: usize,
    w: usize,
    deep1: Seq<ItemV>,
    deep2: Seq<ItemV>,
    brk: ItemV,
    top: Seq<ItemV>,
)
    requires
        is_break_item(brk),
    ensures
        spec_fits(c, w, deep1.push(brk) + top) == spec_fits(c, w, deep2.push(brk) + top),
    decreases items_size(top), top.len(),
{
    let s1 = deep1.push(brk) + top;
    let s2 = deep2.push(brk) + top;
    if c > w {
    } else if top.len() == 0 {
        assert(s1 =~= deep1.push(brk));
        assert(s2 =~= deep2.push(brk));
        assert(spec_fits(c, w, s1));
        assert(spec_fits(c, w, s2));
    } else {
        let (ind, flat, d) = top.last();
        let rest = top.drop_last();
        assert(s1.last() == top.last());
        assert(s2.last() == top.last());
        assert(s1.drop_last() =~= deep1.push(brk) + rest);
        assert(s2.drop_last() =~= deep2.push(brk) + rest);
        match d {
            DocV::Nil => {
                lemma_fits_stops_at_break(c, w, deep1, deep2, brk, rest);
            },
            DocV::Text(s) => {
                lemma_fits_stops_at_break(add_sat(c as int, s.len() as int), w, deep1, deep2, brk, rest);
            },
            DocV::Line => {
                lemma_fits_stops_at_break(add_sat(c as int, 1), w, deep1, deep2, brk, rest);
            },
            DocV::ZeroLine => {
                lemma_fits_stops_at_break(c, w, deep1, deep2, brk, rest);
            },
            DocV::HardLine => {},
            DocV::Concat(a, b) => {
                let top2 = rest.push((ind, flat, *b)).push((ind, flat, *a));
                assert((deep1.push(brk) + rest).push((ind, flat, *b)).push((ind, flat, *a))
                    =~= deep1.push(brk) + top2);
                assert((deep2.push(brk) + rest).push((ind, flat, *b)).push((ind, flat, *a))
                    =~= deep2.push(brk) + top2);
                lemma_items_size_push(rest, (ind, flat, *b));
                lemma_items_size_push(rest.push((ind, flat, *b)), (ind, flat, *a));
                lemma_fits_stops_at_break(c, w, deep1, deep2, brk, top2);
            },
            DocV::Nest(n, a) => {
                let ni = add_sat(ind as int, n as int);
                let top2 = rest.push((ni, flat, *a));
                assert((deep1.push(brk) + rest).push((ni, flat, *a)) =~= deep1.push(brk) + top2);
                assert((deep2.push(brk) + rest).push((ni, flat, *a)) =~= deep2.push(brk) + top2);
                lemma_items_size_push(rest, (ni, flat, *a));
                lemma_fits_stops_at_break(c, w, deep1, deep2, brk, top2);
            },
            DocV::Group(a) => {
                let top2 = rest.push((ind, flat, *a));
                assert((deep1.push(brk) + rest).push((ind, flat, *a)) =~= deep1.push(brk) + top2);
                assert((deep2.push(brk) + rest).push((ind, flat, *a)) =~= deep2.push(brk) + top2);
                lemma_items_size_push(rest, (ind, flat, *a));
                lemma_fits_stops_at_break(c, w, deep1, deep2, brk, top2);
            },
        }
    }
}

/// Group independence: whether a group is rendered flat depends only on
/// its own content, its starting column and the content that follows it up
/// to the next unconditional break. Varying anything beyond that break --
/// an already-broken sibling, say -- cannot change the decision.
pub proof fn lemma_group_decision_independent(
    col: usize,
    w: usize,
    deep1: Seq<ItemV>,
    deep2: Seq<ItemV>,
    brk: ItemV,
    ind: usize,
    g: DocV,
)
    requires
        is_break_item(brk),
    ensures
        spec_fits(col, w, deep1.push(brk).push((ind, true, g))) == spec_fits(
            col,
            w,
            deep2.push(brk).push((ind, true, g)),
        ),
{
    assert(deep1.push(brk).push((ind, true, g)) =~= deep1.push(brk) + seq![(ind, true, g)]);
    assert(deep2.push(brk).push((ind, true, g)) =~= deep2.push(brk) + seq![(ind, true, g)]);
    lemma_items_size_push(Seq::empty(), (ind, true, g));
    assert(Seq::<ItemV>::empty().push((ind, true, g)) =~= seq![(ind, true, g)]);
    lemma_fits_stops_at_break(col, w, deep1, deep2, brk, seq![(ind, true, g)]);
}

} // verus!


verus! {

/// Every pending item is in flat mode and well formed.
pub open spec fn items_flat_wf(items: Seq<ItemV>) -> bool {
    forall|i: int|
        0 <= i < items.len() ==> (#[trigger] items[i]).1 && crate::doc::docv_wf(items[i].2)
}

/// Width discipline for accepted content: what the fits-check lets pass
/// is rendered flat -- one line, no newline -- and ends at or before the
/// width. This is the soundness of the fits-check: a group judged to fit
/// never overruns the line it starts on.
pub proof fn lemma_flat_content_fits_the_width(col: usize, w: usize, items: Seq<ItemV>)
    requires
        w < usize::MAX,
        items_flat_wf(items),
        spec_fits(col, w, items),
    ensures
        forall|j: int|
            0 <= j < spec_render(col, w, items).len() ==> spec_render(col, w, items)[j] != '\n',
        col + spec_render(col, w, items).len() <= w,
    decreases items_size(items), items.len(),
{
    if items.len() == 0 {
    } else {
        let (ind, flat, d) = items.last();
        let rest = items.drop_last();
        assert(items[items.len() - 1].1 && crate::doc::docv_wf(items[items.len() - 1].2));
        assert(items_flat_wf(rest)) by {
            assert(forall|i: int|
                0 <= i < rest.len() ==> rest[i] == items[i]);
        }
        match d {
            DocV::Nil => {
                lemma_flat_content_fits_the_width(col, w, rest);
            },
            DocV::Text(s) => {
                let col2 = add_sat(col as int, s.len() as int);
                lemma_flat_content_fits_the_width(col2, w, rest);
                let out = s + spec_render(col2, w, rest);
                assert(forall|j: int| 0 <= j < s.len() ==> out[j] != '\n');
                assert(forall|j: int|
                    s.len() <= j < out.len() ==> out[j] == spec_render(col2, w, rest)[j - s.len()]);
            },
            DocV::Line => {
                let col2 = add_sat(col as int, 1);
                lemma_flat_content_fits_the_width(col2, w, rest);
                let out = seq![' '] + spec_render(col2, w, rest);
                assert(out[0] == ' ');
                assert(forall|j: int|
                    1 <= j < out.len() ==> out[j] == spec_render(col2, w, rest)[j - 1]);
            },
            DocV::ZeroLine => {
                lemma_flat_content_fits_the_width(col, w, rest);
            },
            DocV::HardLine => {
                assert(false);
            },
            DocV::Concat(a, b) => {
                let s2 = rest.push((ind, flat, *b)).push((ind, flat, *a));
                assert(items_flat_wf(s2)) by {
                    assert(forall|i: int|
                        0 <= i < rest.len() ==> s2[i] == rest[i]);
                    assert(s2[s2.len() - 2] == (ind, flat, *b));
                    assert(s2[s2.len() - 1] == (ind, flat, *a));
                }
                lemma_items_size_push(rest, (ind, flat, *b));
                lemma_items_size_push(rest.push((ind, flat, *b)), (ind, flat, *a));
                lemma_flat_content_fits_the_width(col, w, s2);
            },
            DocV::Nest(n, a) => {
                let ni = add_sat(ind as int, n as int);
                let s2 = rest.push((ni, flat, *a));
                assert(items_flat_wf(s2)) by {
                    assert(forall|i: int|
                        0 <= i < rest.len() ==> s2[i] == rest[i]);
                    assert(s2[s2.len() - 1] == (ni, flat, *a));
                }
                lemma_items_size_push(rest, (ni, flat, *a));
                lemma_flat_content_fits_the_width(col, w, s2);
            },
            DocV::Group(a) => {
                let s2 = rest.push((ind, true, *a));
                assert(items_flat_wf(s2)) by {
                    assert(forall|i: int|
                        0 <= i < rest.len() ==> s2[i] == rest[i]);
                    assert(s2[s2.len() - 1] == (ind, true, *a));
                }
                lemma_items_size_push(rest, (ind, true, *a));
                lemma_flat_content_fits_the_width(col, w, s2);
            },
        }
    }
}


} // verus!

verus! {

/// Whether a document's first rendered element is an unconditional break.
pub open spec fn starts_hard(d: DocV) -> bool
    decreases d,
{
    match d {
        DocV::HardLine => true,
        DocV::Concat(a, _) => starts_hard(*a),
        _ => false,
    }
}

/// The fits-check resolves at an item that begins with a `HardLine`
/// without reading anything deeper: in flat mode the break refuses the
/// scan, in break mode it ends it successfully.
proof fn lemma_fits_hard_head(c: usize, w: usize, s: Seq<ItemV>, ind: usize, flat: bool, d: DocV)
    requires
        starts_hard(d),
    ensures
        spec_fits(c, w, s.push((ind, flat, d))) == (c <= w && !flat),
    decreases doc_size(d),
{
    let s1 = s.push((ind, flat, d));
    assert(s1.drop_last() =~= s);
    if c <= w {
        match d {
            DocV::HardLine => {},
            DocV::Concat(a, b) => {
                lemma_fits_hard_head(c, w, s.push((ind, flat, *b)), ind, flat, *a);
            },
            _ => {
                assert(false);
            },
        }
    }
}

/// The fits-check never looks past an item that begins with an
/// unconditional break: work lists that agree above such an item agree on
/// the outcome, whatever stands below it.
pub proof fn lemma_fits_ignores_past_hard(
    c: usize,
    w: usize,
    deep1: Seq<ItemV>,
    deep2: Seq<ItemV>,
    sep: ItemV,
    top: Seq<ItemV>,
)
    requires
        starts_hard(sep.2),
    ensures
        spec_fits(c, w, deep1.push(sep) + top) == spec_fits(c, w, deep2.push(sep) + top),
    decreases items_size(top), top.len(),
{
    let s1 = deep1.push(sep) + top;
    let s2 = deep2.push(sep) + top;
    if c > w {
    } else if top.len() == 0 {
        assert(s1 =~= deep1.push(sep));
        assert(s2 =~= deep2.push(sep));
        lemma_fits_hard_head(c, w, deep1, sep.0, sep.1, sep.2);
        lemma_fits_hard_head(c, w, deep2, sep.0, sep.1, sep.2);
    } else {
        let (ind, flat, d) = top.last();
        let rest = top.drop_last();
        assert(s1.last() == top.last());
        assert(s2.last() == top.last());
        assert(s1.drop_last() =~= deep1.push(sep) + rest);
        assert(s2.drop_last() =~= deep2.push(sep) + rest);
        match d {
            DocV::Nil => {
                lemma_fits_ignores_past_hard(c, w, deep1, deep2, sep, rest);
            },
            DocV::Text(s) => {
                lemma_fits_ignores_past_hard(
                    add_sat(c as int, s.len() as int),
                    w,
                    deep1,
                    deep2,
                    sep,
                    rest,
                );
            },
            DocV::Line => {
                lemma_fits_ignores_past_hard(add_sat(c as int, 1), w, deep1, deep2, sep, rest);
            },
            DocV::ZeroLine => {
                lemma_fits_ignores_past_hard(c, w, deep1, deep2, sep, rest);
            },
            DocV::HardLine => {},
            DocV::Concat(a, b) => {
                let top2 = rest.push((ind, flat, *b)).push((ind, flat, *a));
                assert((deep1.push(sep) + rest).push((ind, flat, *b)).push((ind, flat, *a))
                    =~= deep1.push(sep) + top2);
                assert((deep2.push(sep) + rest).push((ind, flat, *b)).push((ind, flat, *a))
                    =~= deep2.push(sep) + top2);
                lemma_items_size_push(rest, (ind, flat, *b));
                lemma_items_size_push(rest.push((ind, flat, *b)), (ind, flat, *a));
                lemma_fits_ignores_past_hard(c, w, deep1, deep2, sep, top2);
            },
            DocV::Nest(n, a) => {
                let ni = add_sat(ind as int, n as int);
                let top2 = rest.push((ni, flat, *a));
                assert((deep1.push(sep) + rest).push((ni, flat, *a)) =~= deep1.push(sep) + top2);
                assert((deep2.push(sep) + rest).push((ni, flat, *a)) =~= deep2.push(sep) + top2);
                lemma_items_size_push(rest, (ni, flat, *a));
                lemma_fits_ignores_past_hard(c, w, deep1, deep2, sep, top2);
            },
            DocV::Group(a) => {
                let top2 = rest.push((ind, flat, *a));
                assert((deep1.push(sep) + rest).push((ind, flat, *a)) =~= deep1.push(sep) + top2);
                assert((deep2.push(sep) + rest).push((ind, flat, *a)) =~= deep2.push(sep) + top2);
                lemma_items_size_push(rest, (ind, flat, *a));
                lemma_fits_ignores_past_hard(c, w, deep1, deep2, sep, top2);
            },
        }
    }
}

/// Group independence in its rendering form, and the splitting of output
/// at an unconditional break. When the deepest pending item begins with a
/// `HardLine`, everything rendered above it -- the returned prefix -- is
/// the same whatever stands below: the renderer emits that prefix, then
/// the break, then continues at the break's indentation with what
/// followed it. Varying an already-broken region beyond the break cannot
/// change a byte of the text before it.
pub proof fn lemma_render_before_hard_break_independent(
    col: usize,
    w: usize,
    deep1: Seq<ItemV>,
    deep2: Seq<ItemV>,
    ind: usize,
    flat: bool,
    tail: DocV,
    top: Seq<ItemV>,
) -> (pre: Seq<char>)
    ensures
        spec_render(col, w, deep1.push((ind, flat, crate::doc::v_cat(DocV::HardLine, tail))) + top)
            == pre + break_text(ind) + spec_render(ind, w, deep1.push((ind, flat, tail))),
        spec_render(col, w, deep2.push((ind, flat, crate::doc::v_cat(DocV::HardLine, tail))) + top)
            == pre + break_text(ind) + spec_render(ind, w, deep2.push((ind, flat, tail))),
    decreases items_size(top), top.len(),
{
    let m = crate::doc::v_cat(DocV::HardLine, tail);
    let s1 = deep1.push((ind, flat, m)) + top;
    let s2 = deep2.push((ind, flat, m)) + top;
    if top.len() == 0 {
        assert(s1 =~= deep1.push((ind, flat, m)));
        assert(s2 =~= deep2.push((ind, flat, m)));
        let u1 = deep1.push((ind, flat, tail)).push((ind, flat, DocV::HardLine));
        let u2 = deep2.push((ind, flat, tail)).push((ind, flat, DocV::HardLine));
        assert(deep1.push((ind, flat, m)).drop_last() =~= deep1);
        assert(deep2.push((ind, flat, m)).drop_last() =~= deep2);
        assert(spec_render(col, w, s1) == spec_render(col, w, u1));
        assert(spec_render(col, w, s2) == spec_render(col, w, u2));
        assert(u1.drop_last() =~= deep1.push((ind, flat, tail)));
        assert(u2.drop_last() =~= deep2.push((ind, flat, tail)));
        let pre = Seq::<char>::empty();
        assert(pre + break_text(ind) + spec_render(ind, w, deep1.push((ind, flat, tail)))
            =~= break_text(ind) + spec_render(ind, w, deep1.push((ind, flat, tail))));
        assert(pre + break_text(ind) + spec_render(ind, w, deep2.push((ind, flat, tail)))
            =~= break_text(ind) + spec_render(ind, w, deep2.push((ind, flat, tail))));
        pre
    } else {
        let (i2, f2, d) = top.last();
        let rest = top.drop_last();
        assert(s1.last() == top.last());
        assert(s2.last() == top.last());
        assert(s1.drop_last() =~= deep1.push((ind, flat, m)) + rest);
        assert(s2.drop_last() =~= deep2.push((ind, flat, m)) + rest);
        let t1 = spec_render(ind, w, deep1.push((ind, flat, tail)));
        let t2 = spec_render(ind, w, deep2.push((ind, flat, tail)));
        match d {
            DocV::Nil => {
                let pre = lemma_render_before_hard_break_independent(
                    col,
                    w,
                    deep1,
                    deep2,
                    ind,
                    flat,
                    tail,
                    rest,
                );
                pre
            },
            DocV::Text(s) => {
                let c2 = add_sat(col as int, s.len() as int);
                let pre2 = lemma_render_before_hard_break_independent(
                    c2,
                    w,
                    deep1,
                    deep2,
                    ind,
                    flat,
                    tail,
                    rest,
                );
                let pre = s + pre2;
                assert(pre + break_text(ind) + t1 =~= s + (pre2 + break_text(ind) + t1));
                assert(pre + break_text(ind) + t2 =~= s + (pre2 + break_text(ind) + t2));
                pre
            },
            DocV::Line => {
                if f2 {
                    let c2 = add_sat(col as int, 1);
                    let pre2 = lemma_render_before_hard_break_independent(
                        c2,
                        w,
                        deep1,
                        deep2,
                        ind,
                        flat,
                        tail,
                        rest,
                    );
                    let pre = seq![' '] + pre2;
                    assert(pre + break_text(ind) + t1 =~= seq![' '] + (pre2 + break_text(ind)
                        + t1));
                    assert(pre + break_text(ind) + t2 =~= seq![' '] + (pre2 + break_text(ind)
                        + t2));
                    pre
                } else {
                    let pre2 = lemma_render_before_hard_break_independent(
                        i2,
                        w,
                        deep1,
                        deep2,
                        ind,
                        flat,
                        tail,
                        rest,
                    );
                    let pre = break_text(i2) + pre2;
                    assert(pre + break_text(ind) + t1 =~= break_text(i2) + (pre2 + break_text(ind)
                        + t1));
                    assert(pre + break_text(ind) + t2 =~= break_text(i2) + (pre2 + break_text(ind)
                        + t2));
                    pre
                }
            },
            DocV::ZeroLine => {
                if f2 {
                    let pre = lemma_render_before_hard_break_independent(
                        col,
                        w,
                        deep1,
                        deep2,
                        ind,
                        flat,
                        tail,
                        rest,
                    );
                    pre
                } else {
                    let pre2 = lemma_render_before_hard_break_independent(
                        i2,
                        w,
                        deep1,
                        deep2,
                        ind,
                        flat,
                        tail,
                        rest,
                    );
                    let pre = break_text(i2) + pre2;
                    assert(pre + break_text(ind) + t1 =~= break_text(i2) + (pre2 + break_text(ind)
                        + t1));
                    assert(pre + break_text(ind) + t2 =~= break_text(i2) + (pre2 + break_text(ind)
                        + t2));
                    pre
                }
            },
            DocV::HardLine => {
                let pre2 = lemma_render_before_hard_break_independent(
                    i2,
                    w,
                    deep1,
                    deep2,
                    ind,
                    flat,
                    tail,
                    rest,
                );
                let pre = break_text(i2) + pre2;
                assert(pre + break_text(ind) + t1 =~= break_text(i2) + (pre2 + break_text(ind)
                    + t1));
                assert(pre + break_text(ind) + t2 =~= break_text(i2) + (pre2 + break_text(ind)
                    + t2));
                pre
            },
            DocV::Concat(a, b) => {
                let top2 = rest.push((i2, f2, *b)).push((i2, f2, *a));
                assert((deep1.push((ind, flat, m)) + rest).push((i2, f2, *b)).push((i2, f2, *a))
                    =~= deep1.push((ind, flat, m)) + top2);
                assert((deep2.push((ind, flat, m)) + rest).push((i2, f2, *b)).push((i2, f2, *a))
                    =~= deep2.push((ind, flat, m)) + top2);
                lemma_items_size_push(rest, (i2, f2, *b));
                lemma_items_size_push(rest.push((i2, f2, *b)), (i2, f2, *a));
                let pre = lemma_render_before_hard_break_independent(
                    col,
                    w,
                    deep1,
                    deep2,
                    ind,
                    flat,
                    tail,
                    top2,
                );
                pre
            },
            DocV::Nest(n, a) => {
                let ni = add_sat(i2 as int, n as int);
                let top2 = rest.push((ni, f2, *a));
                assert((deep1.push((ind, flat, m)) + rest).push((ni, f2, *a)) =~= deep1.push(
                    (ind, flat, m),
                ) + top2);
                assert((deep2.push((ind, flat, m)) + rest).push((ni, f2, *a)) =~= deep2.push(
                    (ind, flat, m),
                ) + top2);
                lemma_items_size_push(rest, (ni, f2, *a));
                let pre = lemma_render_before_hard_break_independent(
                    col,
                    w,
                    deep1,
                    deep2,
                    ind,
                    flat,
                    tail,
                    top2,
                );
                pre
            },
            DocV::Group(a) => {
                assert(starts_hard(DocV::HardLine));
                assert(starts_hard(m));
                assert((deep1.push((ind, flat, m)) + rest).push((i2, true, *a)) =~= deep1.push(
                    (ind, flat, m),
                ) + rest.push((i2, true, *a)));
                assert((deep2.push((ind, flat, m)) + rest).push((i2, true, *a)) =~= deep2.push(
                    (ind, flat, m),
                ) + rest.push((i2, true, *a)));
                lemma_items_size_push(rest, (i2, true, *a));
                lemma_fits_ignores_past_hard(
                    col,
                    w,
                    deep1,
                    deep2,
                    (ind, flat, m),
                    rest.push((i2, true, *a)),
                );
                let flat2 = f2 || spec_fits(
                    col,
                    w,
                    (deep1.push((ind, flat, m)) + rest).push((i2, true, *a)),
                );
                let top2 = if flat2 {
                    rest.push((i2, true, *a))
                } else {
                    rest.push((i2, false, *a))
                };
                if flat2 {
                    assert((deep1.push((ind, flat, m)) + rest).push((i2, true, *a)) =~= deep1.push(
                        (ind, flat, m),
                    ) + top2);
                    assert((deep2.push((ind, flat, m)) + rest).push((i2, true, *a)) =~= deep2.push(
                        (ind, flat, m),
                    ) + top2);
                } else {
                    assert((deep1.push((ind, flat, m)) + rest).push((i2, false, *a)) =~= deep1.push(
                        (ind, flat, m),
                    ) + top2);
                    assert((deep2.push((ind, flat, m)) + rest).push((i2, false, *a)) =~= deep2.push(
                        (ind, flat, m),
                    ) + top2);
                }
                lemma_items_size_push(rest, (i2, true, *a));
                lemma_items_size_push(rest, (i2, false, *a));
                let pre = lemma_render_before_hard_break_independent(
                    col,
                    w,
                    deep1,
                    deep2,
                    ind,
                    flat,
                    tail,
                    top2,
                );
                pre
            },
        }
    }
}

} // verus!
