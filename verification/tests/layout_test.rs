use forma::doc::{cat, group, hard_line, text, Doc};
use forma::render;

fn probe(sibling: &str) -> Doc {
    // A group under test, then an unconditional break, then an unrelated
    // sibling that varies between renders.
    cat(
        group(cat(text("aaa"), cat(forma::doc::line(), text("bbb")))),
        cat(hard_line(), text(sibling)),
    )
}

#[test]
fn group_decision_ignores_content_past_a_hard_break() {
    let narrow = render(&probe("x"), 10);
    let wide = render(
        &probe("yyyyyyyyyyyyyyyyyyyyyyyyyyyyyyyyyyyyyyyyyyyyyyyyyyyyyyyyyyyy"),
        10,
    );
    assert_eq!(narrow.lines().next(), wide.lines().next());
    assert_eq!(narrow.lines().next(), Some("aaa bbb"));
}

#[test]
fn a_broken_ancestor_does_not_break_a_fitting_child() {
    let inner = group(cat(text("a"), cat(forma::doc::line(), text("b"))));
    let outer = group(cat(text("xxxxxxxxxx"), cat(forma::doc::line(), inner)));
    assert_eq!(render(&outer, 12), "xxxxxxxxxx\na b");
}

#[test]
fn hard_line_breaks_at_any_width() {
    let d = cat(text("left"), cat(hard_line(), text("right")));
    assert_eq!(render(&d, 10000), "left\nright");
}

#[test]
fn text_past_the_budget_is_still_emitted() {
    // Width is a soft target: an unbreakable token longer than the width
    // is emitted past it rather than truncated.
    let d = text("averylongunbreakabletoken");
    assert_eq!(render(&d, 5), "averylongunbreakabletoken");
}
