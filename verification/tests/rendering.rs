use magistratures::diagnostic::Diagnostic;
use magistratures::document::{ListItem, Span};
use magistratures::render::{list_to_text, spans_to_text};

fn text(s: &str) -> Span {
    Span::Text(s.to_string())
}

fn link(s: &str, url: &str) -> Span {
    Span::Link(s.to_string(), url.to_string())
}

#[test]
fn no_spans_render_to_nothing() {
    let mut links = Vec::new();
    let mut log = Vec::new();
    assert_eq!(spans_to_text(vec![], Some(&mut links), &mut log), "");
    assert!(links.is_empty());
    assert!(log.is_empty());
}

#[test]
fn plain_text_is_concatenated() {
    let mut links = Vec::new();
    let mut log = Vec::new();
    let out = spans_to_text(vec![text("a "), text("b"), text("")], Some(&mut links), &mut log);
    assert_eq!(out, "a b");
    assert!(links.is_empty());
    assert!(log.is_empty());
}

#[test]
fn link_is_followed_by_the_position_its_url_takes() {
    let mut links = Vec::new();
    let mut log = Vec::new();
    let out = spans_to_text(
        vec![text("Great program "), link("link", "http://example.com")],
        Some(&mut links),
        &mut log,
    );
    assert_eq!(out, "Great program link[1]");
    assert_eq!(links, vec!["http://example.com".to_string()]);
    assert!(log.is_empty());
}

#[test]
fn link_without_text_leaves_the_marker_alone() {
    let mut links = Vec::new();
    let mut log = Vec::new();
    let out = spans_to_text(
        vec![text("Great program "), link("", "http://example.com")],
        Some(&mut links),
        &mut log,
    );
    assert_eq!(out, "Great program [1]");
    assert_eq!(links, vec!["http://example.com".to_string()]);
}

#[test]
fn links_are_numbered_in_the_order_met() {
    let mut links = Vec::new();
    let mut log = Vec::new();
    let out = spans_to_text(
        vec![link("a", "u1"), text(" - "), link("b", "u2"), link("c", "u3"), text(".")],
        Some(&mut links),
        &mut log,
    );
    assert_eq!(out, "a[1] - b[2]c[3].");
    assert_eq!(links, vec!["u1".to_string(), "u2".to_string(), "u3".to_string()]);
}

#[test]
fn numbering_goes_on_from_the_links_already_held() {
    let mut links = vec!["old1".to_string(), "old2".to_string()];
    let mut log = Vec::new();
    let out = spans_to_text(vec![link("a", "new")], Some(&mut links), &mut log);
    assert_eq!(out, "a[3]");
    assert_eq!(links, vec!["old1".to_string(), "old2".to_string(), "new".to_string()]);
}

#[test]
fn marker_names_the_position_of_the_url() {
    let mut links: Vec<String> = (0..9).map(|i| format!("held{}", i)).collect();
    let mut log = Vec::new();
    let out = spans_to_text(
        vec![link("x", "tenth"), link("y", "eleventh")],
        Some(&mut links),
        &mut log,
    );
    assert_eq!(out, "x[10]y[11]");
    assert_eq!(links[10 - 1], "tenth");
    assert_eq!(links[11 - 1], "eleventh");
}

#[test]
fn same_url_twice_takes_two_positions() {
    let mut links = Vec::new();
    let mut log = Vec::new();
    let out = spans_to_text(vec![link("a", "u"), link("b", "u")], Some(&mut links), &mut log);
    assert_eq!(out, "a[1]b[2]");
    assert_eq!(links, vec!["u".to_string(), "u".to_string()]);
}

#[test]
fn without_a_link_list_links_render_as_their_text() {
    let mut log = Vec::new();
    let out = spans_to_text(vec![text("see "), link("here", "http://a")], None, &mut log);
    assert_eq!(out, "see here");
    assert!(log.is_empty());
}

#[test]
fn other_spans_are_skipped_and_reported() {
    let mut links = Vec::new();
    let mut log = vec![Diagnostic::UnknownBlock];
    let out = spans_to_text(
        vec![Span::Other, text("a"), Span::Other, link("b", "u")],
        Some(&mut links),
        &mut log,
    );
    assert_eq!(out, "ab[1]");
    assert_eq!(
        log,
        vec![Diagnostic::UnknownBlock, Diagnostic::UnhandledSpan, Diagnostic::UnhandledSpan]
    );
}

#[test]
fn other_spans_are_reported_without_a_link_list_too() {
    let mut log = Vec::new();
    let out = spans_to_text(vec![Span::Other, text("a")], None, &mut log);
    assert_eq!(out, "a");
    assert_eq!(log, vec![Diagnostic::UnhandledSpan]);
}

#[test]
fn empty_list_renders_to_nothing() {
    let mut links = Vec::new();
    let mut log = Vec::new();
    assert_eq!(list_to_text(vec![], Some(&mut links), &mut log), "");
    assert!(links.is_empty());
    assert!(log.is_empty());
}

#[test]
fn each_simple_item_is_a_dashed_line() {
    let mut links = Vec::new();
    let mut log = Vec::new();
    let out = list_to_text(
        vec![
            ListItem::Simple(vec![text("one")]),
            ListItem::Simple(vec![]),
            ListItem::Simple(vec![text("two "), text("words")]),
        ],
        Some(&mut links),
        &mut log,
    );
    assert_eq!(out, "- one\n- \n- two words\n");
    assert!(log.is_empty());
}

#[test]
fn list_links_are_numbered_across_items() {
    let mut links = vec!["held".to_string()];
    let mut log = Vec::new();
    let out = list_to_text(
        vec![
            ListItem::Simple(vec![link("a", "u1"), link("b", "u2")]),
            ListItem::Simple(vec![text("none")]),
            ListItem::Simple(vec![text("c "), link("d", "u3")]),
        ],
        Some(&mut links),
        &mut log,
    );
    assert_eq!(out, "- a[2]b[3]\n- none\n- c d[4]\n");
    assert_eq!(
        links,
        vec!["held".to_string(), "u1".to_string(), "u2".to_string(), "u3".to_string()]
    );
}

#[test]
fn nested_item_contributes_nothing_and_is_reported() {
    let mut links = Vec::new();
    let mut log = Vec::new();
    let out = list_to_text(
        vec![
            ListItem::Simple(vec![text("a")]),
            ListItem::Nested,
            ListItem::Simple(vec![Span::Other, link("b", "u")]),
        ],
        Some(&mut links),
        &mut log,
    );
    assert_eq!(out, "- a\n- b[1]\n");
    assert_eq!(links, vec!["u".to_string()]);
    assert_eq!(log, vec![Diagnostic::NestedCommentItem, Diagnostic::UnhandledSpan]);
}

#[test]
fn list_without_a_link_list_has_no_markers() {
    let mut log = Vec::new();
    let out = list_to_text(
        vec![ListItem::Simple(vec![link("a", "u1")]), ListItem::Nested],
        None,
        &mut log,
    );
    assert_eq!(out, "- a\n");
    assert_eq!(log, vec![Diagnostic::NestedCommentItem]);
}
