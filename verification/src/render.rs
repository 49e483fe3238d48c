//! Rendering of inline spans and commentary lists to text, with hyperlinks
//! turned into footnote markers.

use vstd::prelude::*;
use vstd::string::*;
use crate::diagnostic::Diagnostic;
use crate::document::{ListItem, ListItemView, Span, SpanView, span_views, item_views};
use crate::numeral::{marker, push_marker};
use crate::text::text_views;

verus! {

/// The number of links held after `count` more are recorded, where links are
/// recorded at all.
pub open spec fn advance(held: Option<nat>, count: nat) -> Option<nat> {
    match held {
        Some(n) => Some(n + count),
        None => None,
    }
}

/// The text that one span contributes. `held` is the number of links recorded
/// before the span, or `None` where links are not recorded: in a list that
/// holds `n` links a hyperlink is followed by the marker of position `n + 1`,
/// which its URL takes; where none are recorded it is followed by nothing.
pub open spec fn span_text(span: SpanView, held: Option<nat>) -> Seq<char> {
    match span {
        SpanView::Text(text) => text,
        SpanView::Link(text, _) => match held {
            Some(n) => text + marker(n + 1),
            None => text,
        },
        SpanView::Other => Seq::empty(),
    }
}

/// The URLs that one span refers to.
pub open spec fn span_links(span: SpanView) -> Seq<Seq<char>> {
    match span {
        SpanView::Link(_, url) => seq![url],
        _ => Seq::empty(),
    }
}

/// The diagnostics that one span gives rise to.
pub open spec fn span_diagnostics(span: SpanView) -> Seq<Diagnostic> {
    match span {
        SpanView::Other => seq![Diagnostic::UnhandledSpan],
        _ => Seq::empty(),
    }
}

/// The URLs of the hyperlinks among `spans`, in order.
pub open spec fn spans_links(spans: Seq<SpanView>) -> Seq<Seq<char>>
    decreases spans.len(),
{
    if spans.len() == 0 {
        Seq::empty()
    } else {
        spans_links(spans.drop_last()) + span_links(spans.last())
    }
}

/// The text of `spans`: what each contributes, in order, where each hyperlink
/// counts the links before it.
pub open spec fn spans_text(spans: Seq<SpanView>, held: Option<nat>) -> Seq<char>
    decreases spans.len(),
{
    if spans.len() == 0 {
        Seq::empty()
    } else {
        spans_text(spans.drop_last(), held) + span_text(
            spans.last(),
            advance(held, spans_links(spans.drop_last()).len()),
        )
    }
}

/// The diagnostics of `spans`, in order.
pub open spec fn spans_diagnostics(spans: Seq<SpanView>) -> Seq<Diagnostic>
    decreases spans.len(),
{
    if spans.len() == 0 {
        Seq::empty()
    } else {
        spans_diagnostics(spans.drop_last()) + span_diagnostics(spans.last())
    }
}

/// Renders `spans` to text. With a link list at hand, each hyperlink's URL is
/// appended to it and the position it took follows the link's text as a
/// marker; without one, hyperlinks render as their text alone. Spans of other
/// kinds are skipped and reported to `log`.
pub fn spans_to_text(
    spans: Vec<Span>,
    links: Option<&mut Vec<String>>,
    log: &mut Vec<Diagnostic>,
) -> (text: String)
    ensures
        match links {
            Some(held) => {
                &&& text@ == spans_text(span_views(spans@), Some(held@.len()))
                &&& text_views(final(held)@) == text_views(held@) + spans_links(
                    span_views(spans@),
                )
            },
            None => text@ == spans_text(span_views(spans@), None),
        },
        final(log)@ == old(log)@ + spans_diagnostics(span_views(spans@)),
{
    let ghost views = span_views(spans@);
    let ghost start = links;
    let mut links = links;
    let mut text = String::new();
    for span in it: spans
        invariant
            it.seq() == spans@,
            views == span_views(spans@),
            log@ == old(log)@ + spans_diagnostics(views.take(it.index())),
            match start {
                Some(held) => {
                    &&& links matches Some(now)
                    &&& *final(now) == *final(held)
                    &&& text_views(now@) == text_views(held@) + spans_links(views.take(it.index()))
                    &&& text@ == spans_text(views.take(it.index()), Some(held@.len()))
                },
                None => {
                    &&& links is None
                    &&& text@ == spans_text(views.take(it.index()), None)
                },
            },
    {
        proof {
            let done = views.take(it.index());
            let next = views.take(it.index() + 1);
            assert(next.drop_last() =~= done);
        }
        match span {
            Span::Text(s) => {
                text.append(s.as_str());
            },
            Span::Link(s, url) => {
                text.append(s.as_str());
                links = if let Some(now) = links {
                    let ghost before = now@;
                    now.push(url);
                    push_marker(&mut text, now.len());
                    assert(text_views(now@) =~= text_views(before) + span_links(span@));
                    Some(now)
                } else {
                    None
                };
            },
            Span::Other => {
                log.push(Diagnostic::UnhandledSpan);
            },
        }
    }
    assert(views.take(spans@.len() as int) =~= views);
    text
}

/// The text that one item of a commentary list contributes: a simple item is
/// a line that starts with a dash, a block-style item contributes nothing.
pub open spec fn item_text(item: ListItemView, held: Option<nat>) -> Seq<char> {
    match item {
        ListItemView::Simple(spans) => seq!['-', ' '] + spans_text(spans, held) + seq!['\n'],
        ListItemView::Nested => Seq::empty(),
    }
}

/// The URLs that one list item refers to.
pub open spec fn item_links(item: ListItemView) -> Seq<Seq<char>> {
    match item {
        ListItemView::Simple(spans) => spans_links(spans),
        ListItemView::Nested => Seq::empty(),
    }
}

/// The diagnostics that one item of a commentary list gives rise to.
pub open spec fn item_diagnostics(item: ListItemView) -> Seq<Diagnostic> {
    match item {
        ListItemView::Simple(spans) => spans_diagnostics(spans),
        ListItemView::Nested => seq![Diagnostic::NestedCommentItem],
    }
}

/// The URLs of the hyperlinks in the simple items of a list, in order.
pub open spec fn list_links(items: Seq<ListItemView>) -> Seq<Seq<char>>
    decreases items.len(),
{
    if items.len() == 0 {
        Seq::empty()
    } else {
        list_links(items.drop_last()) + item_links(items.last())
    }
}

/// The text of a commentary list: the lines of its items, in order, where
/// each hyperlink counts the links before it.
pub open spec fn list_text(items: Seq<ListItemView>, held: Option<nat>) -> Seq<char>
    decreases items.len(),
{
    if items.len() == 0 {
        Seq::empty()
    } else {
        list_text(items.drop_last(), held) + item_text(
            items.last(),
            advance(held, list_links(items.drop_last()).len()),
        )
    }
}

/// The diagnostics of a commentary list, in order.
pub open spec fn list_diagnostics(items: Seq<ListItemView>) -> Seq<Diagnostic>
    decreases items.len(),
{
    if items.len() == 0 {
        Seq::empty()
    } else {
        list_diagnostics(items.drop_last()) + item_diagnostics(items.last())
    }
}

/// Renders a list of the commentary to text, one line per simple item, with
/// hyperlinks handled as in `spans_to_text`. Block-style items contribute
/// nothing and are reported to `log`.
pub fn list_to_text(
    items: Vec<ListItem>,
    links: Option<&mut Vec<String>>,
    log: &mut Vec<Diagnostic>,
) -> (text: String)
    ensures
        match links {
            Some(held) => {
                &&& text@ == list_text(item_views(items@), Some(held@.len()))
                &&& text_views(final(held)@) == text_views(held@) + list_links(item_views(items@))
            },
            None => text@ == list_text(item_views(items@), None),
        },
        final(log)@ == old(log)@ + list_diagnostics(item_views(items@)),
{
    let ghost views = item_views(items@);
    let ghost start = links;
    let mut links = links;
    let mut text = String::new();
    for item in it: items
        invariant
            it.seq() == items@,
            views == item_views(items@),
            log@ == old(log)@ + list_diagnostics(views.take(it.index())),
            match start {
                Some(held) => {
                    &&& links matches Some(now)
                    &&& *final(now) == *final(held)
                    &&& text_views(now@) == text_views(held@) + list_links(views.take(it.index()))
                    &&& text@ == list_text(views.take(it.index()), Some(held@.len()))
                },
                None => {
                    &&& links is None
                    &&& text@ == list_text(views.take(it.index()), None)
                },
            },
    {
        proof {
            reveal_strlit("- ");
            reveal_strlit("\n");
            let done = views.take(it.index());
            let next = views.take(it.index() + 1);
            assert(next.drop_last() =~= done);
        }
        match item {
            ListItem::Simple(spans) => {
                text.append("- ");
                links = if let Some(now) = links {
                    let line = spans_to_text(spans, Some(&mut *now), log);
                    text.append(line.as_str());
                    text.append("\n");
                    Some(now)
                } else {
                    let line = spans_to_text(spans, None, log);
                    text.append(line.as_str());
                    text.append("\n");
                    None
                };
            },
            ListItem::Nested => {
                log.push(Diagnostic::NestedCommentItem);
            },
        }
    }
    assert(views.take(items@.len() as int) =~= views);
    text
}

/// Rendering goes span by span: the links of `a + b` are those of `a`, then
/// those of `b`, and the text of `a + b` is the text of `a`, then the text of
/// `b` rendered where the links of `a` are already held.
pub proof fn lemma_spans_append(a: Seq<SpanView>, b: Seq<SpanView>, held: Option<nat>)
    ensures
        spans_links(a + b) == spans_links(a) + spans_links(b),
        spans_text(a + b, held) == spans_text(a, held) + spans_text(
            b,
            advance(held, spans_links(a).len()),
        ),
        spans_diagnostics(a + b) == spans_diagnostics(a) + spans_diagnostics(b),
    decreases b.len(),
{
    if b.len() > 0 {
        let front = b.drop_last();
        lemma_spans_append(a, front, held);
        assert((a + b).drop_last() =~= a + front);
    }
}

/// Link positions count from one, in the order in which the links are met.
/// Let `spans` be rendered into a list that holds `held` links, and let
/// `spans[i]` be a hyperlink with `k - 1` links before it, those held and
/// those of earlier spans together. Then the hyperlink's URL is the `k`-th
/// entry of the list, and in the text the marker `[k]` follows the
/// hyperlink's own text at once: before them stands the text of the earlier
/// spans, after them the text of the later ones.
pub proof fn lemma_link_marker(
    prior: Seq<Seq<char>>,
    spans: Seq<SpanView>,
    i: int,
    text: Seq<char>,
    url: Seq<char>,
)
    requires
        0 <= i < spans.len(),
        spans[i] == SpanView::Link(text, url),
    ensures
        ({
            let k = prior.len() + spans_links(spans.take(i)).len() + 1;
            &&& k <= (prior + spans_links(spans)).len()
            &&& (prior + spans_links(spans))[k - 1] == url
            &&& spans_text(spans, Some(prior.len())) == spans_text(
                spans.take(i),
                Some(prior.len()),
            ) + text + marker(k as nat) + spans_text(spans.skip(i + 1), Some(k as nat))
        }),
{
    let held = Some(prior.len());
    let before = spans.take(i);
    let this = seq![spans[i]];
    let after = spans.skip(i + 1);
    assert(spans =~= (before + this) + after);
    lemma_spans_append(before + this, after, held);
    lemma_spans_append(before, this, held);
    let none = Seq::<SpanView>::empty();
    assert(this.drop_last() =~= none);
    assert(spans_text(none, advance(held, spans_links(before).len())) =~= Seq::<char>::empty());
}

/// A list is rendered item by item: the links of `a + b` are those of `a`,
/// then those of `b`, and the text of `a + b` is the text of `a`, then the
/// text of `b` rendered where the links of `a` are already held.
pub proof fn lemma_list_append(a: Seq<ListItemView>, b: Seq<ListItemView>, held: Option<nat>)
    ensures
        list_links(a + b) == list_links(a) + list_links(b),
        list_text(a + b, held) == list_text(a, held) + list_text(
            b,
            advance(held, list_links(a).len()),
        ),
        list_diagnostics(a + b) == list_diagnostics(a) + list_diagnostics(b),
    decreases b.len(),
{
    if b.len() > 0 {
        let front = b.drop_last();
        lemma_list_append(a, front, held);
        assert((a + b).drop_last() =~= a + front);
    }
}

/// Link positions run through a list as through one line of spans. Let
/// `items` be rendered into a list that holds the links `prior`, let
/// `items[j]` be a simple item, and let its span `i` be a hyperlink with
/// `k - 1` links before it: those held, those of earlier items and those of
/// earlier spans of the item together. Then the hyperlink's URL is the `k`-th
/// entry of the link list, the item is rendered where the links of the
/// earlier items are held, and in its line the marker `[k]` follows the
/// hyperlink's own text at once.
pub proof fn lemma_list_link_marker(
    prior: Seq<Seq<char>>,
    items: Seq<ListItemView>,
    j: int,
    spans: Seq<SpanView>,
    i: int,
    text: Seq<char>,
    url: Seq<char>,
)
    requires
        0 <= j < items.len(),
        items[j] == ListItemView::Simple(spans),
        0 <= i < spans.len(),
        spans[i] == SpanView::Link(text, url),
    ensures
        ({
            let held = prior.len() + list_links(items.take(j)).len();
            let k = held + spans_links(spans.take(i)).len() + 1;
            &&& k <= (prior + list_links(items)).len()
            &&& (prior + list_links(items))[k - 1] == url
            &&& list_text(items, Some(prior.len())) == list_text(items.take(j), Some(prior.len()))
                + item_text(items[j], Some(held)) + list_text(
                items.skip(j + 1),
                Some(held + spans_links(spans).len()),
            )
            &&& item_text(items[j], Some(held)) == seq!['-', ' '] + spans_text(
                spans.take(i),
                Some(held),
            ) + text + marker(k as nat) + spans_text(spans.skip(i + 1), Some(k as nat)) + seq!['\n']
        }),
{
    let start = Some(prior.len());
    let before = items.take(j);
    let this = seq![items[j]];
    let after = items.skip(j + 1);
    let none = Seq::<ListItemView>::empty();
    let held = prior.len() + list_links(before).len();
    assert(items =~= (before + this) + after);
    lemma_list_append(before + this, after, start);
    lemma_list_append(before, this, start);
    assert(this.drop_last() =~= none);
    assert(list_text(none, Some(held)) =~= Seq::<char>::empty());
    lemma_link_marker(prior + list_links(before), spans, i, text, url);
}

} // verus!
