//! The tokenized document: blocks, list items and inline spans, each with a
//! view onto sequences of characters.

use vstd::prelude::*;

verus! {

/// An inline span of a block.
#[derive(Clone, Debug, PartialEq, Eq)]
pub enum Span {
    /// Plain text.
    Text(String),
    /// A hyperlink: its visible text, then its URL.
    Link(String, String),
    /// Any other inline element (emphasis, code, image, line break).
    Other,
}

/// An item of an unordered list.
#[derive(Clone, Debug, PartialEq, Eq)]
pub enum ListItem {
    /// A single line of spans.
    Simple(Vec<Span>),
    /// A block-style item (paragraphs or nested blocks), which is not read.
    Nested,
}

/// A top-level block of the document.
#[derive(Clone, Debug, PartialEq, Eq)]
pub enum Block {
    /// A heading with its spans and its level (1 is the topmost).
    Header(Vec<Span>, usize),
    /// A paragraph.
    Paragraph(Vec<Span>),
    /// An unordered list.
    UnorderedList(Vec<ListItem>),
    /// Any other block (quote, code, ordered list, rule, raw markup).
    Other,
}

/// What a `Span` holds, as mathematical values.
pub enum SpanView {
    Text(Seq<char>),
    Link(Seq<char>, Seq<char>),
    Other,
}

/// What a `ListItem` holds, as mathematical values.
pub enum ListItemView {
    Simple(Seq<SpanView>),
    Nested,
}

/// What a `Block` holds, as mathematical values.
pub enum BlockView {
    Header(Seq<SpanView>, nat),
    Paragraph(Seq<SpanView>),
    UnorderedList(Seq<ListItemView>),
    Other,
}

impl View for Span {
    type V = SpanView;

    open spec fn view(&self) -> SpanView {
        match *self {
            Span::Text(text) => SpanView::Text(text@),
            Span::Link(text, url) => SpanView::Link(text@, url@),
            Span::Other => SpanView::Other,
        }
    }
}

/// The views of a sequence of spans, in order.
pub open spec fn span_views(spans: Seq<Span>) -> Seq<SpanView> {
    Seq::new(spans.len(), |i: int| spans[i]@)
}

impl View for ListItem {
    type V = ListItemView;

    open spec fn view(&self) -> ListItemView {
        match *self {
            ListItem::Simple(spans) => ListItemView::Simple(span_views(spans@)),
            ListItem::Nested => ListItemView::Nested,
        }
    }
}

/// The views of a sequence of list items, in order.
pub open spec fn item_views(items: Seq<ListItem>) -> Seq<ListItemView> {
    Seq::new(items.len(), |i: int| items[i]@)
}

impl View for Block {
    type V = BlockView;

    open spec fn view(&self) -> BlockView {
        match *self {
            Block::Header(spans, level) => BlockView::Header(span_views(spans@), level as nat),
            Block::Paragraph(spans) => BlockView::Paragraph(span_views(spans@)),
            Block::UnorderedList(items) => BlockView::UnorderedList(item_views(items@)),
            Block::Other => BlockView::Other,
        }
    }
}

/// The views of a sequence of blocks, in order.
pub open spec fn block_views(blocks: Seq<Block>) -> Seq<BlockView> {
    Seq::new(blocks.len(), |i: int| blocks[i]@)
}

} // verus!
