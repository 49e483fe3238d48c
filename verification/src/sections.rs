//! How many records a document yields.

use vstd::prelude::*;
use crate::document::BlockView;
use crate::extract::{JUSTIFICATION_MARKER, Machine, State, extraction, initial, run};
use crate::record::RecordView;
use crate::render::spans_text;

verus! {

/// Whether a block is a level-2 heading, which starts the section of a
/// program.
pub open spec fn is_section_heading(block: BlockView) -> bool {
    block matches BlockView::Header(_, level) && level == 2
}

/// The number of level-2 headings among `blocks`.
pub open spec fn section_count(blocks: Seq<BlockView>) -> nat
    decreases blocks.len(),
{
    if blocks.len() == 0 {
        0
    } else {
        section_count(blocks.drop_last()) + if is_section_heading(blocks.last()) {
            1nat
        } else {
            0nat
        }
    }
}

/// The number of level-2 headings among `blocks` that the extractor, started
/// from `m`, meets right after a level-1 heading. Such a heading seals
/// nothing: it takes over the record in progress.
pub open spec fn joined_count(m: Machine, blocks: Seq<BlockView>) -> nat
    decreases blocks.len(),
{
    if blocks.len() == 0 {
        0
    } else {
        joined_count(m, blocks.drop_last()) + if is_section_heading(blocks.last()) && run(
            m,
            blocks.drop_last(),
        ).state == State::TopLevel {
            1nat
        } else {
            0nat
        }
    }
}

/// Every level-2 heading seals one record, but for those that take over the
/// record in progress; and a record is in progress from the first of them on.
pub proof fn lemma_sealed_count(blocks: Seq<BlockView>)
    ensures
        joined_count(initial(), blocks) <= section_count(blocks),
        run(initial(), blocks).records.len() == section_count(blocks) - joined_count(
            initial(),
            blocks,
        ),
        run(initial(), blocks).opened == (section_count(blocks) > 0),
    decreases blocks.len(),
{
    if blocks.len() > 0 {
        lemma_sealed_count(blocks.drop_last());
    }
}

/// A document yields one record for each level-2 heading that does not take
/// over the record in progress, and one more for the record that is in
/// progress at its end, if it has a level-2 heading at all.
pub proof fn lemma_record_count(blocks: Seq<BlockView>)
    ensures
        joined_count(initial(), blocks) <= section_count(blocks),
        extraction(blocks).len() == section_count(blocks) - joined_count(initial(), blocks) + if
            section_count(blocks) > 0 {
            1nat
        } else {
            0nat
        },
{
    lemma_sealed_count(blocks);
}

/// A document without a level-2 heading yields no record.
pub proof fn lemma_no_section_no_record(blocks: Seq<BlockView>)
    requires
        forall|i: int| 0 <= i < blocks.len() ==> !is_section_heading(#[trigger] blocks[i]),
    ensures
        extraction(blocks) == Seq::<RecordView>::empty(),
{
    lemma_no_section_counts_zero(blocks);
    lemma_sealed_count(blocks);
}

/// Where no block is a level-2 heading, the count of level-2 headings is 0.
proof fn lemma_no_section_counts_zero(blocks: Seq<BlockView>)
    requires
        forall|i: int| 0 <= i < blocks.len() ==> !is_section_heading(#[trigger] blocks[i]),
    ensures
        section_count(blocks) == 0,
    decreases blocks.len(),
{
    if blocks.len() > 0 {
        lemma_no_section_counts_zero(blocks.drop_last());
    }
}

/// A document with `n` level-2 headings, `n` at least 1, yields exactly `n`
/// records, where exactly one of the headings takes over the record in
/// progress: the first one, met right after the level-1 heading, in a
/// document laid out as expected.
pub proof fn lemma_one_record_per_section(blocks: Seq<BlockView>)
    requires
        section_count(blocks) >= 1,
        joined_count(initial(), blocks) == 1,
    ensures
        extraction(blocks).len() == section_count(blocks),
{
    lemma_record_count(blocks);
}

/// Whether a block is a level-1 heading.
pub open spec fn is_top_heading(block: BlockView) -> bool {
    block matches BlockView::Header(_, level) && level == 1
}

/// Whether a block is the level-3 heading that opens the commentary.
pub open spec fn opens_commentary(block: BlockView) -> bool {
    block matches BlockView::Header(spans, level) && level == 3 && spans_text(spans, None)
        == JUSTIFICATION_MARKER@
}

/// Whether `blocks` are laid out as a document is expected to be, as far as
/// the number of records goes: block `first` is the first level-2 heading,
/// block `top` before it is a level-1 heading, no commentary opens between
/// the two, and no level-1 heading follows.
pub open spec fn laid_out(blocks: Seq<BlockView>, top: int, first: int) -> bool {
    &&& 0 <= top < first < blocks.len()
    &&& is_top_heading(blocks[top])
    &&& is_section_heading(blocks[first])
    &&& forall|i: int| 0 <= i < first ==> !is_section_heading(#[trigger] blocks[i])
    &&& forall|i: int| top < i < first ==> !opens_commentary(#[trigger] blocks[i])
    &&& forall|i: int| first < i < blocks.len() ==> !is_top_heading(#[trigger] blocks[i])
}

/// In a document laid out as expected, the extractor stands right after a
/// level-1 heading from block `top` up to the first level-2 heading, which
/// alone takes over the record in progress, and never again after it.
proof fn lemma_laid_out_prefix(blocks: Seq<BlockView>, top: int, first: int, n: int)
    requires
        laid_out(blocks, top, first),
        0 <= n <= blocks.len(),
    ensures
        n <= first ==> joined_count(initial(), blocks.take(n)) == 0,
        top < n <= first ==> run(initial(), blocks.take(n)).state == State::TopLevel,
        first < n ==> joined_count(initial(), blocks.take(n)) == 1,
        first < n ==> run(initial(), blocks.take(n)).state != State::TopLevel,
    decreases n,
{
    if n > 0 {
        lemma_laid_out_prefix(blocks, top, first, n - 1);
        assert(blocks.take(n).drop_last() =~= blocks.take(n - 1));
    }
}

/// A document laid out as expected yields exactly one record for each of its
/// level-2 headings.
pub proof fn lemma_laid_out_record_count(blocks: Seq<BlockView>, top: int, first: int)
    requires
        laid_out(blocks, top, first),
    ensures
        section_count(blocks) >= 1,
        joined_count(initial(), blocks) == 1,
        extraction(blocks).len() == section_count(blocks),
{
    lemma_laid_out_prefix(blocks, top, first, blocks.len() as int);
    assert(blocks.take(blocks.len() as int) =~= blocks);
    lemma_record_count(blocks);
}

} // verus!
