//! What the extractor never takes back: sealed records stay as they are, the
//! record in progress only grows, and a document is read in one pass.

use vstd::prelude::*;
use crate::document::BlockView;
use crate::extract::{Machine, State, run, run_diagnostics, step};
use crate::record::empty_record;
use crate::sections::is_section_heading;

verus! {

/// Whether `block` makes the extractor in `m` seal the record in progress
/// and start a fresh one.
pub open spec fn seals(m: Machine, block: BlockView) -> bool {
    is_section_heading(block) && m.state != State::TopLevel
}

/// A step either seals the record in progress as it is and starts an empty
/// one, or leaves the sealed records alone. Only a level-2 heading that does
/// not follow a level-1 heading seals.
pub proof fn lemma_step_seals(m: Machine, block: BlockView)
    ensures
        seals(m, block) ==> step(m, block).records == m.records.push(m.current) && step(
            m,
            block,
        ).current == empty_record(),
        !seals(m, block) ==> step(m, block).records == m.records,
{
}

/// While a record is in progress, links are only appended to it and its
/// commentary is only extended: what it held before a step, it holds at the
/// same place after it.
pub proof fn lemma_step_grows(m: Machine, block: BlockView)
    requires
        !seals(m, block),
    ensures
        m.current.links.is_prefix_of(step(m, block).current.links),
        m.current.comment matches Some(before) ==> step(m, block).current.comment matches Some(
            after,
        ) && before.is_prefix_of(after),
{
}

/// The sealed records stay sealed: whatever blocks follow, the records that
/// the extractor holds are the first of those it holds later, unchanged.
pub proof fn lemma_run_keeps_sealed(m: Machine, blocks: Seq<BlockView>)
    ensures
        m.records.is_prefix_of(run(m, blocks).records),
    decreases blocks.len(),
{
    if blocks.len() > 0 {
        lemma_run_keeps_sealed(m, blocks.drop_last());
        lemma_step_seals(run(m, blocks.drop_last()), blocks.last());
    }
}

/// Extraction is one pass: to run over `a + b` is to run over `a` and to go
/// on from there over `b`, and the diagnostics come in the same order.
pub proof fn lemma_run_append(m: Machine, a: Seq<BlockView>, b: Seq<BlockView>)
    ensures
        run(m, a + b) == run(run(m, a), b),
        run_diagnostics(m, a + b) == run_diagnostics(m, a) + run_diagnostics(run(m, a), b),
    decreases b.len(),
{
    if b.len() > 0 {
        lemma_run_append(m, a, b.drop_last());
        assert((a + b).drop_last() =~= a + b.drop_last());
    }
}

} // verus!
