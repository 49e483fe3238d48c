//! The extractor: a state machine that walks the blocks of a document and
//! assembles one record per program section.

use vstd::prelude::*;
use crate::description::{
    Description,
    description_diagnostics,
    description_fields,
    parse_description_list,
};
use crate::diagnostic::Diagnostic;
use crate::document::{Block, BlockView, ListItemView, SpanView, block_views};
use crate::record::{ParsedMagistrature, RecordView, empty_record, with_subheader, with_text};
use crate::render::{
    list_diagnostics,
    list_links,
    list_text,
    list_to_text,
    spans_diagnostics,
    spans_links,
    spans_text,
    spans_to_text,
};
use crate::text::same_text;

verus! {

/// Where in a document the extractor stands.
#[derive(Clone, Copy, Debug, PartialEq, Eq, Structural)]
pub enum State {
    /// Before any level-1 heading.
    Start,
    /// After a level-1 heading, before the first program of the section.
    TopLevel,
    /// After a level-2 heading, before the program's description list.
    ExpectDescriptionList,
    /// After the description list, outside the commentary.
    InProgramBody,
    /// Inside the commentary that justifies the program.
    InComment,
}

/// The text of the level-3 heading that opens the commentary of a program.
pub const JUSTIFICATION_MARKER: &'static str = "Обоснование";

/// The extractor as mathematical values.
pub struct Machine {
    /// Where the extractor stands.
    pub state: State,
    /// Whether a level-2 heading has been met, so that `current` belongs to a
    /// program.
    pub opened: bool,
    /// The record being built.
    pub current: RecordView,
    /// The records that were sealed, in the order of their programs.
    pub records: Seq<RecordView>,
}

/// The extractor before the first block.
pub open spec fn initial() -> Machine {
    Machine { state: State::Start, opened: false, current: empty_record(), records: Seq::empty() }
}

/// `record` after a paragraph of the commentary: the paragraph's links are
/// recorded and its text is appended as it is.
pub open spec fn with_paragraph(record: RecordView, spans: Seq<SpanView>) -> RecordView {
    RecordView {
        links: record.links + spans_links(spans),
        comment: Some(with_text(record.comment, spans_text(spans, Some(record.links.len())))),
        ..record
    }
}

/// `record` after a subheading of the commentary: the heading's links are
/// recorded and its text is appended as a line of its own.
pub open spec fn with_heading(record: RecordView, spans: Seq<SpanView>) -> RecordView {
    RecordView {
        links: record.links + spans_links(spans),
        comment: Some(
            with_subheader(record.comment, spans_text(spans, Some(record.links.len()))),
        ),
        ..record
    }
}

/// `record` after a list of the commentary: the links of its items are
/// recorded and its lines are appended.
pub open spec fn with_list(record: RecordView, items: Seq<ListItemView>) -> RecordView {
    RecordView {
        links: record.links + list_links(items),
        comment: Some(with_text(record.comment, list_text(items, Some(record.links.len())))),
        ..record
    }
}

/// `record` after its description list: the links of the entries are recorded
/// and the three fields are what the list sets, unset where it sets none.
pub open spec fn with_description(record: RecordView, items: Seq<ListItemView>) -> RecordView {
    let fields = description_fields(items, Some(record.links.len()));
    RecordView {
        university: fields.university,
        faculty: fields.faculty,
        name: fields.speciality,
        links: record.links + list_links(items),
        ..record
    }
}

/// The warnings for the fields that a description leaves unset.
pub open spec fn missing_fields(fields: Description) -> Seq<Diagnostic> {
    (if fields.university is None {
        seq![Diagnostic::MissingUniversity]
    } else {
        Seq::empty()
    }) + (if fields.faculty is None {
        seq![Diagnostic::MissingFaculty]
    } else {
        Seq::empty()
    }) + (if fields.speciality is None {
        seq![Diagnostic::MissingName]
    } else {
        Seq::empty()
    })
}

/// The extractor after a level-2 heading. Right after a level-1 heading the
/// record in progress is kept and becomes the program's; anywhere else it is
/// sealed and a fresh one is started.
pub open spec fn open_section(m: Machine) -> Machine {
    if m.state == State::TopLevel {
        Machine { state: State::ExpectDescriptionList, opened: true, ..m }
    } else {
        Machine {
            state: State::ExpectDescriptionList,
            opened: true,
            current: empty_record(),
            records: m.records.push(m.current),
        }
    }
}

/// The extractor after one more block.
pub open spec fn step(m: Machine, block: BlockView) -> Machine {
    match block {
        BlockView::Header(spans, level) => {
            if level == 1 {
                Machine { state: State::TopLevel, ..m }
            } else if level == 2 {
                open_section(m)
            } else if level == 3 {
                if spans_text(spans, None) == JUSTIFICATION_MARKER@ {
                    Machine { state: State::InComment, ..m }
                } else {
                    m
                }
            } else if level > 3 && m.state == State::InComment {
                Machine { current: with_heading(m.current, spans), ..m }
            } else {
                m
            }
        },
        BlockView::Paragraph(spans) => {
            if m.state == State::InComment {
                Machine { current: with_paragraph(m.current, spans), ..m }
            } else {
                m
            }
        },
        BlockView::UnorderedList(items) => {
            if m.state == State::ExpectDescriptionList {
                Machine {
                    state: State::InProgramBody,
                    current: with_description(m.current, items),
                    ..m
                }
            } else if m.state == State::InComment {
                Machine { current: with_list(m.current, items), ..m }
            } else {
                m
            }
        },
        BlockView::Other => m,
    }
}

/// The diagnostics that one more block gives rise to.
pub open spec fn step_diagnostics(m: Machine, block: BlockView) -> Seq<Diagnostic> {
    match block {
        BlockView::Header(spans, level) => {
            if level == 1 || level == 2 {
                Seq::empty()
            } else if level == 3 {
                spans_diagnostics(spans) + (if spans_text(spans, None) == JUSTIFICATION_MARKER@ {
                    Seq::empty()
                } else {
                    seq![Diagnostic::IgnoredSection]
                })
            } else if level > 3 && m.state == State::InComment {
                spans_diagnostics(spans)
            } else {
                seq![Diagnostic::UnexpectedHeading]
            }
        },
        BlockView::Paragraph(spans) => {
            if m.state == State::InComment {
                spans_diagnostics(spans)
            } else {
                seq![Diagnostic::UnexpectedParagraph]
            }
        },
        BlockView::UnorderedList(items) => {
            if m.state == State::ExpectDescriptionList {
                description_diagnostics(items, Some(m.current.links.len())) + missing_fields(
                    description_fields(items, Some(m.current.links.len())),
                )
            } else if m.state == State::InComment {
                list_diagnostics(items)
            } else {
                seq![Diagnostic::UnexpectedList]
            }
        },
        BlockView::Other => seq![Diagnostic::UnknownBlock],
    }
}

/// The extractor after `blocks`, taken in order from `m`.
pub open spec fn run(m: Machine, blocks: Seq<BlockView>) -> Machine
    decreases blocks.len(),
{
    if blocks.len() == 0 {
        m
    } else {
        step(run(m, blocks.drop_last()), blocks.last())
    }
}

/// The diagnostics of `blocks`, taken in order from `m`.
pub open spec fn run_diagnostics(m: Machine, blocks: Seq<BlockView>) -> Seq<Diagnostic>
    decreases blocks.len(),
{
    if blocks.len() == 0 {
        Seq::empty()
    } else {
        run_diagnostics(m, blocks.drop_last()) + step_diagnostics(
            run(m, blocks.drop_last()),
            blocks.last(),
        )
    }
}

/// The records of the extractor at the end of the document: the sealed ones,
/// then the one in progress if it belongs to a program.
pub open spec fn sealed(m: Machine) -> Seq<RecordView> {
    if m.opened {
        m.records.push(m.current)
    } else {
        m.records
    }
}

/// The records of a document.
pub open spec fn extraction(blocks: Seq<BlockView>) -> Seq<RecordView> {
    sealed(run(initial(), blocks))
}

/// The diagnostics of a document.
pub open spec fn extraction_diagnostics(blocks: Seq<BlockView>) -> Seq<Diagnostic> {
    run_diagnostics(initial(), blocks)
}

/// The views of a sequence of records, in order.
pub open spec fn record_views(records: Seq<ParsedMagistrature>) -> Seq<RecordView> {
    Seq::new(records.len(), |i: int| records[i]@)
}

/// The extractor: the state, the record in progress and the sealed records.
pub struct Extractor {
    /// Where the extractor stands.
    pub state: State,
    /// Whether a level-2 heading has been met.
    pub opened: bool,
    /// The record being built.
    pub current: ParsedMagistrature,
    /// The records that were sealed, in the order of their programs.
    pub records: Vec<ParsedMagistrature>,
}

impl View for Extractor {
    type V = Machine;

    open spec fn view(&self) -> Machine {
        Machine {
            state: self.state,
            opened: self.opened,
            current: self.current@,
            records: record_views(self.records@),
        }
    }
}

impl Extractor {
    /// The extractor before the first block.
    pub fn new() -> (extractor: Self)
        ensures
            extractor@ == initial(),
    {
        let extractor = Extractor {
            state: State::Start,
            opened: false,
            current: ParsedMagistrature::new(),
            records: Vec::new(),
        };
        assert(extractor@.records =~= Seq::empty());
        extractor
    }

    /// Takes one block: moves to the next state, seals or extends the record
    /// in progress as the block asks, and reports to `log` what it ignores.
    pub fn step(&mut self, block: Block, log: &mut Vec<Diagnostic>)
        ensures
            final(self)@ == step(old(self)@, block@),
            final(log)@ == old(log)@ + step_diagnostics(old(self)@, block@),
    {
        match block {
            Block::Header(spans, level) => {
                if level == 1 {
                    self.state = State::TopLevel;
                } else if level == 2 {
                    if self.state != State::TopLevel {
                        let mut done = ParsedMagistrature::new();
                        std::mem::swap(&mut self.current, &mut done);
                        self.records.push(done);
                        assert(self@.records =~= old(self)@.records.push(old(self)@.current));
                    }
                    self.state = State::ExpectDescriptionList;
                    self.opened = true;
                } else if level == 3 {
                    let text = spans_to_text(spans, None, log);
                    if same_text(text.as_str(), JUSTIFICATION_MARKER) {
                        self.state = State::InComment;
                        } else {
                        log.push(Diagnostic::IgnoredSection);
                        }
                } else if level > 3 && self.state == State::InComment {
                    let text = spans_to_text(spans, Some(&mut self.current.links), log);
                    self.current.push_comment_subheader(text.as_str());
                } else {
                    log.push(Diagnostic::UnexpectedHeading);
                }
            },
            Block::Paragraph(spans) => {
                if self.state == State::InComment {
                    let text = spans_to_text(spans, Some(&mut self.current.links), log);
                    self.current.push_comment_text(text.as_str());
                } else {
                    log.push(Diagnostic::UnexpectedParagraph);
                }
            },
            Block::UnorderedList(items) => {
                if self.state == State::ExpectDescriptionList {
                    let (university, faculty, name) = parse_description_list(
                        items,
                        Some(&mut self.current.links),
                        log,
                    );
                    if university.is_none() {
                        log.push(Diagnostic::MissingUniversity);
                    }
                    if faculty.is_none() {
                        log.push(Diagnostic::MissingFaculty);
                    }
                    if name.is_none() {
                        log.push(Diagnostic::MissingName);
                    }
                    self.current.university = university;
                    self.current.faculty = faculty;
                    self.current.name = name;
                    self.state = State::InProgramBody;
                } else if self.state == State::InComment {
                    let text = list_to_text(items, Some(&mut self.current.links), log);
                    self.current.push_comment_text(text.as_str());
                } else {
                    log.push(Diagnostic::UnexpectedList);
                }
            },
            Block::Other => {
                log.push(Diagnostic::UnknownBlock);
            },
        }
    }

    /// Ends the document: the sealed records, then the one in progress if a
    /// program was opened, empty or not.
    pub fn finish(self) -> (records: Vec<ParsedMagistrature>)
        ensures
            record_views(records@) == sealed(self@),
    {
        let mut records = self.records;
        if self.opened {
            records.push(self.current);
        }
        records
    }
}

/// Extracts the records of a document, one per program section, in document
/// order. Whatever the blocks hold, extraction goes through to the end: what
/// it cannot read contributes nothing and is reported to `log`.
pub fn extract_mags(blocks: Vec<Block>, log: &mut Vec<Diagnostic>) -> (records: Vec<
    ParsedMagistrature,
>)
    ensures
        record_views(records@) == extraction(block_views(blocks@)),
        final(log)@ == old(log)@ + extraction_diagnostics(block_views(blocks@)),
{
    let ghost views = block_views(blocks@);
    let mut extractor = Extractor::new();
    for block in it: blocks
        invariant
            it.seq() == blocks@,
            views == block_views(blocks@),
            extractor@ == run(initial(), views.take(it.index())),
            log@ == old(log)@ + run_diagnostics(initial(), views.take(it.index())),
    {
        proof {
            let done = views.take(it.index());
            let next = views.take(it.index() + 1);
            assert(next.drop_last() =~= done);
        }
        extractor.step(block, log);
    }
    assert(views.take(blocks@.len() as int) =~= views);
    extractor.finish()
}

} // verus!
