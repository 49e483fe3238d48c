//! The record of one program, and how its commentary grows.

use vstd::prelude::*;
use vstd::string::*;
use crate::text::{text_view, text_views};

verus! {

/// One program entry as extraction assembles it. A field that the document
/// does not supply stays `None`.
#[derive(Clone, Debug, PartialEq, Eq)]
pub struct ParsedMagistrature {
    /// The sub-unit that runs the program.
    pub faculty: Option<String>,
    /// The institution.
    pub university: Option<String>,
    /// The program's name.
    pub name: Option<String>,
    /// The URLs that the record's texts refer to; marker `[k]` refers to the
    /// `k`-th of them, counted from one.
    pub links: Vec<String>,
    /// The free-form commentary, `None` until something is appended.
    pub comment: Option<String>,
}

/// What a `ParsedMagistrature` holds, as mathematical values.
pub struct RecordView {
    pub faculty: Option<Seq<char>>,
    pub university: Option<Seq<char>>,
    pub name: Option<Seq<char>>,
    pub links: Seq<Seq<char>>,
    pub comment: Option<Seq<char>>,
}

/// The record that holds nothing.
pub open spec fn empty_record() -> RecordView {
    RecordView { faculty: None, university: None, name: None, links: Seq::empty(), comment: None }
}

/// The commentary after a subheading is appended: the subheading stands on a
/// line of its own, parted from what came before by a line break.
pub open spec fn with_subheader(comment: Option<Seq<char>>, header: Seq<char>) -> Seq<char> {
    match comment {
        Some(c) => c + seq!['\n'] + header + seq!['\n'],
        None => header + seq!['\n'],
    }
}

/// The commentary after a text is appended as it is.
pub open spec fn with_text(comment: Option<Seq<char>>, text: Seq<char>) -> Seq<char> {
    match comment {
        Some(c) => c + text,
        None => text,
    }
}

/// The strings of `lines` joined by line breaks.
pub open spec fn join_lines(lines: Seq<Seq<char>>) -> Seq<char>
    decreases lines.len(),
{
    if lines.len() == 0 {
        Seq::empty()
    } else if lines.len() == 1 {
        lines[0]
    } else {
        join_lines(lines.drop_last()) + seq!['\n'] + lines.last()
    }
}

/// The titles of the five columns of the table that the records fill, in
/// column order: university, faculty, program, commentary, links.
pub open spec fn column_titles() -> Seq<Seq<char>> {
    seq!["ВУЗ"@, "Факультет"@, "Магистратура"@, "Комментарий"@, "Ссылки"@]
}

impl View for ParsedMagistrature {
    type V = RecordView;

    open spec fn view(&self) -> RecordView {
        RecordView {
            faculty: text_view(self.faculty),
            university: text_view(self.university),
            name: text_view(self.name),
            links: text_views(self.links@),
            comment: text_view(self.comment),
        }
    }
}

impl ParsedMagistrature {
    /// A record that holds nothing yet.
    pub fn new() -> (record: Self)
        ensures
            record@ == empty_record(),
    {
        let record = Self {
            faculty: None,
            university: None,
            name: None,
            links: Vec::new(),
            comment: None,
        };
        assert(record@.links =~= Seq::empty());
        record
    }

    /// Appends a subheading of the commentary as a line of its own.
    pub fn push_comment_subheader(&mut self, header: &str)
        ensures
            final(self)@ == (RecordView {
                comment: Some(with_subheader(old(self)@.comment, header@)),
                ..old(self)@
            }),
    {
        proof {
            reveal_strlit("\n");
        }
        let mut comment = match self.comment.take() {
            Some(mut held) => {
                held.append("\n");
                held
            },
            None => String::new(),
        };
        comment.append(header);
        comment.append("\n");
        assert(comment@ =~= with_subheader(old(self)@.comment, header@));
        self.comment = Some(comment);
    }

    /// Appends a text to the commentary as it is.
    pub fn push_comment_text(&mut self, text: &str)
        ensures
            final(self)@ == (RecordView {
                comment: Some(with_text(old(self)@.comment, text@)),
                ..old(self)@
            }),
    {
        let mut comment = match self.comment.take() {
            Some(held) => held,
            None => String::new(),
        };
        comment.append(text);
        self.comment = Some(comment);
    }

    /// The record's links as one cell of a table: the URLs joined by line
    /// breaks.
    pub fn links_cell(&self) -> (cell: String)
        ensures
            cell@ == join_lines(self@.links),
    {
        let mut cell = String::new();
        let mut i: usize = 0;
        while i < self.links.len()
            invariant
                i <= self.links.len(),
                cell@ == join_lines(self@.links.take(i as int)),
            decreases self.links.len() - i,
        {
            if i > 0 {
                cell.append("\n");
            }
            cell.append(self.links[i].as_str());
            proof {
                reveal_strlit("\n");
                let before = self@.links.take(i as int);
                let after = self@.links.take(i + 1);
                assert(after.drop_last() =~= before);
            }
            i = i + 1;
        }
        assert(self@.links.take(i as int) =~= self@.links);
        cell
    }
}

/// The titles of the columns of the table that the records fill, in column
/// order.
pub fn column_names() -> (names: Vec<&'static str>)
    ensures
        names@.len() == column_titles().len(),
        forall|i: int| 0 <= i < names@.len() ==> (#[trigger] names@[i])@ == column_titles()[i],
{
    let mut names: Vec<&'static str> = Vec::new();
    names.push("ВУЗ");
    names.push("Факультет");
    names.push("Магистратура");
    names.push("Комментарий");
    names.push("Ссылки");
    names
}

} // verus!
