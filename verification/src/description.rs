//! The description list of a program: `Key: Value` entries that name its
//! university, its faculty and the program itself.

use vstd::prelude::*;
use vstd::string::*;
use crate::diagnostic::Diagnostic;
use crate::document::{ListItem, ListItemView, item_views};
use crate::render::{advance, list_links, spans_diagnostics, spans_text, spans_to_text};
use crate::text::{same_text, text_view, text_views};

verus! {

/// The key of the entry that names the university.
pub const UNIVERSITY_KEY: &'static str = "ВУЗ";

/// The key of the entry that names the faculty.
pub const FACULTY_KEY: &'static str = "Факультет";

/// The key of the entry that names the program.
pub const SPECIALITY_KEY: &'static str = "Специальность";

/// Whether `key` is one of the three keys that a description list may use.
pub open spec fn known_key(key: Seq<char>) -> bool {
    key == UNIVERSITY_KEY@ || key == FACULTY_KEY@ || key == SPECIALITY_KEY@
}

/// Whether position `i` of `text` holds its first colon.
pub open spec fn is_first_colon(text: Seq<char>, i: int) -> bool {
    &&& 0 <= i < text.len()
    &&& text[i] == ':'
    &&& forall|j: int| 0 <= j < i ==> text[j] != ':'
}

/// `text` without one leading space, if it has one.
pub open spec fn strip_space(text: Seq<char>) -> Seq<char> {
    if text.len() > 0 && text[0] == ' ' {
        text.skip(1)
    } else {
        text
    }
}

/// The key and the value of a description entry: what stands before the first
/// colon, and what stands after it less one leading space. `None` where the
/// text has no colon.
pub open spec fn split_description(text: Seq<char>) -> Option<(Seq<char>, Seq<char>)> {
    if exists|i: int| is_first_colon(text, i) {
        let i = choose|i: int| is_first_colon(text, i);
        Some((text.take(i), strip_space(text.skip(i + 1))))
    } else {
        None
    }
}

/// A text has at most one first colon, so `split_description` splits at the
/// position that is one.
pub proof fn lemma_split_at_first_colon(text: Seq<char>, i: int)
    requires
        is_first_colon(text, i),
    ensures
        split_description(text) == Some((text.take(i), strip_space(text.skip(i + 1)))),
{
    let chosen = choose|k: int| is_first_colon(text, k);
    assert(chosen == i);
}

/// A text without a colon is no description entry.
pub proof fn lemma_no_colon_no_entry(text: Seq<char>)
    requires
        forall|j: int| 0 <= j < text.len() ==> text[j] != ':',
    ensures
        split_description(text) is None,
{
    assert(forall|i: int| !is_first_colon(text, i));
}

/// An entry written as a key without a colon, a colon and a value splits
/// into that key and that value; one space between the colon and the value
/// is no part of the value.
pub proof fn lemma_split_key_value(key: Seq<char>, value: Seq<char>)
    requires
        forall|j: int| 0 <= j < key.len() ==> key[j] != ':',
    ensures
        split_description(key + seq![':'] + value) == Some((key, strip_space(value))),
        split_description(key + seq![':', ' '] + value) == Some((key, value)),
{
    let plain = key + seq![':'] + value;
    let spaced = key + seq![':', ' '] + value;
    let at = key.len() as int;
    lemma_split_at_first_colon(plain, at);
    lemma_split_at_first_colon(spaced, at);
}

/// Splits a description entry into its key and its value at the first colon;
/// one space after the colon is no part of the value.
pub fn parse_description<'a>(s: &'a str) -> (entry: Option<(&'a str, &'a str)>)
    ensures
        match entry {
            Some((key, value)) => split_description(s@) == Some((key@, value@)),
            None => split_description(s@) is None,
        },
{
    let n = s.unicode_len();
    let mut i: usize = 0;
    for c in it: s.chars()
        invariant
            it.seq() == s@,
            i == it.index(),
            n == s@.len(),
            forall|j: int| 0 <= j < i ==> s@[j] != ':',
    {
        if c == ':' {
            let key = s.substring_char(0, i);
            let start = if i + 1 < n && s.get_char(i + 1) == ' ' {
                i + 2
            } else {
                i + 1
            };
            let value = s.substring_char(start, n);
            proof {
                lemma_split_at_first_colon(s@, i as int);
            }
            return Some((key, value));
        }
        i = i + 1;
    }
    proof {
        lemma_no_colon_no_entry(s@);
    }
    None
}

/// The three fields that a description list may set.
pub struct Description {
    pub university: Option<Seq<char>>,
    pub faculty: Option<Seq<char>>,
    pub speciality: Option<Seq<char>>,
}

/// The description that sets no field.
pub open spec fn no_description() -> Description {
    Description { university: None, faculty: None, speciality: None }
}

/// `fields` after an entry with `key` and `value`: a known key sets its field,
/// over what an earlier entry may have set; any other key changes nothing.
pub open spec fn with_entry(fields: Description, key: Seq<char>, value: Seq<char>) -> Description {
    if key == FACULTY_KEY@ {
        Description { faculty: Some(value), ..fields }
    } else if key == SPECIALITY_KEY@ {
        Description { speciality: Some(value), ..fields }
    } else if key == UNIVERSITY_KEY@ {
        Description { university: Some(value), ..fields }
    } else {
        fields
    }
}

/// `fields` after one item of a description list, rendered where `held` links
/// are recorded before it. Only a simple item whose text splits into a key
/// and a value can change a field.
pub open spec fn with_item(
    fields: Description,
    item: ListItemView,
    held: Option<nat>,
) -> Description {
    match item {
        ListItemView::Simple(spans) => match split_description(spans_text(spans, held)) {
            Some((key, value)) => with_entry(fields, key, value),
            None => fields,
        },
        ListItemView::Nested => fields,
    }
}

/// The diagnostics that one item of a description list gives rise to: those
/// of its spans, then what is wrong with the entry itself.
pub open spec fn entry_diagnostics(item: ListItemView, held: Option<nat>) -> Seq<Diagnostic> {
    match item {
        ListItemView::Simple(spans) => spans_diagnostics(spans) + (match split_description(
            spans_text(spans, held),
        ) {
            Some((key, _)) => if known_key(key) {
                Seq::empty()
            } else {
                seq![Diagnostic::UnknownDescriptionKey]
            },
            None => seq![Diagnostic::UnparseableDescription],
        }),
        ListItemView::Nested => seq![Diagnostic::NestedDescriptionItem],
    }
}

/// The fields that a description list sets, its items read in order, where
/// each hyperlink counts the links before it.
pub open spec fn description_fields(items: Seq<ListItemView>, held: Option<nat>) -> Description
    decreases items.len(),
{
    if items.len() == 0 {
        no_description()
    } else {
        with_item(
            description_fields(items.drop_last(), held),
            items.last(),
            advance(held, list_links(items.drop_last()).len()),
        )
    }
}

/// The diagnostics of a description list, in order.
pub open spec fn description_diagnostics(items: Seq<ListItemView>, held: Option<nat>) -> Seq<
    Diagnostic,
>
    decreases items.len(),
{
    if items.len() == 0 {
        Seq::empty()
    } else {
        description_diagnostics(items.drop_last(), held) + entry_diagnostics(
            items.last(),
            advance(held, list_links(items.drop_last()).len()),
        )
    }
}

/// The three keys are told apart and hold no colon: an entry written as a
/// known key, a colon, a space and a value sets the field of that key to that
/// value, and no other field.
pub proof fn lemma_known_entry(fields: Description, value: Seq<char>)
    ensures
        split_description(UNIVERSITY_KEY@ + seq![':', ' '] + value) == Some(
            (UNIVERSITY_KEY@, value),
        ),
        split_description(FACULTY_KEY@ + seq![':', ' '] + value) == Some((FACULTY_KEY@, value)),
        split_description(SPECIALITY_KEY@ + seq![':', ' '] + value) == Some(
            (SPECIALITY_KEY@, value),
        ),
        with_entry(fields, UNIVERSITY_KEY@, value) == (Description {
            university: Some(value),
            ..fields
        }),
        with_entry(fields, FACULTY_KEY@, value) == (Description { faculty: Some(value), ..fields }),
        with_entry(fields, SPECIALITY_KEY@, value) == (Description {
            speciality: Some(value),
            ..fields
        }),
{
    reveal_strlit("ВУЗ");
    reveal_strlit("Факультет");
    reveal_strlit("Специальность");
    assert(UNIVERSITY_KEY@.len() == 3);
    assert(FACULTY_KEY@.len() == 9);
    assert(SPECIALITY_KEY@.len() == 13);
    lemma_split_key_value(UNIVERSITY_KEY@, value);
    lemma_split_key_value(FACULTY_KEY@, value);
    lemma_split_key_value(SPECIALITY_KEY@, value);
}

/// The description that three optional strings stand for: the university,
/// the faculty and the program, in this order.
pub open spec fn description_of(
    fields: (Option<String>, Option<String>, Option<String>),
) -> Description {
    Description {
        university: text_view(fields.0),
        faculty: text_view(fields.1),
        speciality: text_view(fields.2),
    }
}

/// Reads a description list: the values of the entries that name the
/// university, the faculty and the program, in this order. Hyperlinks in the
/// entries are handled as in `spans_to_text`. A block-style item, an entry
/// without a colon and an entry with an unknown key set nothing and are
/// reported to `log`.
pub fn parse_description_list(
    items: Vec<ListItem>,
    links: Option<&mut Vec<String>>,
    log: &mut Vec<Diagnostic>,
) -> (fields: (Option<String>, Option<String>, Option<String>))
    ensures
        match links {
            Some(held) => {
                &&& text_views(final(held)@) == text_views(held@) + list_links(item_views(items@))
                &&& description_of(fields) == description_fields(
                    item_views(items@),
                    Some(held@.len()),
                )
                &&& final(log)@ == old(log)@ + description_diagnostics(
                    item_views(items@),
                    Some(held@.len()),
                )
            },
            None => {
                &&& description_of(fields) == description_fields(item_views(items@), None)
                &&& final(log)@ == old(log)@ + description_diagnostics(item_views(items@), None)
            },
        },
{
    let ghost views = item_views(items@);
    let ghost start = links;
    let mut links = links;
    let mut university: Option<String> = None;
    let mut faculty: Option<String> = None;
    let mut speciality: Option<String> = None;
    for item in it: items
        invariant
            it.seq() == items@,
            views == item_views(items@),
            match start {
                Some(held) => {
                    &&& links matches Some(now)
                    &&& *final(now) == *final(held)
                    &&& text_views(now@) == text_views(held@) + list_links(views.take(it.index()))
                    &&& description_of((university, faculty, speciality)) == description_fields(
                        views.take(it.index()),
                        Some(held@.len()),
                    )
                    &&& log@ == old(log)@ + description_diagnostics(
                        views.take(it.index()),
                        Some(held@.len()),
                    )
                },
                None => {
                    &&& links is None
                    &&& description_of((university, faculty, speciality)) == description_fields(
                        views.take(it.index()),
                        None,
                    )
                    &&& log@ == old(log)@ + description_diagnostics(views.take(it.index()), None)
                },
            },
    {
        proof {
            let done = views.take(it.index());
            let next = views.take(it.index() + 1);
            assert(next.drop_last() =~= done);
        }
        match item {
            ListItem::Simple(spans) => {
                let text;
                links = if let Some(now) = links {
                    text = spans_to_text(spans, Some(&mut *now), log);
                    Some(now)
                } else {
                    text = spans_to_text(spans, None, log);
                    None
                };
                if let Some((name, value)) = parse_description(text.as_str()) {
                    if same_text(name, FACULTY_KEY) {
                        faculty = Some(String::from_str(value));
                    } else if same_text(name, SPECIALITY_KEY) {
                        speciality = Some(String::from_str(value));
                    } else if same_text(name, UNIVERSITY_KEY) {
                        university = Some(String::from_str(value));
                    } else {
                        log.push(Diagnostic::UnknownDescriptionKey);
                    }
                } else {
                    log.push(Diagnostic::UnparseableDescription);
                }
            },
            ListItem::Nested => {
                log.push(Diagnostic::NestedDescriptionItem);
            },
        }
    }
    assert(views.take(items@.len() as int) =~= views);
    (university, faculty, speciality)
}

} // verus!
