//! The anomalies that extraction reports instead of failing.

use vstd::prelude::*;

verus! {

/// One anomaly met while walking a document. Diagnostics are advisory: the
/// element they are about contributes nothing, and extraction goes on.
#[derive(Clone, Copy, Debug, PartialEq, Eq, Structural)]
pub enum Diagnostic {
    /// An inline span that is neither plain text nor a hyperlink.
    UnhandledSpan,
    /// A block-style item in a list of the commentary.
    NestedCommentItem,
    /// A block-style item in a description list.
    NestedDescriptionItem,
    /// A description entry without a colon.
    UnparseableDescription,
    /// A description entry whose key is none of the three known keys.
    UnknownDescriptionKey,
    /// A description list that names no university.
    MissingUniversity,
    /// A description list that names no faculty.
    MissingFaculty,
    /// A description list that names no program.
    MissingName,
    /// A level-3 heading other than the justification marker.
    IgnoredSection,
    /// A heading below level 3 outside the commentary.
    UnexpectedHeading,
    /// A paragraph outside the commentary.
    UnexpectedParagraph,
    /// A list that is neither a description list nor part of the commentary.
    UnexpectedList,
    /// A block of a kind that extraction does not read.
    UnknownBlock,
}

} // verus!
