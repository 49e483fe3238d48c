//! Extraction of graduate-program records from a tokenized markdown document.
//!
//! A document is a flat sequence of blocks (`document`). The extractor
//! (`extract`) walks the blocks as a state machine and assembles one record
//! (`record`) per program section: it renders inline spans to text and turns
//! hyperlinks into numbered footnote markers (`render`, `numeral`), reads the
//! key/value description list of each program (`description`) and reports
//! every anomaly it meets as a diagnostic (`diagnostic`) instead of failing.
//!
//! What holds of every document is proved beside the functions it is about:
//! how links are numbered (`render`), how many records come out (`sections`),
//! and that nothing once extracted is taken back (`growth`).

pub mod description;
pub mod diagnostic;
pub mod document;
pub mod extract;
pub mod growth;
pub mod numeral;
pub mod record;
pub mod render;
pub mod sections;
pub mod text;

pub use description::{parse_description, parse_description_list};
pub use diagnostic::Diagnostic;
pub use document::{Block, ListItem, Span};
pub use extract::{extract_mags, Extractor, State};
pub use record::ParsedMagistrature;
pub use render::{list_to_text, spans_to_text};
