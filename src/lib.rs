//! Declarative, idempotent edits of line-oriented text.
//!
//! A [`LinesEditor`] holds the lines of a document. An edit makes sure that a
//! line (or a `key<separator>value` pair written on one line) is present, and
//! inserts it at a chosen place when it is missing, or that it is absent, and
//! removes it when it is there. A match that is not unique is reported as an
//! error and never resolved by picking one of the candidates.

pub mod editor;
pub mod idempotence;
pub mod lines_editor;
pub mod pattern;

pub use editor::{AbsentStatus, AnchorRelation, EditStatus, Ensure, Placement, PresentStatus, ReplaceStatus};
pub use lines_editor::{LinesEditor, LinesEditorError};
pub use pattern::Pattern;
