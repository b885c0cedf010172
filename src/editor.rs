//! What an edit asks for, and what it reports back.

use crate::pattern::Pattern;
use vstd::prelude::*;

verus! {

/// Whether the value must be in the text or out of it.
#[derive(Debug)]
pub enum Ensure {
    /// The value is present in the text, inserted at `placement` if missing.
    Present { placement: Placement },
    /// The value is absent from the text.
    Absent,
}

/// Where a missing value is inserted.
#[derive(Debug)]
pub enum Placement {
    /// Next to the one line that `anchor` matches.
    RelativeTo { relation: AnchorRelation, anchor: Pattern },
    /// As the first line.
    AtTop,
    /// As the last line.
    AtEnd,
}

/// On which side of the anchor line a value goes.
#[derive(Debug, Clone, Copy, PartialEq, Eq, Structural)]
pub enum AnchorRelation {
    Before,
    After,
}

/// Outcome of replacing the line of an existing key.
#[derive(Debug, Clone, Copy, PartialEq, Eq, Structural)]
pub enum ReplaceStatus {
    AlreadyPresent,
    Replaced,
}

/// Outcome of making sure that a value is present.
#[derive(Debug, Clone, Copy, PartialEq, Eq, Structural)]
pub enum PresentStatus {
    AlreadyPresent,
    InsertedPlacement,
}

/// Outcome of making sure that a value is absent.
#[derive(Debug, Clone, Copy, PartialEq, Eq, Structural)]
pub enum AbsentStatus {
    AlreadyAbsent,
    Removed,
}

/// Outcome of one edit.
#[derive(Debug, Clone, Copy, PartialEq, Eq, Structural)]
pub enum EditStatus {
    Replaced(ReplaceStatus),
    Present(PresentStatus),
    Absent(AbsentStatus),
}

impl From<ReplaceStatus> for EditStatus {
    fn from(s: ReplaceStatus) -> (r: EditStatus)
        ensures
            r == EditStatus::Replaced(s),
    {
        EditStatus::Replaced(s)
    }
}

impl vstd::std_specs::convert::FromSpecImpl<ReplaceStatus> for EditStatus {
    open spec fn obeys_from_spec() -> bool {
        true
    }

    open spec fn from_spec(s: ReplaceStatus) -> EditStatus {
        EditStatus::Replaced(s)
    }
}

impl From<PresentStatus> for EditStatus {
    fn from(s: PresentStatus) -> (r: EditStatus)
        ensures
            r == EditStatus::Present(s),
    {
        EditStatus::Present(s)
    }
}

impl vstd::std_specs::convert::FromSpecImpl<PresentStatus> for EditStatus {
    open spec fn obeys_from_spec() -> bool {
        true
    }

    open spec fn from_spec(s: PresentStatus) -> EditStatus {
        EditStatus::Present(s)
    }
}

impl From<AbsentStatus> for EditStatus {
    fn from(s: AbsentStatus) -> (r: EditStatus)
        ensures
            r == EditStatus::Absent(s),
    {
        EditStatus::Absent(s)
    }
}

impl vstd::std_specs::convert::FromSpecImpl<AbsentStatus> for EditStatus {
    open spec fn obeys_from_spec() -> bool {
        true
    }

    open spec fn from_spec(s: AbsentStatus) -> EditStatus {
        EditStatus::Absent(s)
    }
}

impl EditStatus {
    /// Whether the edit changed the text: false exactly for the outcomes
    /// that found the text already as asked.
    pub open spec fn changes(self) -> bool {
        !(self == EditStatus::Replaced(ReplaceStatus::AlreadyPresent)
            || self == EditStatus::Present(PresentStatus::AlreadyPresent)
            || self == EditStatus::Absent(AbsentStatus::AlreadyAbsent))
    }

    /// The short description of the outcome.
    pub open spec fn message(self) -> Seq<char> {
        if !self.changes() {
            "no change made"@
        } else {
            match self {
                EditStatus::Replaced(_) => "value was replaced"@,
                EditStatus::Present(_) => "value was inserted"@,
                EditStatus::Absent(_) => "value was removed"@,
            }
        }
    }

    pub fn has_changed(&self) -> (r: bool)
        ensures
            r == self.changes(),
    {
        match self {
            EditStatus::Replaced(ReplaceStatus::AlreadyPresent)
            | EditStatus::Present(PresentStatus::AlreadyPresent)
            | EditStatus::Absent(AbsentStatus::AlreadyAbsent) => false,
            _ => true,
        }
    }

    /// The short description of the outcome, as text.
    pub fn to_string(&self) -> (r: String)
        ensures
            r@ == self.message(),
    {
        if !self.has_changed() {
            String::from_str("no change made")
        } else {
            match self {
                EditStatus::Replaced(_) => String::from_str("value was replaced"),
                EditStatus::Present(_) => String::from_str("value was inserted"),
                EditStatus::Absent(_) => String::from_str("value was removed"),
            }
        }
    }
}

} // verus!
