//! The line store and the edits on it.

use crate::editor::{AbsentStatus, AnchorRelation, EditStatus, Ensure, Placement, PresentStatus, ReplaceStatus};
use crate::pattern::{
    key_pattern, key_pattern_source, line_pattern, line_pattern_source, pair_pattern,
    pair_pattern_source, regex_compiles, regex_is_match, regex_split_pieces, Pattern,
};
use vstd::prelude::*;

verus! {

/// Why an edit could not be made. The lines are left as they were.
#[derive(Debug)]
pub enum LinesEditorError {
    /// The pair could not be split in two by the separator.
    InvalidPairOrSeparator,
    /// An expression could not be compiled.
    InvalidPattern,
    /// More than one line is a candidate where exactly one is needed.
    MultipleMatch,
    /// Nothing to edit relative to; carries back the value that was to be put.
    NotApplicable(String),
}

impl LinesEditorError {
    /// The short description of the error.
    pub open spec fn message(self) -> Seq<char> {
        match self {
            LinesEditorError::InvalidPairOrSeparator => "Failed to split given value as key and value pair with given separator pattern"@,
            LinesEditorError::InvalidPattern => "Failed to compile pattern"@,
            LinesEditorError::MultipleMatch => "Multiple candidates found"@,
            LinesEditorError::NotApplicable(_) => "Edit was not applicable"@,
        }
    }

    /// The short description of the error, as text.
    pub fn to_string(&self) -> (r: String)
        ensures
            r@ == self.message(),
    {
        match self {
            LinesEditorError::InvalidPairOrSeparator => String::from_str("Failed to split given value as key and value pair with given separator pattern"),
            LinesEditorError::InvalidPattern => String::from_str("Failed to compile pattern"),
            LinesEditorError::MultipleMatch => String::from_str("Multiple candidates found"),
            LinesEditorError::NotApplicable(_) => String::from_str("Edit was not applicable"),
        }
    }
}

/// Some line matches `pattern`.
pub open spec fn any_match(lines: Seq<Seq<char>>, pattern: Seq<char>) -> bool {
    exists|i: int| 0 <= i < lines.len() && #[trigger] regex_is_match(pattern, lines[i])
}

/// At least two lines match `pattern`.
pub open spec fn several_matches(lines: Seq<Seq<char>>, pattern: Seq<char>) -> bool {
    exists|i: int, j: int|
        0 <= i < j < lines.len() && #[trigger] regex_is_match(pattern, lines[i])
            && #[trigger] regex_is_match(pattern, lines[j])
}

/// A line that matches `pattern`: the only one, where exactly one does.
pub open spec fn match_index(lines: Seq<Seq<char>>, pattern: Seq<char>) -> int {
    choose|i: int| 0 <= i < lines.len() && #[trigger] regex_is_match(pattern, lines[i])
}

/// Where a value goes next to the anchor line at `anchor`.
pub open spec fn relative_index(relation: AnchorRelation, anchor: int) -> int {
    match relation {
        AnchorRelation::Before => anchor,
        AnchorRelation::After => anchor + 1,
    }
}

/// Making sure that no line matches `pattern`: remove the one line that
/// does; fail when several do.
pub open spec fn absent_outcome(lines: Seq<Seq<char>>, pattern: Seq<char>) -> (
    Seq<Seq<char>>,
    Result<AbsentStatus, LinesEditorError>,
) {
    if !any_match(lines, pattern) {
        (lines, Ok(AbsentStatus::AlreadyAbsent))
    } else if several_matches(lines, pattern) {
        (lines, Err(LinesEditorError::MultipleMatch))
    } else {
        (lines.remove(match_index(lines, pattern)), Ok(AbsentStatus::Removed))
    }
}

/// Making sure that some line matches `value_pattern`: if none does, insert
/// `value` where `placement` says, which needs exactly one anchor line.
pub open spec fn present_outcome(
    lines: Seq<Seq<char>>,
    value_pattern: Seq<char>,
    value: String,
    placement: Placement,
) -> (Seq<Seq<char>>, Result<PresentStatus, LinesEditorError>) {
    if any_match(lines, value_pattern) {
        (lines, Ok(PresentStatus::AlreadyPresent))
    } else {
        match placement {
            Placement::AtTop => (lines.insert(0, value@), Ok(PresentStatus::InsertedPlacement)),
            Placement::AtEnd => (lines.push(value@), Ok(PresentStatus::InsertedPlacement)),
            Placement::RelativeTo { relation, anchor } => {
                if !any_match(lines, anchor@) {
                    (lines, Err(LinesEditorError::NotApplicable(value)))
                } else if several_matches(lines, anchor@) {
                    (lines, Err(LinesEditorError::MultipleMatch))
                } else {
                    (
                        lines.insert(relative_index(relation, match_index(lines, anchor@)), value@),
                        Ok(PresentStatus::InsertedPlacement),
                    )
                }
            },
        }
    }
}

/// Replacing the one line that matches `key_pattern` by `pair`, unless it
/// already matches `pair_pattern`.
pub open spec fn replace_outcome(
    lines: Seq<Seq<char>>,
    pair_pattern: Seq<char>,
    key_pattern: Seq<char>,
    pair: String,
) -> (Seq<Seq<char>>, Result<ReplaceStatus, LinesEditorError>) {
    if !any_match(lines, key_pattern) {
        (lines, Err(LinesEditorError::NotApplicable(pair)))
    } else if several_matches(lines, key_pattern) {
        (lines, Err(LinesEditorError::MultipleMatch))
    } else {
        let i = match_index(lines, key_pattern);
        if regex_is_match(pair_pattern, lines[i]) {
            (lines, Ok(ReplaceStatus::AlreadyPresent))
        } else {
            (lines.update(i, pair@), Ok(ReplaceStatus::Replaced))
        }
    }
}

/// A presence outcome as the outcome of an edit.
pub open spec fn present_edit(r: Result<PresentStatus, LinesEditorError>) -> Result<EditStatus, LinesEditorError> {
    match r {
        Ok(s) => Ok(EditStatus::Present(s)),
        Err(e) => Err(e),
    }
}

/// An absence outcome as the outcome of an edit.
pub open spec fn absent_edit(r: Result<AbsentStatus, LinesEditorError>) -> Result<EditStatus, LinesEditorError> {
    match r {
        Ok(s) => Ok(EditStatus::Absent(s)),
        Err(e) => Err(e),
    }
}

/// A replacement outcome as the outcome of an edit.
pub open spec fn replace_edit(r: Result<ReplaceStatus, LinesEditorError>) -> Result<EditStatus, LinesEditorError> {
    match r {
        Ok(s) => Ok(EditStatus::Replaced(s)),
        Err(e) => Err(e),
    }
}

/// Making sure that a line value is present or absent, given the pattern
/// that recognises its line.
pub open spec fn line_edit_outcome(
    lines: Seq<Seq<char>>,
    value_pattern: Seq<char>,
    value: String,
    ensure: Ensure,
) -> (Seq<Seq<char>>, Result<EditStatus, LinesEditorError>) {
    match ensure {
        Ensure::Present { placement } => {
            let (l, r) = present_outcome(lines, value_pattern, value, placement);
            (l, present_edit(r))
        },
        Ensure::Absent => {
            let (l, r) = absent_outcome(lines, value_pattern);
            (l, absent_edit(r))
        },
    }
}

/// Making sure that a pair is present or absent, given the patterns that
/// recognise its whole line and the line of its key. A present pair replaces
/// the one line of its key; with no such line it is inserted at the placement.
pub open spec fn pair_edit_outcome(
    lines: Seq<Seq<char>>,
    pair_pattern: Seq<char>,
    key_pattern: Seq<char>,
    pair: String,
    ensure: Ensure,
) -> (Seq<Seq<char>>, Result<EditStatus, LinesEditorError>) {
    match ensure {
        Ensure::Present { placement } => {
            if any_match(lines, key_pattern) {
                let (l, r) = replace_outcome(lines, pair_pattern, key_pattern, pair);
                (l, replace_edit(r))
            } else {
                let (l, r) = present_outcome(lines, pair_pattern, pair, placement);
                (l, present_edit(r))
            }
        },
        Ensure::Absent => {
            let (l, r) = absent_outcome(lines, pair_pattern);
            (l, absent_edit(r))
        },
    }
}

/// The outcome of `LinesEditor::edit_line` on `lines`.
pub open spec fn edit_line_outcome(
    lines: Seq<Seq<char>>,
    value: String,
    ignore_whitespace: bool,
    ensure: Ensure,
) -> (Seq<Seq<char>>, Result<EditStatus, LinesEditorError>) {
    let value_pattern = line_pattern_source(value@, ignore_whitespace);
    if !regex_compiles(value_pattern) {
        (lines, Err(LinesEditorError::InvalidPattern))
    } else {
        line_edit_outcome(lines, value_pattern, value, ensure)
    }
}

/// The key pattern of a pair: the whole pair's pattern where several values
/// of one key may stand side by side, else the key and the separator.
pub open spec fn key_pattern_of(
    key: Seq<char>,
    separator: Seq<char>,
    value: Seq<char>,
    multikey: bool,
    ignore_whitespace: bool,
) -> Seq<char> {
    if multikey {
        pair_pattern_source(key, separator, value, ignore_whitespace)
    } else {
        key_pattern_source(key, separator, ignore_whitespace)
    }
}

/// The outcome of `LinesEditor::edit_pair` on `lines`.
pub open spec fn edit_pair_outcome(
    lines: Seq<Seq<char>>,
    pair: String,
    multikey: bool,
    ignore_whitespace: bool,
    separator: Seq<char>,
    ensure: Ensure,
) -> (Seq<Seq<char>>, Result<EditStatus, LinesEditorError>) {
    let pieces = regex_split_pieces(separator, pair@);
    if pieces.len() != 2 {
        (lines, Err(LinesEditorError::InvalidPairOrSeparator))
    } else {
        let pair_pattern = pair_pattern_source(pieces[0], separator, pieces[1], ignore_whitespace);
        let key_pattern = key_pattern_of(pieces[0], separator, pieces[1], multikey, ignore_whitespace);
        if !regex_compiles(pair_pattern) || !regex_compiles(key_pattern) {
            (lines, Err(LinesEditorError::InvalidPattern))
        } else {
            pair_edit_outcome(lines, pair_pattern, key_pattern, pair, ensure)
        }
    }
}

/// The text of the lines, each one followed by a newline.
pub open spec fn rendered(lines: Seq<Seq<char>>) -> Seq<char>
    decreases lines.len(),
{
    if lines.len() == 0 {
        Seq::empty()
    } else {
        rendered(lines.drop_last()) + lines.last() + "\n"@
    }
}

/// An ordered sequence of text lines, edited in place.
#[derive(Debug)]
pub struct LinesEditor {
    lines: Vec<String>,
}

impl View for LinesEditor {
    type V = Seq<Seq<char>>;

    closed spec fn view(&self) -> Seq<Seq<char>> {
        self.lines@.map_values(|l: String| l@)
    }
}

impl LinesEditor {
    /// A store that holds `lines`, in their order.
    pub fn load(lines: Vec<String>) -> (r: LinesEditor)
        ensures
            r@ == lines@.map_values(|l: String| l@),
    {
        LinesEditor { lines }
    }

    /// The first line at or after `start` that matches `pattern`.
    fn first_match_from(&self, pattern: &Pattern, start: usize) -> (r: Option<usize>)
        requires
            start <= self@.len(),
        ensures
            r matches Some(i) ==> start <= i < self@.len() && regex_is_match(pattern@, self@[i as int]),
            forall|k: int|
                start <= k < (if let Some(i) = r { i as int } else { self@.len() as int })
                    ==> !#[trigger] regex_is_match(pattern@, self@[k]),
    {
        let n = self.lines.len();
        let mut i: usize = start;
        while i < n
            invariant
                start <= i <= n,
                n == self@.len(),
                forall|k: int| start <= k < i ==> !#[trigger] regex_is_match(pattern@, self@[k]),
            decreases n - i,
        {
            if pattern.is_match(self.lines[i].as_str()) {
                return Some(i);
            }
            i += 1;
        }
        None
    }

    /// Whether some line matches `pattern`.
    fn has_match(&self, pattern: &Pattern) -> (r: bool)
        ensures
            r == any_match(self@, pattern@),
    {
        match self.first_match_from(pattern, 0) {
            Some(_) => true,
            None => false,
        }
    }

    /// The one line that matches `pattern`, if any: the first match is
    /// looked up, then the rest is checked for another one.
    fn unique_match(&self, pattern: &Pattern) -> (r: Result<Option<usize>, LinesEditorError>)
        ensures
            r matches Ok(None) ==> !any_match(self@, pattern@),
            r matches Ok(Some(i)) ==> {
                &&& any_match(self@, pattern@)
                &&& !several_matches(self@, pattern@)
                &&& i as int == match_index(self@, pattern@)
                &&& i < self@.len()
            },
            r matches Err(e) ==> any_match(self@, pattern@) && several_matches(self@, pattern@)
                && e == LinesEditorError::MultipleMatch,
    {
        let ghost lines = self@;
        let ghost p = pattern@;
        match self.first_match_from(pattern, 0) {
            None => Ok(None),
            Some(i) => {
                assert(regex_is_match(p, lines[i as int]));
                assert(lines.len() == self.lines.len());
                match self.first_match_from(pattern, i + 1) {
                    Some(j) => {
                        assert(regex_is_match(p, lines[j as int]));
                        Err(LinesEditorError::MultipleMatch)
                    },
                    None => {
                        assert(regex_is_match(p, lines[match_index(lines, p)]));
                        Ok(Some(i))
                    },
                }
            },
        }
    }

    /// Makes sure that no line matches `pattern`.
    pub fn absent(&mut self, pattern: &Pattern) -> (r: Result<AbsentStatus, LinesEditorError>)
        ensures
            (final(self)@, r) == absent_outcome(old(self)@, pattern@),
    {
        match self.unique_match(pattern) {
            Err(e) => Err(e),
            Ok(None) => Ok(AbsentStatus::AlreadyAbsent),
            Ok(Some(i)) => {
                let _removed = self.lines.remove(i);
                assert(self@ =~= old(self)@.remove(i as int));
                Ok(AbsentStatus::Removed)
            },
        }
    }

    /// Makes sure that some line matches `value_pattern`, inserting `value`
    /// at `placement` if none does.
    pub fn present(&mut self, value_pattern: &Pattern, value: String, placement: &Placement) -> (r:
        Result<PresentStatus, LinesEditorError>)
        ensures
            (final(self)@, r) == present_outcome(old(self)@, value_pattern@, value, *placement),
    {
        if self.has_match(value_pattern) {
            return Ok(PresentStatus::AlreadyPresent);
        }
        let ghost line = value@;
        match placement {
            Placement::AtTop => {
                self.lines.insert(0, value);
                assert(self@ =~= old(self)@.insert(0, line));
            },
            Placement::AtEnd => {
                self.lines.push(value);
                assert(self@ =~= old(self)@.push(line));
            },
            Placement::RelativeTo { relation, anchor } => {
                match self.unique_match(anchor) {
                    Err(e) => {
                        return Err(e);
                    },
                    Ok(None) => {
                        return Err(LinesEditorError::NotApplicable(value));
                    },
                    Ok(Some(p)) => {
                        assert(self@.len() == self.lines.len());
                        let at = match relation {
                            AnchorRelation::Before => p,
                            AnchorRelation::After => p + 1,
                        };
                        self.lines.insert(at, value);
                        assert(self@ =~= old(self)@.insert(at as int, line));
                    },
                }
            },
        }
        Ok(PresentStatus::InsertedPlacement)
    }

    /// Replaces the one line that matches `key_pattern` by `pair`, unless
    /// that line already matches `pair_pattern`.
    pub fn replaced(&mut self, pair_pattern: &Pattern, key_pattern: &Pattern, pair: String) -> (r:
        Result<ReplaceStatus, LinesEditorError>)
        ensures
            (final(self)@, r) == replace_outcome(old(self)@, pair_pattern@, key_pattern@, pair),
    {
        match self.unique_match(key_pattern) {
            Err(e) => Err(e),
            Ok(None) => Err(LinesEditorError::NotApplicable(pair)),
            Ok(Some(i)) => {
                if pair_pattern.is_match(self.lines[i].as_str()) {
                    Ok(ReplaceStatus::AlreadyPresent)
                } else {
                    let ghost line = pair@;
                    self.lines.set(i, pair);
                    assert(self@ =~= old(self)@.update(i as int, line));
                    Ok(ReplaceStatus::Replaced)
                }
            },
        }
    }

    /// Makes sure that a line reading `value` is present or absent, as
    /// `ensure` says. With `ignore_whitespace`, white space around a line's
    /// text does not count.
    pub fn edit_line(&mut self, value: String, ignore_whitespace: bool, ensure: Ensure) -> (r: Result<
        EditStatus,
        LinesEditorError,
    >)
        ensures
            (final(self)@, r) == edit_line_outcome(old(self)@, value, ignore_whitespace, ensure),
    {
        let source = line_pattern(value.as_str(), ignore_whitespace);
        let value_pattern = match Pattern::new(source.as_str()) {
            Ok(p) => p,
            Err(e) => {
                return Err(e);
            },
        };
        match ensure {
            Ensure::Present { placement } => match self.present(&value_pattern, value, &placement) {
                Ok(s) => Ok(EditStatus::Present(s)),
                Err(e) => Err(e),
            },
            Ensure::Absent => match self.absent(&value_pattern) {
                Ok(s) => Ok(EditStatus::Absent(s)),
                Err(e) => Err(e),
            },
        }
    }

    fn ensure_pair(&mut self, pair_pattern: &Pattern, key_pattern: &Pattern, pair: String, ensure: Ensure) -> (r:
        Result<EditStatus, LinesEditorError>)
        ensures
            (final(self)@, r) == pair_edit_outcome(old(self)@, pair_pattern@, key_pattern@, pair, ensure),
    {
        match ensure {
            Ensure::Present { placement } => match self.replaced(pair_pattern, key_pattern, pair) {
                Ok(s) => Ok(EditStatus::Replaced(s)),
                Err(LinesEditorError::NotApplicable(pair)) => match self.present(pair_pattern, pair, &placement) {
                    Ok(s) => Ok(EditStatus::Present(s)),
                    Err(e) => Err(e),
                },
                Err(e) => Err(e),
            },
            Ensure::Absent => match self.absent(pair_pattern) {
                Ok(s) => Ok(EditStatus::Absent(s)),
                Err(e) => Err(e),
            },
        }
    }

    /// Makes sure that a line with the pair `pair`, split in key and value at
    /// the first match of `separator`, is present or absent, as `ensure`
    /// says. A present pair takes the place of the one line of its key, or
    /// with `multikey` of the one line with the same key and value.
    pub fn edit_pair(
        &mut self,
        pair: String,
        multikey: bool,
        ignore_whitespace: bool,
        separator: &Pattern,
        ensure: Ensure,
    ) -> (r: Result<EditStatus, LinesEditorError>)
        ensures
            (final(self)@, r) == edit_pair_outcome(
                old(self)@,
                pair,
                multikey,
                ignore_whitespace,
                separator@,
                ensure,
            ),
    {
        let pieces = separator.split_pieces(pair.as_str());
        if pieces.len() != 2 {
            return Err(LinesEditorError::InvalidPairOrSeparator);
        }
        let key = pieces[0].as_str();
        let value = pieces[1].as_str();
        let pair_source = pair_pattern(key, separator, value, ignore_whitespace);
        let pair_matcher = match Pattern::new(pair_source.as_str()) {
            Ok(p) => p,
            Err(e) => {
                return Err(e);
            },
        };
        if multikey {
            self.ensure_pair(&pair_matcher, &pair_matcher, pair, ensure)
        } else {
            let key_source = key_pattern(key, separator, ignore_whitespace);
            let key_matcher = match Pattern::new(key_source.as_str()) {
                Ok(p) => p,
                Err(e) => {
                    return Err(e);
                },
            };
            self.ensure_pair(&pair_matcher, &key_matcher, pair, ensure)
        }
    }

    /// The text of the lines, each one followed by a newline.
    pub fn to_string(&self) -> (r: String)
        ensures
            r@ == rendered(self@),
    {
        let mut out = String::new();
        let n = self.lines.len();
        let mut i: usize = 0;
        while i < n
            invariant
                i <= n,
                n == self@.len(),
                out@ == rendered(self@.take(i as int)),
            decreases n - i,
        {
            out.append(self.lines[i].as_str());
            out.append("\n");
            assert(self@.take(i + 1).drop_last() =~= self@.take(i as int));
            i += 1;
        }
        assert(self@.take(n as int) =~= self@);
        out
    }
}

} // verus!
