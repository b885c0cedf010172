//! Applying an edit a second time changes nothing.
//!
//! An edit inserts a line only when no line matches the value's pattern, and
//! replaces a line only by a line that its patterns are built to recognise.
//! Once that recognition is given, a second application finds the text as
//! asked: it keeps the lines and reports no change.

use crate::editor::{AbsentStatus, Ensure, Placement, PresentStatus};
use crate::lines_editor::{
    absent_outcome, any_match, edit_line_outcome, edit_pair_outcome, key_pattern_of,
    line_edit_outcome, match_index, pair_edit_outcome, present_outcome, several_matches,
    LinesEditorError,
};
use crate::pattern::{line_pattern_source, pair_pattern_source, regex_is_match, regex_split_pieces};
use vstd::prelude::*;

verus! {

/// A line that alone matches `pattern` is the match that the edits act on.
proof fn lemma_unique_match(lines: Seq<Seq<char>>, pattern: Seq<char>, i: int)
    requires
        0 <= i < lines.len(),
        regex_is_match(pattern, lines[i]),
        forall|j: int| 0 <= j < lines.len() && j != i ==> !#[trigger] regex_is_match(pattern, lines[j]),
    ensures
        any_match(lines, pattern),
        !several_matches(lines, pattern),
        match_index(lines, pattern) == i,
{
    assert(any_match(lines, pattern));
    let m = match_index(lines, pattern);
    assert(regex_is_match(pattern, lines[m]));
}

/// Removing the one matching line leaves no match.
proof fn lemma_remove_only_match(lines: Seq<Seq<char>>, pattern: Seq<char>)
    requires
        any_match(lines, pattern),
        !several_matches(lines, pattern),
    ensures
        !any_match(lines.remove(match_index(lines, pattern)), pattern),
{
    let i = match_index(lines, pattern);
    let rest = lines.remove(i);
    assert forall|k: int| 0 <= k < rest.len() implies !#[trigger] regex_is_match(pattern, rest[k]) by {
        if k < i {
            assert(rest[k] == lines[k]);
            assert(!(regex_is_match(pattern, lines[k]) && regex_is_match(pattern, lines[i])));
        } else {
            assert(rest[k] == lines[k + 1]);
            assert(!(regex_is_match(pattern, lines[i]) && regex_is_match(pattern, lines[k + 1])));
        }
    }
}

/// A matching line inserted where nothing matched is then the one match.
proof fn lemma_insert_into_no_match(lines: Seq<Seq<char>>, pattern: Seq<char>, at: int, line: Seq<char>)
    requires
        !any_match(lines, pattern),
        regex_is_match(pattern, line),
        0 <= at <= lines.len(),
    ensures
        any_match(lines.insert(at, line), pattern),
        !several_matches(lines.insert(at, line), pattern),
        match_index(lines.insert(at, line), pattern) == at,
{
    let grown = lines.insert(at, line);
    assert forall|j: int| 0 <= j < grown.len() && j != at implies !#[trigger] regex_is_match(pattern, grown[j]) by {
        if j < at {
            assert(grown[j] == lines[j]);
        } else {
            assert(grown[j] == lines[j - 1]);
        }
    }
    lemma_unique_match(grown, pattern, at);
}

/// The one match, overwritten by another matching line, stays the one match.
proof fn lemma_update_only_match(lines: Seq<Seq<char>>, pattern: Seq<char>, line: Seq<char>)
    requires
        any_match(lines, pattern),
        !several_matches(lines, pattern),
        regex_is_match(pattern, line),
    ensures
        any_match(lines.update(match_index(lines, pattern), line), pattern),
        !several_matches(lines.update(match_index(lines, pattern), line), pattern),
        match_index(lines.update(match_index(lines, pattern), line), pattern) == match_index(lines, pattern),
{
    let i = match_index(lines, pattern);
    let changed = lines.update(i, line);
    assert forall|j: int| 0 <= j < changed.len() && j != i implies !#[trigger] regex_is_match(pattern, changed[j]) by {
        assert(changed[j] == lines[j]);
        if j < i {
            assert(!(regex_is_match(pattern, lines[j]) && regex_is_match(pattern, lines[i])));
        } else {
            assert(!(regex_is_match(pattern, lines[i]) && regex_is_match(pattern, lines[j])));
        }
    }
    lemma_unique_match(changed, pattern, i);
}

/// Once an absence edit has succeeded, a second one keeps the lines and
/// finds the value already absent.
pub proof fn lemma_absent_idempotent(lines: Seq<Seq<char>>, pattern: Seq<char>)
    ensures
        absent_outcome(lines, pattern).1 is Ok ==> absent_outcome(absent_outcome(lines, pattern).0, pattern)
            == (absent_outcome(lines, pattern).0, Ok::<AbsentStatus, LinesEditorError>(AbsentStatus::AlreadyAbsent)),
{
    if any_match(lines, pattern) && !several_matches(lines, pattern) {
        lemma_remove_only_match(lines, pattern);
    }
}

/// Once a presence edit has succeeded, a second one keeps the lines and
/// finds the value already present, provided that the value's pattern
/// matches the value's own line.
pub proof fn lemma_present_idempotent(
    lines: Seq<Seq<char>>,
    value_pattern: Seq<char>,
    value: String,
    placement: Placement,
)
    requires
        regex_is_match(value_pattern, value@),
    ensures
        present_outcome(lines, value_pattern, value, placement).1 is Ok ==> present_outcome(
            present_outcome(lines, value_pattern, value, placement).0,
            value_pattern,
            value,
            placement,
        ) == (present_outcome(lines, value_pattern, value, placement).0, Ok::<
            PresentStatus,
            LinesEditorError,
        >(PresentStatus::AlreadyPresent)),
{
    let (once, r) = present_outcome(lines, value_pattern, value, placement);
    if r is Ok && !any_match(lines, value_pattern) {
        let at = choose|at: int| 0 <= at <= lines.len() && once == lines.insert(at, value@);
        match placement {
            Placement::AtTop => {
                assert(once == lines.insert(0, value@));
            },
            Placement::AtEnd => {
                assert(once =~= lines.insert(lines.len() as int, value@));
            },
            Placement::RelativeTo { .. } => {},
        }
        lemma_insert_into_no_match(lines, value_pattern, at, value@);
    }
}

/// Once a line edit has succeeded on a value whose pattern matches the
/// value's own line, a second one keeps the lines and reports no change.
pub proof fn lemma_line_edit_idempotent(
    lines: Seq<Seq<char>>,
    value_pattern: Seq<char>,
    value: String,
    ensure: Ensure,
)
    requires
        regex_is_match(value_pattern, value@),
    ensures
        ({
            let (once, r) = line_edit_outcome(lines, value_pattern, value, ensure);
            let (twice, r2) = line_edit_outcome(once, value_pattern, value, ensure);
            r is Ok ==> twice == once && r2 is Ok && !r2->Ok_0.changes()
        }),
{
    match ensure {
        Ensure::Present { placement } => lemma_present_idempotent(lines, value_pattern, value, placement),
        Ensure::Absent => lemma_absent_idempotent(lines, value_pattern),
    }
}

/// Once a pair edit has succeeded on a pair whose line both the pair's
/// pattern and its key's pattern match, a second one keeps the lines and
/// reports no change.
pub proof fn lemma_pair_edit_idempotent(
    lines: Seq<Seq<char>>,
    pair_pattern: Seq<char>,
    key_pattern: Seq<char>,
    pair: String,
    ensure: Ensure,
)
    requires
        regex_is_match(pair_pattern, pair@),
        regex_is_match(key_pattern, pair@),
    ensures
        ({
            let (once, r) = pair_edit_outcome(lines, pair_pattern, key_pattern, pair, ensure);
            let (twice, r2) = pair_edit_outcome(once, pair_pattern, key_pattern, pair, ensure);
            r is Ok ==> twice == once && r2 is Ok && !r2->Ok_0.changes()
        }),
{
    match ensure {
        Ensure::Present { placement } => {
            let (once, r) = pair_edit_outcome(lines, pair_pattern, key_pattern, pair, ensure);
            if any_match(lines, key_pattern) {
                if !several_matches(lines, key_pattern) {
                    lemma_update_only_match(lines, key_pattern, pair@);
                }
            } else if !any_match(lines, pair_pattern) && r is Ok {
                let at = choose|at: int| 0 <= at <= lines.len() && once == lines.insert(at, pair@);
                match placement {
                    Placement::AtTop => {
                        assert(once == lines.insert(0, pair@));
                    },
                    Placement::AtEnd => {
                        assert(once =~= lines.insert(lines.len() as int, pair@));
                    },
                    Placement::RelativeTo { .. } => {},
                }
                lemma_insert_into_no_match(lines, key_pattern, at, pair@);
                assert(once[at] == pair@);
            }
        },
        Ensure::Absent => lemma_absent_idempotent(lines, pair_pattern),
    }
}

/// `LinesEditor::edit_line` is idempotent: once it has succeeded, a second
/// call with the same arguments keeps the lines and reports no change. This
/// holds wherever the pattern built for the value matches the value's own
/// line.
pub proof fn lemma_edit_line_idempotent(
    lines: Seq<Seq<char>>,
    value: String,
    ignore_whitespace: bool,
    ensure: Ensure,
)
    requires
        regex_is_match(line_pattern_source(value@, ignore_whitespace), value@),
    ensures
        ({
            let (once, r) = edit_line_outcome(lines, value, ignore_whitespace, ensure);
            let (twice, r2) = edit_line_outcome(once, value, ignore_whitespace, ensure);
            r is Ok ==> twice == once && r2 is Ok && !r2->Ok_0.changes()
        }),
{
    lemma_line_edit_idempotent(lines, line_pattern_source(value@, ignore_whitespace), value, ensure);
}

/// The patterns built for `pair` both match the pair's own line: the whole
/// pair's pattern and its key's pattern.
pub open spec fn pair_recognised(
    pair: Seq<char>,
    multikey: bool,
    ignore_whitespace: bool,
    separator: Seq<char>,
) -> bool {
    let pieces = regex_split_pieces(separator, pair);
    pieces.len() == 2 ==> {
        &&& regex_is_match(pair_pattern_source(pieces[0], separator, pieces[1], ignore_whitespace), pair)
        &&& regex_is_match(key_pattern_of(pieces[0], separator, pieces[1], multikey, ignore_whitespace), pair)
    }
}

/// `LinesEditor::edit_pair` is idempotent: once it has succeeded, a second
/// call with the same arguments keeps the lines and reports no change. This
/// holds wherever the patterns built for the pair match the pair's own line.
pub proof fn lemma_edit_pair_idempotent(
    lines: Seq<Seq<char>>,
    pair: String,
    multikey: bool,
    ignore_whitespace: bool,
    separator: Seq<char>,
    ensure: Ensure,
)
    requires
        pair_recognised(pair@, multikey, ignore_whitespace, separator),
    ensures
        ({
            let (once, r) = edit_pair_outcome(lines, pair, multikey, ignore_whitespace, separator, ensure);
            let (twice, r2) = edit_pair_outcome(once, pair, multikey, ignore_whitespace, separator, ensure);
            r is Ok ==> twice == once && r2 is Ok && !r2->Ok_0.changes()
        }),
{
    let pieces = regex_split_pieces(separator, pair@);
    if pieces.len() == 2 {
        lemma_pair_edit_idempotent(
            lines,
            pair_pattern_source(pieces[0], separator, pieces[1], ignore_whitespace),
            key_pattern_of(pieces[0], separator, pieces[1], multikey, ignore_whitespace),
            pair,
            ensure,
        );
    }
}

} // verus!
