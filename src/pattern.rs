//! Compiled line patterns, backed by the `regex` crate.

use crate::lines_editor::LinesEditorError;
use regex::Regex;
use vstd::prelude::*;

verus! {

#[verifier::external_type_specification]
#[verifier::external_body]
pub struct ExRegex(regex::Regex);

#[verifier::external_type_specification]
#[verifier::external_body]
pub struct ExRegexError(regex::Error);

/// Whether `regex::Regex::new` accepts the expression `expr`.
pub uninterp spec fn regex_compiles(expr: Seq<char>) -> bool;

/// Whether the expression `expr` matches anywhere in `haystack`.
pub uninterp spec fn regex_is_match(expr: Seq<char>, haystack: Seq<char>) -> bool;

/// The pieces of `haystack` around the first match of `expr`: the part before
/// it and the rest after it, or `haystack` alone when nothing matches.
pub uninterp spec fn regex_split_pieces(expr: Seq<char>, haystack: Seq<char>) -> Seq<Seq<char>>;

/// The characters that have a meaning of their own in a regular expression.
pub open spec fn is_meta_character(c: char) -> bool {
    c == '\\' || c == '.' || c == '+' || c == '*' || c == '?' || c == '(' || c == ')'
        || c == '|' || c == '[' || c == ']' || c == '{' || c == '}' || c == '^' || c == '$'
        || c == '#' || c == '&' || c == '-' || c == '~'
}

/// `text` with a backslash put in front of every metacharacter, so that it
/// stands for itself inside a regular expression.
pub open spec fn escaped(text: Seq<char>) -> Seq<char>
    decreases text.len(),
{
    if text.len() == 0 {
        Seq::empty()
    } else {
        let c = text.last();
        if is_meta_character(c) {
            escaped(text.drop_last()) + seq!['\\', c]
        } else {
            escaped(text.drop_last()).push(c)
        }
    }
}

/// Relies on `regex::escape` (which is `regex_syntax::escape`): it puts a
/// backslash in front of each character for which
/// `regex_syntax::is_meta_character` holds, and keeps every other character.
#[verifier::external_body]
fn escape(text: &str) -> (r: String)
    ensures
        r@ == escaped(text@),
{
    regex::escape(text)
}

/// A regular expression together with the text it was compiled from.
///
/// Its view is that text; a value is only made by compiling its view, so the
/// two always agree.
#[derive(Debug)]
pub struct Pattern {
    source: String,
    regex: Regex,
}

impl View for Pattern {
    type V = Seq<char>;

    closed spec fn view(&self) -> Seq<char> {
        self.source@
    }
}

/// Relies on `regex::Regex::new`: whether it accepts `expr` depends on `expr`
/// alone, and what it accepts is kept beside the compiled expression.
#[verifier::external_body]
fn compile(expr: &str) -> (r: Result<Pattern, regex::Error>)
    ensures
        r is Ok == regex_compiles(expr@),
        r matches Ok(p) ==> p@ == expr@,
{
    match Regex::new(expr) {
        Ok(regex) => Ok(Pattern { source: expr.to_string(), regex }),
        Err(e) => Err(e),
    }
}

impl Pattern {
    /// Relies on `regex::Regex::is_match`: whether the expression this pattern
    /// was compiled from matches anywhere in `haystack`.
    #[verifier::external_body]
    pub(crate) fn is_match(&self, haystack: &str) -> (r: bool)
        ensures
            r == regex_is_match(self@, haystack@),
    {
        self.regex.is_match(haystack)
    }

    /// Relies on `regex::Regex::splitn` with a limit of two: the text before
    /// the first match and the text after it, each as an owned string.
    #[verifier::external_body]
    pub(crate) fn split_pieces(&self, haystack: &str) -> (r: Vec<String>)
        ensures
            r@.map_values(|s: String| s@) == regex_split_pieces(self@, haystack@),
    {
        self.regex.splitn(haystack, 2).map(|s| s.to_string()).collect()
    }

    /// Compiles `expr`; an expression that does not compile is an
    /// `InvalidPattern` error.
    pub fn new(expr: &str) -> (r: Result<Pattern, LinesEditorError>)
        ensures
            r is Ok == regex_compiles(expr@),
            r matches Ok(p) ==> p@ == expr@,
            r matches Err(e) ==> e == LinesEditorError::InvalidPattern,
    {
        match compile(expr) {
            Ok(p) => Ok(p),
            Err(_) => Err(LinesEditorError::InvalidPattern),
        }
    }

    /// The expression this pattern was compiled from.
    pub fn as_str(&self) -> (r: &str)
        ensures
            r@ == self@,
    {
        self.source.as_str()
    }
}

/// Start of an expression that matches a whole line: the line's start, and
/// any white space when it is ignored.
pub open spec fn line_start(ignore_whitespace: bool) -> Seq<char> {
    if ignore_whitespace {
        "^\\s*"@
    } else {
        "^"@
    }
}

/// End of an expression that matches a whole line: any white space when it
/// is ignored, and the line's end.
pub open spec fn line_end(ignore_whitespace: bool) -> Seq<char> {
    if ignore_whitespace {
        "\\s*$"@
    } else {
        "$"@
    }
}

/// The expression of a line that reads `value`.
pub open spec fn line_pattern_source(value: Seq<char>, ignore_whitespace: bool) -> Seq<char> {
    line_start(ignore_whitespace) + escaped(value) + line_end(ignore_whitespace)
}

/// The expression of a line that starts with `key` and then `separator`.
pub open spec fn key_pattern_source(key: Seq<char>, separator: Seq<char>, ignore_whitespace: bool) -> Seq<char> {
    line_start(ignore_whitespace) + escaped(key) + "(?:"@ + separator + ")"@
}

/// The expression of a line that reads `key`, then `separator`, then `value`.
pub open spec fn pair_pattern_source(
    key: Seq<char>,
    separator: Seq<char>,
    value: Seq<char>,
    ignore_whitespace: bool,
) -> Seq<char> {
    key_pattern_source(key, separator, ignore_whitespace) + escaped(value) + line_end(ignore_whitespace)
}

fn line_start_text(ignore_whitespace: bool) -> (r: &'static str)
    ensures
        r@ == line_start(ignore_whitespace),
{
    if ignore_whitespace {
        "^\\s*"
    } else {
        "^"
    }
}

fn line_end_text(ignore_whitespace: bool) -> (r: &'static str)
    ensures
        r@ == line_end(ignore_whitespace),
{
    if ignore_whitespace {
        "\\s*$"
    } else {
        "$"
    }
}

/// The expression of a line that reads `value`, with regular expression
/// metacharacters of `value` taken literally.
pub fn line_pattern(value: &str, ignore_whitespace: bool) -> (r: String)
    ensures
        r@ == line_pattern_source(value@, ignore_whitespace),
{
    let mut r = String::from_str(line_start_text(ignore_whitespace));
    let escaped_value = escape(value);
    r.append(escaped_value.as_str());
    r.append(line_end_text(ignore_whitespace));
    r
}

/// The expression of a line that starts with `key` and then a match of
/// `separator`.
pub fn key_pattern(key: &str, separator: &Pattern, ignore_whitespace: bool) -> (r: String)
    ensures
        r@ == key_pattern_source(key@, separator@, ignore_whitespace),
{
    let mut r = String::from_str(line_start_text(ignore_whitespace));
    let escaped_key = escape(key);
    r.append(escaped_key.as_str());
    r.append("(?:");
    r.append(separator.as_str());
    r.append(")");
    r
}

/// The expression of a line that reads `key`, then a match of `separator`,
/// then `value`.
pub fn pair_pattern(key: &str, separator: &Pattern, value: &str, ignore_whitespace: bool) -> (r: String)
    ensures
        r@ == pair_pattern_source(key@, separator@, value@, ignore_whitespace),
{
    let mut r = key_pattern(key, separator, ignore_whitespace);
    let escaped_value = escape(value);
    r.append(escaped_value.as_str());
    r.append(line_end_text(ignore_whitespace));
    r
}

} // verus!
