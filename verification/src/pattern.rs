//! Rewriting a text at the matches of a regular expression.
//!
//! The `regex` crate finds the matches; the text is put together again
//! here, match by match, so that a match whose replacement fails can stay
//! as it was.

use regex::Regex;
use vstd::prelude::*;

verus! {

#[verifier::external_type_specification]
#[verifier::external_body]
pub struct ExRegex(Regex);

/// Whether `regex` compiles the pattern.
pub uninterp spec fn pattern_compiles(pattern: Seq<char>) -> bool;

/// What `regex` yields as the pieces of `text` that lie between the matches
/// of a compiled `pattern`, first to last.
pub uninterp spec fn pattern_gaps(pattern: Seq<char>, text: Seq<char>) -> Seq<Seq<char>>;

/// What `regex` yields as the matches of a compiled `pattern` in `text`,
/// first to last. A match is the list of its groups: the whole match at
/// index 0, then each capture group, `None` for a group that took no part.
pub uninterp spec fn pattern_captures(pattern: Seq<char>, text: Seq<char>) -> Seq<
    Seq<Option<Seq<char>>>,
>;

/// A compiled regular expression, kept with the text it was compiled from.
pub struct Pattern {
    source: String,
    regex: Regex,
}

/// `Regex::new`, its error dropped. Trusted: whether a regex comes back is
/// what [`pattern_compiles`] names.
#[verifier::external_body]
fn compile_regex(pattern: &str) -> (r: Option<Regex>)
    ensures
        r.is_some() == pattern_compiles(pattern@),
{
    Regex::new(pattern).ok()
}

/// `Regex::split`, each piece copied into a `String`. Trusted: the result
/// is what [`pattern_gaps`] names for the text that the pattern was
/// compiled from; there is one piece more than there are matches; and the
/// pieces with the matches between them are the text.
#[verifier::external_body]
fn split_at_matches(pattern: &Pattern, text: &str) -> (r: Vec<String>)
    ensures
        r.deep_view() == pattern_gaps(pattern.source@, text@),
        r.len() == pattern_captures(pattern.source@, text@).len() + 1,
        weave(r.deep_view(), whole_texts(pattern_captures(pattern.source@, text@))) == text@,
{
    pattern.regex.split(text).map(|gap| gap.to_string()).collect()
}

/// `Regex::captures_iter`, each group of each match copied into a `String`.
/// Trusted: the result is what [`pattern_captures`] names for the text that
/// the pattern was compiled from.
#[verifier::external_body]
fn captures_of(pattern: &Pattern, text: &str) -> (r: Vec<Vec<Option<String>>>)
    ensures
        r.deep_view() == pattern_captures(pattern.source@, text@),
{
    pattern.regex.captures_iter(text).map(
        |found| found.iter().map(|group| group.map(|m| m.as_str().to_string())).collect(),
    ).collect()
}

impl Pattern {
    /// The text that the pattern was compiled from.
    pub closed spec fn source(&self) -> Seq<char> {
        self.source@
    }

    /// Compiles a pattern; `None` where it does not compile.
    pub fn compile(source: &str) -> (r: Option<Pattern>)
        ensures
            r.is_some() == pattern_compiles(source@),
            r matches Some(pattern) ==> pattern.source() == source@,
    {
        match compile_regex(source) {
            Some(regex) => Some(Pattern { source: String::from_str(source), regex }),
            None => None,
        }
    }

    /// The pieces of `text` between the matches, first to last: one more
    /// than there are matches, and with the matches between them they are
    /// the text.
    pub fn gaps(&self, text: &str) -> (r: Vec<String>)
        ensures
            r.deep_view() == pattern_gaps(self.source(), text@),
            r.len() == pattern_captures(self.source(), text@).len() + 1,
            weave(r.deep_view(), whole_texts(pattern_captures(self.source(), text@))) == text@,
    {
        split_at_matches(self, text)
    }

    /// The matches in `text`, first to last, each as the list of its groups.
    pub fn captures(&self, text: &str) -> (r: Vec<Vec<Option<String>>>)
        ensures
            r.deep_view() == pattern_captures(self.source(), text@),
    {
        captures_of(self, text)
    }
}

/// Group `index` of a match, where it took part.
pub open spec fn group_text(found: Seq<Option<Seq<char>>>, index: int) -> Option<Seq<char>> {
    if 0 <= index < found.len() {
        found[index]
    } else {
        None
    }
}

/// The whole text of a match: its group 0.
pub open spec fn whole_text(found: Seq<Option<Seq<char>>>) -> Seq<char> {
    match group_text(found, 0) {
        Some(text) => text,
        None => Seq::empty(),
    }
}

/// The whole text of each match.
pub open spec fn whole_texts(found: Seq<Seq<Option<Seq<char>>>>) -> Seq<Seq<char>> {
    Seq::new(found.len(), |i: int| whole_text(found[i]))
}

/// How many matches are rewritten when `gaps` and `fills` are woven: one
/// between each two gaps, as far as there are fills.
pub open spec fn woven_count(gaps: Seq<Seq<char>>, fills: Seq<Seq<char>>) -> int {
    if gaps.len() == 0 {
        0
    } else if fills.len() < gaps.len() - 1 {
        fills.len() as int
    } else {
        gaps.len() - 1
    }
}

/// The first `count` gaps, each followed by its fill.
pub open spec fn woven_prefix(gaps: Seq<Seq<char>>, fills: Seq<Seq<char>>, count: int) -> Seq<char>
    decreases count,
{
    if count <= 0 {
        Seq::empty()
    } else {
        woven_prefix(gaps, fills, count - 1) + gaps[count - 1] + fills[count - 1]
    }
}

/// The text `gaps[0] fills[0] gaps[1] fills[1] .. gaps[n]`: a text whose
/// matches were replaced by `fills`, the pieces between them kept.
pub open spec fn weave(gaps: Seq<Seq<char>>, fills: Seq<Seq<char>>) -> Seq<char> {
    if gaps.len() == 0 {
        Seq::empty()
    } else {
        let count = woven_count(gaps, fills);
        woven_prefix(gaps, fills, count) + gaps[count]
    }
}

/// Group `index` of a match, where it took part.
pub fn group<'a>(found: &'a Vec<Option<String>>, index: usize) -> (r: Option<&'a String>)
    ensures
        r.deep_view() == group_text(found.deep_view(), index as int),
{
    if index < found.len() {
        match &found[index] {
            Some(text) => Some(text),
            None => None,
        }
    } else {
        None
    }
}

/// The whole text of a match.
pub fn whole(found: &Vec<Option<String>>) -> (r: String)
    ensures
        r@ == whole_text(found.deep_view()),
{
    match group(found, 0) {
        Some(text) => text.clone(),
        None => String::new(),
    }
}

/// Puts a text together from the pieces between its matches and the
/// replacement of each match.
pub fn weave_texts(gaps: &Vec<String>, fills: &Vec<String>) -> (r: String)
    ensures
        r@ == weave(gaps.deep_view(), fills.deep_view()),
{
    let mut out = String::new();
    if gaps.len() == 0 {
        return out;
    }
    let count: usize = if fills.len() < gaps.len() - 1 {
        fills.len()
    } else {
        gaps.len() - 1
    };
    let mut i: usize = 0;
    while i < count
        invariant
            i <= count,
            count < gaps.len(),
            count <= fills.len(),
            out@ == woven_prefix(gaps.deep_view(), fills.deep_view(), i as int),
        decreases count - i,
    {
        out.append(gaps[i].as_str());
        out.append(fills[i].as_str());
        i = i + 1;
    }
    out.append(gaps[count].as_str());
    out
}

} // verus!
