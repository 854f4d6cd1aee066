//! Regular expressions, through the `regex` crate.
//!
//! A [`CompiledRegex`] pairs a pattern text with the regex compiled from it.
//! Its fields are private to this module, and the only place that builds one
//! is [`compile_regex`], so the compiled regex of every value is the one that
//! `regex::Regex::new` gave for its pattern text. The results of matching are
//! named by spec functions of the pattern text and the haystack alone.

use vstd::prelude::*;

verus! {

#[verifier::external_type_specification]
#[verifier::external_body]
pub struct ExRegex(regex::Regex);

/// Whether `regex::Regex::new` accepts the pattern.
pub uninterp spec fn regex_compiles(pattern: Seq<char>) -> bool;

/// The text of the error that `regex::Regex::new` gives for a pattern it
/// refuses.
pub uninterp spec fn regex_error_text(pattern: Seq<char>) -> Seq<char>;

/// How many non-overlapping matches `Regex::find_iter` yields in a haystack.
pub uninterp spec fn regex_match_count(pattern: Seq<char>, haystack: Seq<char>) -> nat;

/// Whether `Regex::is_match` finds a match in a haystack.
pub uninterp spec fn regex_is_match(pattern: Seq<char>, haystack: Seq<char>) -> bool;

/// The capture groups of the first match that `Regex::captures` finds in a
/// haystack (group 0 first; `None` for a group that did not take part), or
/// `None` where there is no match.
pub uninterp spec fn regex_captures(pattern: Seq<char>, haystack: Seq<char>) -> Option<
    Seq<Option<Seq<char>>>,
>;

/// A regular expression together with the pattern text it was compiled from.
pub struct CompiledRegex {
    source: String,
    regex: regex::Regex,
}

impl View for CompiledRegex {
    type V = Seq<char>;

    /// The pattern text.
    closed spec fn view(&self) -> Seq<char> {
        self.source@
    }
}

impl CompiledRegex {
    /// The pattern text.
    pub fn pattern_text(&self) -> (s: &str)
        ensures
            s@ == self@,
    {
        self.source.as_str()
    }
}

/// Calls `regex::Regex::new`. Claims: it succeeds exactly on the patterns that
/// `regex_compiles` holds of, the value it gives carries the pattern text, and
/// the error text is a function of the pattern (`regex_error_text`).
#[verifier::external_body]
pub(crate) fn compile_regex(pattern: &str) -> (r: Result<CompiledRegex, String>)
    ensures
        r is Ok <==> regex_compiles(pattern@),
        r matches Ok(c) ==> c@ == pattern@,
        r matches Err(m) ==> m@ == regex_error_text(pattern@),
{
    match regex::Regex::new(pattern) {
        Ok(regex) => Ok(CompiledRegex { source: pattern.to_string(), regex }),
        Err(e) => Err(e.to_string()),
    }
}

/// Calls `Regex::find_iter` and counts what it yields. Claims: the count is
/// `regex_match_count` of the pattern text and the haystack.
#[verifier::external_body]
pub(crate) fn count_matches(re: &CompiledRegex, haystack: &str) -> (n: usize)
    ensures
        n == regex_match_count(re@, haystack@),
{
    re.regex.find_iter(haystack).count()
}

/// Calls `Regex::is_match`. Claims: the answer is `regex_is_match` of the
/// pattern text and the haystack.
#[verifier::external_body]
pub(crate) fn is_match(re: &CompiledRegex, haystack: &str) -> (b: bool)
    ensures
        b == regex_is_match(re@, haystack@),
{
    re.regex.is_match(haystack)
}

/// Calls `Regex::captures` and copies out the text of each group. Claims: the
/// groups are `regex_captures` of the pattern text and the haystack.
#[verifier::external_body]
pub(crate) fn first_captures(re: &CompiledRegex, haystack: &str) -> (r: Option<Vec<Option<String>>>)
    ensures
        r.deep_view() == regex_captures(re@, haystack@),
{
    match re.regex.captures(haystack) {
        Some(caps) => Some(caps.iter().map(|m| m.map(|m| m.as_str().to_string())).collect()),
        None => None,
    }
}

/// The characters that `regex::escape` puts a backslash in front of
/// (`regex_syntax::is_meta_character`).
pub open spec fn is_meta_character(c: char) -> bool {
    c == '\\' || c == '.' || c == '+' || c == '*' || c == '?' || c == '(' || c == ')' || c == '|'
        || c == '[' || c == ']' || c == '{' || c == '}' || c == '^' || c == '$' || c == '#'
        || c == '&' || c == '-' || c == '~'
}

/// `text` with a backslash before each meta character, so that a regex built
/// from it matches the text literally.
pub open spec fn escaped(text: Seq<char>) -> Seq<char>
    decreases text.len(),
{
    if text.len() == 0 {
        Seq::empty()
    } else {
        let head = if is_meta_character(text[0]) {
            seq!['\\', text[0]]
        } else {
            seq![text[0]]
        };
        head + escaped(text.drop_first())
    }
}

/// Calls `regex::escape`. Claims what its source (`regex_syntax::escape_into`)
/// does: each character in order, with a backslash before each meta
/// character.
#[verifier::external_body]
pub(crate) fn regex_escape(text: &str) -> (r: String)
    ensures
        r@ == escaped(text@),
{
    regex::escape(text)
}

} // verus!
