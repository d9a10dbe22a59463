//! A compiled "from" pattern, and the trusted view of the `regex` crate.

use vstd::prelude::*;

verus! {

/// Whether the regex compiler accepts a pattern text.
///
/// `regex::Regex::new` is deterministic in the pattern text alone, so its
/// success or failure is a function of that text.
pub uninterp spec fn regex_ok(pat: Seq<char>) -> bool;

/// The text obtained by replacing the leftmost match of the pattern `pat`
/// in `text` with the replacement template `template`, capture-group
/// references in the template expanded; `text` unchanged when nothing
/// matches.  The exact result is the `regex` crate's replacement semantics,
/// which this library does not restate; it depends on the three texts
/// alone.
pub uninterp spec fn rewritten(pat: Seq<char>, text: Seq<char>, template: Seq<char>) -> Seq<char>;

#[verifier::external_type_specification]
#[verifier::external_body]
pub struct ExRegex(regex::Regex);

#[verifier::external_type_specification]
#[verifier::external_body]
pub struct ExRegexError(regex::Error);

/// Relies on `regex::Regex::new`: whether a pattern compiles depends on
/// the pattern text alone.
#[verifier::external_body]
fn regex_new(pat: &str) -> (r: Result<regex::Regex, regex::Error>)
    ensures
        r is Ok <==> regex_ok(pat@),
{
    regex::Regex::new(pat)
}

/// A regular expression together with the text it was compiled from.
pub struct Pattern {
    re: regex::Regex,
    src: String,
}

impl View for Pattern {
    type V = Seq<char>;

    /// A pattern is, to the contracts, the text it was compiled from.
    closed spec fn view(&self) -> Seq<char> {
        self.src@
    }
}

impl Pattern {
    /// Compile a pattern text, or hand back the compiler's error.
    pub fn compile(pat: &str) -> (r: Result<Pattern, regex::Error>)
        ensures
            r is Ok <==> regex_ok(pat@),
            r matches Ok(p) ==> p@ == pat@,
    {
        match regex_new(pat) {
            Ok(re) => Ok(Pattern { re, src: pat.to_owned() }),
            Err(e) => Err(e),
        }
    }

    /// Relies on `regex::Regex::replace`: replacing the leftmost match
    /// depends only on the pattern, the haystack and the template.  Trusts
    /// that `re` is the regex compiled from `src`, which holds because a
    /// `Pattern` is built by `compile` alone.
    #[verifier::external_body]
    pub(crate) fn replace_first(&self, text: &str, template: &str) -> (r: String)
        ensures
            r@ == rewritten(self@, text@, template@),
    {
        self.re.replace(text, template).into_owned()
    }
}

} // verus!
