//! Compiled regular expressions, which remember the text they were compiled from.
use vstd::prelude::*;

verus! {

/// The outside regular expression type; opaque to the proofs.
#[verifier::external_type_specification]
#[verifier::external_body]
pub struct ExRegex(regex::Regex);

/// The outside compilation error; opaque to the proofs.
#[verifier::external_type_specification]
#[verifier::external_body]
pub struct ExRegexError(regex::Error);

/// Whether `Regex::new` accepts a pattern text.
pub uninterp spec fn regex_accepts(pattern: Seq<char>) -> bool;

/// What `Regex::replace_all` gives for a pattern text, a haystack and a replacement.
pub uninterp spec fn regex_replaced(pattern: Seq<char>, haystack: Seq<char>, replacement: Seq<char>) -> Seq<char>;

/// A regular expression together with the text it was compiled from.
pub struct Pattern {
    source: String,
    compiled: regex::Regex,
}

impl View for Pattern {
    type V = Seq<char>;

    /// The text the expression was compiled from.
    closed spec fn view(&self) -> Seq<char> {
        self.source@
    }
}

/// Compiles `source`.
/// Trusted: `Regex::new` succeeds exactly on the texts named by `regex_accepts`
/// (a function of the text alone), and the pattern keeps the text it came from.
#[verifier::external_body]
pub(crate) fn compile(source: &String) -> (r: Result<Pattern, regex::Error>)
    ensures
        r is Ok <==> regex_accepts(source@),
        r matches Ok(p) ==> p@ == source@,
{
    match regex::Regex::new(source) {
        Ok(compiled) => Ok(Pattern { source: source.clone(), compiled }),
        Err(e) => Err(e),
    }
}

/// The message of a compilation error.
/// Trusted: `regex::Error`'s `Display` writes the message; nothing is stated of its
/// text, which the error value alone determines and which is opaque here.
#[verifier::external_body]
pub(crate) fn error_text(e: &regex::Error) -> String {
    e.to_string()
}

/// Replaces every non-overlapping match of `pattern` in `haystack` by `replacement`.
/// Trusted: the result of `Regex::replace_all` is a function of the pattern text,
/// the haystack and the replacement, named by `regex_replaced`.
#[verifier::external_body]
pub(crate) fn replace_all(pattern: &Pattern, haystack: &str, replacement: &str) -> (r: String)
    ensures
        r@ == regex_replaced(pattern@, haystack@, replacement@),
{
    pattern.compiled.replace_all(haystack, replacement).into_owned()
}

} // verus!
