//! The optional title filter: a regular-expression pattern applied to
//! submission titles after a fetch.
//!
//! The matcher itself comes from the `regex` crate. Its behaviour is named,
//! not restated: `regex_valid` says whether a pattern compiles, and
//! `regex_matches` says whether the compiled pattern matches a text; both are
//! functions of the strings alone.

use vstd::prelude::*;

use crate::error::WatcherError;

verus! {

/// Whether `regex::Regex::new` accepts `pattern` (under its default
/// configuration, acceptance depends on the pattern alone).
pub uninterp spec fn regex_valid(pattern: Seq<char>) -> bool;

/// Whether the expression compiled from `pattern` matches anywhere in `text`
/// (matching is a function of the two strings alone).
pub uninterp spec fn regex_matches(pattern: Seq<char>, text: Seq<char>) -> bool;

/// Relies on `regex::Regex::new` and `regex::Regex::is_match`: compilation
/// succeeds or fails on the pattern alone, and a compiled expression matches a
/// haystack as a deterministic function of pattern and haystack; neither call
/// panics. Returns `None` exactly when the pattern does not compile.
#[verifier::external_body]
fn regex_match_str(pattern: &str, text: &str) -> (r: Option<bool>)
    ensures
        r is Some <==> regex_valid(pattern@),
        r matches Some(b) ==> b == regex_matches(pattern@, text@),
{
    regex::Regex::new(pattern).ok().map(|re| re.is_match(text))
}

/// A title pattern that is known to compile: the value exists only for
/// patterns on which `regex_valid` holds, so matching through it cannot fail.
#[derive(Debug)]
pub struct TitleFilter {
    pattern: String,
}

impl Clone for TitleFilter {
    fn clone(&self) -> (r: Self)
        ensures
            r == *self,
    {
        proof {
            use_type_invariant(self);
        }
        TitleFilter { pattern: self.pattern.clone() }
    }
}

impl View for TitleFilter {
    type V = Seq<char>;

    /// A filter is, mathematically, its pattern.
    closed spec fn view(&self) -> Seq<char> {
        self.pattern@
    }
}

impl TitleFilter {
    #[verifier::type_invariant]
    spec fn wf(self) -> bool {
        regex_valid(self.pattern@)
    }

    /// Accepts exactly the patterns that the matcher compiles; anything else
    /// is a configuration error, reported before any fetch is issued.
    pub fn new(pattern: String) -> (r: Result<TitleFilter, WatcherError>)
        ensures
            r is Ok <==> regex_valid(pattern@),
            r matches Ok(f) ==> f@ == pattern@,
            r matches Err(e) ==> e == WatcherError::ConfigurationError,
    {
        match regex_match_str(pattern.as_str(), "") {
            Some(_) => Ok(TitleFilter { pattern }),
            None => Err(WatcherError::ConfigurationError),
        }
    }

    /// The pattern this filter was built from.
    pub fn pattern(&self) -> (r: &String)
        ensures
            r@ == self@,
    {
        &self.pattern
    }

    /// Whether the filter accepts `text`.
    pub fn is_match(&self, text: &String) -> (r: bool)
        ensures
            r == regex_matches(self@, text@),
    {
        proof {
            use_type_invariant(self);
        }
        match regex_match_str(self.pattern.as_str(), text.as_str()) {
            Some(b) => b,
            // unreachable: the type invariant says the pattern compiles
            None => false,
        }
    }
}

/// What the title filter lets through: with no filter installed every title
/// passes; with one installed, exactly the matching titles pass.
pub open spec fn title_passes(filter: Option<TitleFilter>, title: Seq<char>) -> bool {
    match filter {
        None => true,
        Some(f) => regex_matches(f@, title),
    }
}

} // verus!
