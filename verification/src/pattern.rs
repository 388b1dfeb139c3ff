//! Pattern compilation and line matching.
//!
//! The regular-expression engine is the `regex` crate. Its behaviour is a
//! pure function of the pattern text and the haystack, so the library names
//! the two outcomes it relies on — whether a pattern compiles, and whether a
//! line matches — and states the trusted wrappers' contracts over those names.

use vstd::prelude::*;

verus! {

/// Whether the regular-expression engine accepts `pattern` as well formed,
/// i.e. whether compiling it succeeds. Compilation of a given pattern text
/// either always succeeds or always fails.
pub uninterp spec fn regex_valid(pattern: Seq<char>) -> bool;

/// Whether a line matches a compiled pattern: true exactly when the pattern
/// matches somewhere inside `line` (match-anywhere semantics, unless the
/// pattern itself anchors). A pure function of the two texts.
pub uninterp spec fn regex_accepts(pattern: Seq<char>, line: Seq<char>) -> bool;

/// The `regex` crate's compiled matcher, carried opaquely.
#[verifier::external_type_specification]
#[verifier::external_body]
pub struct ExRegex(regex::Regex);

/// The pattern text could not be compiled.
#[derive(Debug)]
pub struct PatternError {
    pub message: String,
}

impl PatternError {
    /// A human-readable description of the compilation failure.
    pub fn message(&self) -> (r: &String)
        ensures
            r@ == self.message@,
    {
        &self.message
    }
}

/// A pattern compiled once at startup and then only queried.
pub struct CompiledPattern {
    re: regex::Regex,
    pattern: String,
}

impl CompiledPattern {
    /// The pattern text this matcher was compiled from.
    pub closed spec fn pattern_view(&self) -> Seq<char> {
        self.pattern@
    }

    /// Relies on `regex::Regex::new`: it succeeds exactly on well-formed
    /// pattern texts, and the success is a function of the pattern alone.
    /// The compiled matcher is stored beside the text it came from.
    #[verifier::external_body]
    pub fn compile(pattern: &str) -> (r: Result<CompiledPattern, PatternError>)
        ensures
            r is Ok <==> regex_valid(pattern@),
            r matches Ok(p) ==> p.pattern_view() == pattern@,
    {
        match regex::Regex::new(pattern) {
            Ok(re) => Ok(CompiledPattern { re, pattern: pattern.to_string() }),
            Err(e) => Err(PatternError { message: e.to_string() }),
        }
    }

    /// The pattern text, as it was handed to `compile`.
    pub fn pattern(&self) -> (r: &String)
        ensures
            r@ == self.pattern_view(),
    {
        &self.pattern
    }

    /// Relies on `regex::Regex::is_match`: the result is a function of the
    /// compiled pattern text and the haystack alone, true exactly when the
    /// pattern matches somewhere inside the haystack.
    #[verifier::external_body]
    pub fn is_match(&self, line: &str) -> (r: bool)
        ensures
            r == regex_accepts(self.pattern_view(), line@),
    {
        self.re.is_match(line)
    }
}

} // verus!
