//! Search patterns: regular expressions, compiled and applied by grep.

use crate::error::ErrorKind;
use grep::matcher::Matcher;
use grep::regex::Error as CompileError;
use grep::regex::RegexMatcher;
use grep::searcher::sinks::Lossy;
use grep::searcher::{BinaryDetection, SearcherBuilder};
use vstd::prelude::*;

verus! {

/// grep's `RegexMatcher`, a compiled regular expression. It is carried
/// through; nothing inside it is looked at.
#[verifier::external_type_specification]
#[verifier::external_body]
pub struct ExRegexMatcher(RegexMatcher);

/// grep's `regex::Error`, the failure of a pattern to compile. Only its
/// message is taken from it.
#[verifier::external_type_specification]
#[verifier::external_body]
pub struct ExCompileError(CompileError);

/// `std::io::Error`, the failure of a search through a content. Only its
/// message is taken from it.
#[verifier::external_type_specification]
#[verifier::external_body]
pub struct ExIoError(std::io::Error);

/// The pattern that a matcher was made with.
pub uninterp spec fn matcher_pattern(matcher: RegexMatcher) -> Seq<char>;

/// Whether a pattern is a regular expression that compiles.
pub uninterp spec fn pattern_compiles(pattern: Seq<char>) -> bool;

/// Whether a pattern matches somewhere in a text given as bytes.
pub uninterp spec fn pattern_matches(pattern: Seq<char>, haystack: Seq<u8>) -> bool;

/// The lines of a content in which a pattern matches, in their order, each
/// with its line end where it has one; or `None` where the content could
/// not be read through.
pub uninterp spec fn matched_lines(pattern: Seq<char>, content: Seq<u8>) -> Option<Seq<Seq<char>>>;

/// Calls `RegexMatcher::new` of grep.
///
/// Trusted: whether a pattern compiles depends on its text alone, and the
/// matcher stands for the pattern it was made from.
#[verifier::external_body]
fn compile(pattern: &str) -> (compiled: Result<RegexMatcher, CompileError>)
    ensures
        compiled.is_ok() == pattern_compiles(pattern@),
        compiled matches Ok(matcher) ==> matcher_pattern(matcher) == pattern@,
{
    RegexMatcher::new(pattern)
}

/// Calls `Matcher::is_match` of grep on a `RegexMatcher`.
///
/// Trusted: the answer depends on the pattern and the bytes alone. The
/// error type of this matcher has no values, so the call always answers.
#[verifier::external_body]
fn is_match(matcher: &RegexMatcher, haystack: &[u8]) -> (found: bool)
    ensures
        found == pattern_matches(matcher_pattern(*matcher), haystack@),
{
    match matcher.is_match(haystack) {
        Ok(found) => found,
        Err(_) => false,
    }
}

/// Calls `Searcher::search_reader` of grep on a content held in memory,
/// with the searcher stopping at a zero byte, and collects each matching
/// line as text, bytes that are no text replaced.
///
/// Trusted: the lines depend on the pattern and the content alone, and so
/// does whether the call fails.
#[verifier::external_body]
fn matching_lines(matcher: &RegexMatcher, content: &[u8]) -> (lines: Result<
    Vec<String>,
    std::io::Error,
>)
    ensures
        match lines {
            Ok(found) => matched_lines(matcher_pattern(*matcher), content@) == Some(
                found.deep_view(),
            ),
            Err(_) => matched_lines(matcher_pattern(*matcher), content@).is_none(),
        },
{
    let mut found = Vec::new();
    let mut searcher = SearcherBuilder::new().binary_detection(
        BinaryDetection::quit(b'\x00'),
    ).build();
    let collect = Lossy(
        |_, line| {
            found.push(line.to_string());
            Ok(true)
        },
    );
    searcher.search_reader(matcher, content, collect)?;
    Ok(found)
}

/// A compiled search pattern.
#[derive(Debug)]
pub struct Pattern {
    matcher: RegexMatcher,
}

impl Pattern {
    /// The text of the pattern.
    pub closed spec fn text(&self) -> Seq<char> {
        matcher_pattern(self.matcher)
    }

    /// Compiles a pattern. Fails with `Error::GrepRegex` exactly when the
    /// text is no regular expression that compiles.
    pub fn new(text: &str) -> (pattern: Result<Pattern, crate::error::Error>)
        ensures
            match pattern {
                Ok(compiled) => pattern_compiles(text@) && compiled.text() == text@,
                Err(error) => !pattern_compiles(text@) && error.kind() == ErrorKind::GrepRegex,
            },
    {
        match compile(text) {
            Ok(matcher) => Ok(Pattern { matcher }),
            Err(error) => Err(crate::error::Error::GrepRegex(error.to_string())),
        }
    }

    /// Whether the pattern matches somewhere in the bytes.
    pub fn is_match(&self, haystack: &[u8]) -> (found: bool)
        ensures
            found == pattern_matches(self.text(), haystack@),
    {
        is_match(&self.matcher, haystack)
    }

    /// The lines of a content in which the pattern matches. Fails with
    /// `Error::Io` exactly when the content could not be read through.
    pub fn lines(&self, content: &[u8]) -> (lines: Result<Vec<String>, crate::error::Error>)
        ensures
            match lines {
                Ok(found) => matched_lines(self.text(), content@) == Some(found.deep_view()),
                Err(error) => matched_lines(self.text(), content@).is_none() && error.kind()
                    == ErrorKind::Io,
            },
    {
        match matching_lines(&self.matcher, content) {
            Ok(found) => Ok(found),
            Err(error) => Err(crate::error::Error::Io(error.to_string())),
        }
    }
}

} // verus!
