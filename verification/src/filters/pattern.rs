//! Compiled patterns: an optional cache of matchers that decide, for a
//! pattern, exactly what substring search decides.

use crate::text;
use vstd::hash_map::StringHashMap;
use vstd::prelude::*;

verus! {

/// `regex::Regex`, a compiled regular expression. Nothing of its inside is
/// known here; [`matched_texts`] names what it matches.
#[verifier::external_type_specification]
#[verifier::external_body]
pub struct ExRegex(regex::Regex);

/// The texts that a compiled regular expression matches: those for which
/// `Regex::is_match` returns true.
pub uninterp spec fn matched_texts(re: regex::Regex) -> Set<Seq<char>>;

/// Whether `c` has a meaning of its own in a regular expression.
pub open spec fn is_meta_character(c: char) -> bool {
    ||| c == '\\'
    ||| c == '.'
    ||| c == '+'
    ||| c == '*'
    ||| c == '?'
    ||| c == '('
    ||| c == ')'
    ||| c == '|'
    ||| c == '['
    ||| c == ']'
    ||| c == '{'
    ||| c == '}'
    ||| c == '^'
    ||| c == '$'
    ||| c == '#'
    ||| c == '&'
    ||| c == '-'
    ||| c == '~'
}

/// `pattern` with a backslash before each of its meta characters.
pub open spec fn escaped_pattern(pattern: Seq<char>) -> Seq<char>
    decreases pattern.len(),
{
    if pattern.len() == 0 {
        Seq::empty()
    } else if is_meta_character(pattern.last()) {
        escaped_pattern(pattern.drop_last()).push('\\').push(pattern.last())
    } else {
        escaped_pattern(pattern.drop_last()).push(pattern.last())
    }
}

/// What `Regex::new` makes of a source text: `None` where it refuses the
/// source, else the texts that the compiled expression matches.
pub uninterp spec fn regex_language(source: Seq<char>) -> Option<Set<Seq<char>>>;

/// Whether `texts` holds exactly the texts in which `pattern` occurs.
pub open spec fn is_literal_language(texts: Set<Seq<char>>, pattern: Seq<char>) -> bool {
    forall|t: Seq<char>| #[trigger] texts.contains(t) <==> text::contains(t, pattern)
}

/// Whether a matcher for `pattern` can be compiled.
pub open spec fn can_compile(pattern: Seq<char>) -> bool {
    regex_language(escaped_pattern(pattern)) is Some
}

/// Calls `regex::escape`, which copies the pattern and puts a backslash
/// before each meta character.
#[verifier::external_body]
fn escape_literal(pattern: &str) -> (source: String)
    ensures
        source@ == escaped_pattern(pattern@),
{
    regex::escape(pattern)
}

/// Calls `Regex::new`, which compiles `source` with the default options or
/// refuses it (a syntax error, or an expression over the size limit). The
/// outcome depends on the source text alone.
///
/// The crate documents that an escaped pattern can be used as a literal in a
/// regular expression, and that `Regex::is_match` looks for a match anywhere
/// in the text: an expression compiled from the escaped form of a pattern
/// matches exactly the texts in which the pattern occurs.
#[verifier::external_body]
fn compile_regex(source: &str) -> (compiled: Option<regex::Regex>)
    ensures
        match compiled {
            Some(re) => regex_language(source@) == Some(matched_texts(re)),
            None => regex_language(source@) is None,
        },
        forall|pattern: Seq<char>|
            compiled is Some && source@ == #[trigger] escaped_pattern(pattern)
                ==> is_literal_language(matched_texts(compiled->Some_0), pattern),
{
    regex::Regex::new(source).ok()
}

/// Calls `Regex::is_match`: whether the expression matches anywhere in
/// `haystack`.
#[verifier::external_body]
fn regex_is_match(re: &regex::Regex, haystack: &str) -> (found: bool)
    ensures
        found == matched_texts(*re).contains(haystack@),
{
    re.is_match(haystack)
}

/// Matchers compiled from patterns, keyed by the exact pattern text.
///
/// A cached matcher finds its pattern in exactly the texts that hold the
/// pattern as a substring, so a lookup through the cache and a plain
/// substring search always agree.
pub struct PatternCache {
    compiled: StringHashMap<regex::Regex>,
}

impl PatternCache {
    /// Every cached matcher matches exactly the texts that hold its pattern.
    pub closed spec fn wf(&self) -> bool {
        forall|p: Seq<char>| #[trigger]
            self.compiled@.contains_key(p) ==> is_literal_language(
                matched_texts(self.compiled@[p]),
                p,
            )
    }

    /// The patterns that have a cached matcher.
    pub closed spec fn patterns(&self) -> Set<Seq<char>> {
        self.compiled@.dom()
    }

    /// An empty cache.
    pub fn new() -> (cache: PatternCache)
        ensures
            cache.wf(),
            cache.patterns() == Set::<Seq<char>>::empty(),
    {
        PatternCache { compiled: StringHashMap::new() }
    }

    /// Whether `pattern` has a cached matcher.
    pub fn is_compiled(&self, pattern: &str) -> (b: bool)
        ensures
            b == self.patterns().contains(pattern@),
    {
        self.compiled.contains_key(pattern)
    }

    /// Compiles a matcher for `pattern` and caches it. Returns whether the
    /// pattern could be compiled; where it could not, nothing changes.
    pub fn compile(&mut self, pattern: &str) -> (cached: bool)
        requires
            old(self).wf(),
        ensures
            final(self).wf(),
            cached == can_compile(pattern@),
            final(self).patterns() == if cached {
                old(self).patterns().insert(pattern@)
            } else {
                old(self).patterns()
            },
    {
        let source = escape_literal(pattern);
        match compile_regex(source.as_str()) {
            Some(re) => {
                self.compiled.insert(pattern.to_string(), re);
                true
            },
            None => false,
        }
    }

    /// Whether `pattern` occurs in `url`: decided by the cached matcher where
    /// there is one, by substring search where there is none.
    pub fn occurs_in(&self, pattern: &str, url: &str, url_chars: &[char]) -> (found: bool)
        requires
            self.wf(),
            url_chars@ == url@,
        ensures
            found == text::contains(url@, pattern@),
    {
        match self.compiled.get(pattern) {
            Some(re) => regex_is_match(re, url),
            None => text::contains_str(url_chars, pattern),
        }
    }
}

} // verus!
