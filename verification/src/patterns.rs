//! Filtering of variable names by glob-style patterns.
//!
//! Pattern validation and matching are performed by the `glob` crate; the
//! filtering rule itself — an empty keep-set means "match everything",
//! and a drop-pattern match always wins — is verified here.
use vstd::prelude::*;

verus! {

/// Whether `glob::Pattern::new` accepts the given pattern text.
pub uninterp spec fn is_valid_pattern(p: Seq<char>) -> bool;

/// Whether the pattern written as `p` matches `name`, in the sense of
/// `glob::Pattern::matches` with the default match options; false when `p`
/// is not a well-formed pattern.
pub uninterp spec fn glob_match(p: Seq<char>, name: Seq<char>) -> bool;

/// Relies on glob::Pattern::new: whether a pattern text is well-formed is
/// a pure function of the text alone.
#[verifier::external_body]
fn pattern_is_valid(text: &str) -> (r: bool)
    ensures
        r == is_valid_pattern(text@),
{
    glob::Pattern::new(text).is_ok()
}

/// Relies on glob::Pattern::new and glob::Pattern::matches: whether the
/// pattern written as `p` matches `name` is a pure function of the two
/// texts, with the default match options; an ill-formed pattern matches
/// nothing.
#[verifier::external_body]
fn glob_match_impl(p: &str, name: &str) -> (r: bool)
    ensures
        r == glob_match(p@, name@),
{
    match glob::Pattern::new(p) {
        Ok(pat) => pat.matches(name),
        Err(_) => false,
    }
}

/// A validated glob pattern, kept as its source text.
pub struct CompiledPattern {
    pub source: String,
}

impl CompiledPattern {
    /// Validates a pattern text; `None` exactly on ill-formed patterns.
    pub fn compile(text: &str) -> (r: Option<CompiledPattern>)
        ensures
            r is Some <==> is_valid_pattern(text@),
            match r {
                Some(p) => p.source@ == text@,
                None => true,
            },
    {
        if pattern_is_valid(text) {
            Some(CompiledPattern { source: text.to_owned() })
        } else {
            None
        }
    }

    /// Whether this pattern matches the name.
    pub fn matches(&self, name: &str) -> (r: bool)
        ensures
            r == glob_match(self.source@, name@),
    {
        glob_match_impl(self.source.as_str(), name)
    }
}

/// The source texts of a list of patterns.
pub open spec fn pattern_sources(ps: Seq<CompiledPattern>) -> Seq<Seq<char>> {
    ps.map_values(|p: CompiledPattern| p.source@)
}

/// Whether a variable named `k` survives filtering: some keep-pattern
/// matches it (or there are no keep-patterns), and no drop-pattern does.
pub open spec fn spec_kept(k: Seq<char>, incl_pats: Seq<Seq<char>>, excl_pats: Seq<Seq<char>>) -> bool {
    (incl_pats.len() == 0 || exists|i: int|
        0 <= i < incl_pats.len() && glob_match(incl_pats[i], k)) && !(exists|i: int|
        0 <= i < excl_pats.len() && glob_match(excl_pats[i], k))
}

/// Whether any pattern in the list matches the name.
pub fn any_matches(ps: &Vec<CompiledPattern>, name: &str) -> (r: bool)
    ensures
        r == exists|i: int| 0 <= i < ps@.len() && glob_match(pattern_sources(ps@)[i], name@),
{
    let n = ps.len();
    let mut i: usize = 0;
    while i < n
        invariant
            n == ps@.len(),
            i <= n,
            forall|j: int| 0 <= j < i ==> !glob_match(pattern_sources(ps@)[j], name@),
        decreases n - i,
    {
        if ps[i].matches(name) {
            assert(glob_match(pattern_sources(ps@)[i as int], name@));
            return true;
        }
        i += 1;
    }
    false
}

/// Whether a variable named `name` survives the filter.
pub fn kept(name: &str, incl: &Vec<CompiledPattern>, excl: &Vec<CompiledPattern>) -> (r: bool)
    ensures
        r == spec_kept(name@, pattern_sources(incl@), pattern_sources(excl@)),
{
    let inc = incl.len() == 0 || any_matches(incl, name);
    let exc = any_matches(excl, name);
    inc && !exc
}

} // verus!
