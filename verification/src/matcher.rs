//! Selecting files by include and exclude glob patterns.
//!
//! The glob semantics are those of the `globset` crate, which the matcher
//! calls; what the library proves is how include and exclude lists combine.

use globset::Error as GlobError;
use globset::{Glob, GlobSet, GlobSetBuilder};
use vstd::prelude::*;

verus! {

#[verifier::external_type_specification]
#[verifier::external_body]
pub struct ExGlob(globset::Glob);

#[verifier::external_type_specification]
#[verifier::external_body]
pub struct ExGlobSetBuilder(globset::GlobSetBuilder);

#[verifier::external_type_specification]
#[verifier::external_body]
pub struct ExGlobSet(globset::GlobSet);

#[verifier::external_type_specification]
#[verifier::external_body]
pub struct ExGlobError(GlobError);

/// Whether `globset` accepts `pattern` as a glob with its default options (which
/// `globset` fixes per target platform: `\` escapes unless it separates paths).
pub uninterp spec fn glob_parses(pattern: Seq<char>) -> bool;

/// The pattern text a `Glob` was built from.
pub uninterp spec fn glob_source(glob: Glob) -> Seq<char>;

/// The pattern texts of the globs added to a `GlobSetBuilder`, in order.
pub uninterp spec fn builder_patterns(builder: GlobSetBuilder) -> Seq<Seq<char>>;

/// The pattern texts of the globs a `GlobSet` was built from, in order.
pub uninterp spec fn glob_set_patterns(set: GlobSet) -> Seq<Seq<char>>;

/// Whether `globset` can compile a set of the given (parsed) glob patterns.
pub uninterp spec fn glob_set_compiles(patterns: Seq<Seq<char>>) -> bool;

/// Whether the glob `pattern`, with `globset`'s default options, matches `path`
/// (`*` and `?` also match `/`; matching is case-sensitive).
pub uninterp spec fn glob_matches(pattern: Seq<char>, path: Seq<char>) -> bool;

/// Calls `globset::Glob::new`: the pattern is parsed with default options. The
/// contract claims that success depends on the pattern text alone and that the
/// glob remembers that text (`Glob::glob` gives it back). Which error comes
/// back on failure is left unsaid.
#[verifier::external_body]
fn new_glob(pattern: &str) -> (r: Result<Glob, GlobError>)
    ensures
        r is Ok <==> glob_parses(pattern@),
        r matches Ok(g) ==> glob_source(g) == pattern@,
{
    Glob::new(pattern)
}

/// Calls `globset::GlobSetBuilder::new`: the contract claims the builder holds
/// no glob.
#[verifier::external_body]
fn new_builder() -> (r: GlobSetBuilder)
    ensures
        builder_patterns(r) == Seq::<Seq<char>>::empty(),
{
    GlobSetBuilder::new()
}

/// Calls `globset::GlobSetBuilder::add`: the contract claims the glob is
/// appended to those the builder holds (the source pushes it on a `Vec`).
#[verifier::external_body]
fn builder_add(builder: &mut GlobSetBuilder, glob: Glob)
    ensures
        builder_patterns(*final(builder)) == builder_patterns(*old(builder)).push(
            glob_source(glob),
        ),
{
    builder.add(glob);
}

/// Calls `globset::GlobSetBuilder::build`: the contract claims that whether
/// the set compiles depends on the patterns alone, and that the set holds the
/// builder's globs in order. Which error comes back on failure is left unsaid.
#[verifier::external_body]
fn builder_build(builder: &GlobSetBuilder) -> (r: Result<GlobSet, GlobError>)
    ensures
        r is Ok <==> glob_set_compiles(builder_patterns(*builder)),
        r matches Ok(set) ==> glob_set_patterns(set) == builder_patterns(*builder),
{
    builder.build()
}

/// Calls `globset::GlobSet::is_match`: the contract claims, as its
/// documentation says, that the set matches a path exactly when one of its globs
/// does (an empty set matches nothing).
#[verifier::external_body]
fn set_is_match(set: &GlobSet, path: &str) -> (r: bool)
    ensures
        r == (exists|i: int|
            0 <= i < glob_set_patterns(*set).len() && glob_matches(
                #[trigger] glob_set_patterns(*set)[i],
                path@,
            )),
{
    set.is_match(path)
}

/// Some glob of `patterns` matches `path`.
pub open spec fn any_glob_matches(patterns: Seq<Seq<char>>, path: Seq<char>) -> bool {
    exists|i: int| 0 <= i < patterns.len() && glob_matches(#[trigger] patterns[i], path)
}

/// The texts of a list of strings.
pub open spec fn texts(strings: Seq<String>) -> Seq<Seq<char>> {
    strings.map_values(|s: String| s@)
}

/// Whether a glob set can be built from `patterns`: every pattern parses and
/// the set compiles. An empty list needs no set and always succeeds.
pub open spec fn patterns_build(patterns: Seq<Seq<char>>) -> bool {
    patterns.len() == 0 || ((forall|i: int| 0 <= i < patterns.len() ==> glob_parses(
        #[trigger] patterns[i],
    )) && glob_set_compiles(patterns))
}

/// The pattern list a matcher holds for a list: none for an empty list.
pub open spec fn optional_patterns(patterns: Seq<Seq<char>>) -> Option<Seq<Seq<char>>> {
    if patterns.len() == 0 {
        None
    } else {
        Some(patterns)
    }
}

/// Builds the glob set of `patterns`, or none when the list is empty.
fn build_set(patterns: &[String]) -> (r: Result<Option<GlobSet>, GlobError>)
    ensures
        r is Ok <==> patterns_build(texts(patterns@)),
        r matches Ok(set) ==> match set {
            Some(s) => optional_patterns(texts(patterns@)) == Some(glob_set_patterns(s)),
            None => optional_patterns(texts(patterns@)) is None,
        },
{
    let ghost all = texts(patterns@);
    if patterns.len() == 0 {
        return Ok(None);
    }
    let mut builder = new_builder();
    let mut i: usize = 0;
    while i < patterns.len()
        invariant
            all == texts(patterns@),
            0 <= i <= patterns@.len(),
            builder_patterns(builder) == all.take(i as int),
            forall|k: int| 0 <= k < i ==> glob_parses(#[trigger] all[k]),
        decreases patterns@.len() - i,
    {
        let glob = match new_glob(patterns[i].as_str()) {
            Ok(g) => g,
            Err(e) => {
                assert(!glob_parses(all[i as int]));
                return Err(e);
            },
        };
        builder_add(&mut builder, glob);
        assert(all.take(i + 1) =~= all.take(i as int).push(all[i as int]));
        i = i + 1;
    }
    assert(all.take(i as int) =~= all);
    match builder_build(&builder) {
        Ok(set) => Ok(Some(set)),
        Err(e) => Err(e),
    }
}

/// Selects files by glob patterns: a file is selected when no exclude pattern
/// matches it and, if there are include patterns, one of them matches it.
#[derive(Debug, Clone)]
pub struct Matcher {
    included: Option<GlobSet>,
    excluded: Option<GlobSet>,
}

impl Matcher {
    /// The include patterns, if any were given.
    pub closed spec fn include_patterns(self) -> Option<Seq<Seq<char>>> {
        match self.included {
            Some(set) => Some(glob_set_patterns(set)),
            None => None,
        }
    }

    /// The exclude patterns, if any were given.
    pub closed spec fn exclude_patterns(self) -> Option<Seq<Seq<char>>> {
        match self.excluded {
            Some(set) => Some(glob_set_patterns(set)),
            None => None,
        }
    }

    /// Whether the matcher selects `path`: exclusion wins; without include
    /// patterns every path that is not excluded is selected.
    pub open spec fn selects(self, path: Seq<char>) -> bool {
        &&& !(self.exclude_patterns() matches Some(exc) && any_glob_matches(exc, path))
        &&& (self.include_patterns() matches Some(inc) ==> any_glob_matches(inc, path))
    }

    /// Whether the matcher selects a file, given its path relative to the
    /// project root and its own name: an exclude pattern skips the file when it
    /// matches either (so `__init__.py` skips every file of that name), and the
    /// include patterns, if any, must match the relative path.
    pub open spec fn selects_file(self, rel_path: Seq<char>, file_name: Seq<char>) -> bool {
        &&& !(self.exclude_patterns() matches Some(exc) && (any_glob_matches(exc, rel_path)
            || any_glob_matches(exc, file_name)))
        &&& (self.include_patterns() matches Some(inc) ==> any_glob_matches(inc, rel_path))
    }

    /// Creates a new [`Matcher`] from include and exclude glob patterns.
    ///
    /// # Errors
    /// Returns an error if a pattern is not a valid glob, or if a set of
    /// patterns cannot be compiled.
    pub fn new(includes: &[String], excludes: &[String]) -> (r: Result<Matcher, GlobError>)
        ensures
            r is Ok <==> patterns_build(texts(includes@)) && patterns_build(texts(excludes@)),
            r matches Ok(m) ==> m.include_patterns() == optional_patterns(texts(includes@))
                && m.exclude_patterns() == optional_patterns(texts(excludes@)),
    {
        let included = build_set(includes)?;
        let excluded = build_set(excludes)?;
        Ok(Matcher { included, excluded })
    }

    /// Checks if the given file name matches the include patterns and does not
    /// match the exclude patterns.
    pub fn is_match(&self, filename: &str) -> (r: bool)
        ensures
            r == self.selects(filename@),
    {
        if let Some(exc) = &self.excluded {
            if set_is_match(exc, filename) {
                return false;
            }
        }
        match &self.included {
            Some(inc) => set_is_match(inc, filename),
            None => true,
        }
    }

    /// Checks a file met by the walk: it is skipped when an exclude pattern
    /// matches its relative path or its name, and otherwise checked when the
    /// include patterns (if any) match its relative path.
    pub fn is_match_file(&self, rel_path: &str, file_name: &str) -> (r: bool)
        ensures
            r == self.selects_file(rel_path@, file_name@),
    {
        if let Some(exc) = &self.excluded {
            if set_is_match(exc, rel_path) || set_is_match(exc, file_name) {
                return false;
            }
        }
        match &self.included {
            Some(inc) => set_is_match(inc, rel_path),
            None => true,
        }
    }
}

/// Exclusion takes priority over inclusion: a path that an exclude pattern
/// matches is never selected, whatever the include patterns say; the same holds
/// of a file whose relative path or name an exclude pattern matches.
pub proof fn lemma_exclude_wins(m: Matcher, path: Seq<char>, other: Seq<char>)
    requires
        m.exclude_patterns() matches Some(exc) && any_glob_matches(exc, path),
    ensures
        !m.selects(path),
        !m.selects_file(path, other),
        !m.selects_file(other, path),
{
}

/// A glob of a list still matches once more patterns are added to the list,
/// before or after.
proof fn lemma_any_match_extends(a: Seq<Seq<char>>, b: Seq<Seq<char>>, path: Seq<char>)
    ensures
        any_glob_matches(a, path) ==> any_glob_matches(a + b, path),
        any_glob_matches(b, path) ==> any_glob_matches(a + b, path),
{
    if any_glob_matches(a, path) {
        let i = choose|i: int| 0 <= i < a.len() && glob_matches(#[trigger] a[i], path);
        assert((a + b)[i] == a[i]);
    }
    if any_glob_matches(b, path) {
        let i = choose|i: int| 0 <= i < b.len() && glob_matches(#[trigger] b[i], path);
        assert((a + b)[a.len() + i] == b[i]);
    }
}

/// Adding exclude patterns never selects more: whatever a matcher with the
/// longer exclude list selects, the one with the shorter list selects too.
pub proof fn lemma_more_excludes_select_no_more(
    m1: Matcher,
    m2: Matcher,
    includes: Seq<Seq<char>>,
    excludes: Seq<Seq<char>>,
    extra: Seq<Seq<char>>,
    rel_path: Seq<char>,
    file_name: Seq<char>,
)
    requires
        m1.include_patterns() == optional_patterns(includes),
        m2.include_patterns() == optional_patterns(includes),
        m1.exclude_patterns() == optional_patterns(excludes),
        m2.exclude_patterns() == optional_patterns(excludes + extra),
    ensures
        m2.selects(rel_path) ==> m1.selects(rel_path),
        m2.selects_file(rel_path, file_name) ==> m1.selects_file(rel_path, file_name),
{
    lemma_any_match_extends(excludes, extra, rel_path);
    lemma_any_match_extends(excludes, extra, file_name);
}

/// Adding patterns to a non-empty include list never selects less: whatever
/// the matcher with the shorter include list selects, the one with the longer
/// list selects too.
pub proof fn lemma_more_includes_select_no_less(
    m1: Matcher,
    m2: Matcher,
    includes: Seq<Seq<char>>,
    more: Seq<Seq<char>>,
    excludes: Seq<Seq<char>>,
    rel_path: Seq<char>,
    file_name: Seq<char>,
)
    requires
        includes.len() > 0,
        m1.include_patterns() == optional_patterns(includes),
        m2.include_patterns() == optional_patterns(includes + more),
        m1.exclude_patterns() == optional_patterns(excludes),
        m2.exclude_patterns() == optional_patterns(excludes),
    ensures
        m1.selects(rel_path) ==> m2.selects(rel_path),
        m1.selects_file(rel_path, file_name) ==> m2.selects_file(rel_path, file_name),
{
    lemma_any_match_extends(includes, more, rel_path);
}

/// Without include patterns, every path that no exclude pattern matches is
/// selected; without any pattern at all, every path is.
pub proof fn lemma_no_include_selects_all_unexcluded(m: Matcher, path: Seq<char>)
    requires
        m.include_patterns() is None,
    ensures
        m.selects(path) <==> !(m.exclude_patterns() matches Some(exc) && any_glob_matches(exc, path)),
        m.exclude_patterns() is None ==> m.selects(path),
{
}

/// With include patterns and no exclude pattern, a path is selected exactly
/// when one of the include patterns matches it.
pub proof fn lemma_include_only(m: Matcher, path: Seq<char>)
    requires
        m.exclude_patterns() is None,
        m.include_patterns() is Some,
    ensures
        m.selects(path) <==> any_glob_matches(m.include_patterns()->0, path),
{
}

} // verus!
