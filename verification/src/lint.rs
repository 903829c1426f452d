//! The linting decisions: what the walk over a project does with each entry,
//! which directories a glob in `dirs` may expand to, and how a violation is
//! reported.
//!
//! Walking the file system is left to the caller; each entry the walker meets
//! is handed to [`visit_entry`] as plain values.

use crate::convention::Convention;
use crate::error::{display_path, path_text};
use std::path::PathBuf;
use crate::matcher::Matcher;
use vstd::prelude::*;

verus! {

/// Whether `s` holds the character `c`.
fn has_char(s: &str, c: char) -> (r: bool)
    ensures
        r == s@.contains(c),
{
    let n = s.unicode_len();
    let mut i: usize = 0;
    while i < n
        invariant
            n == s@.len(),
            0 <= i <= n,
            forall|k: int| 0 <= k < i ==> s@[k] != c,
        decreases n - i,
    {
        if s.get_char(i) == c {
            return true;
        }
        i = i + 1;
    }
    false
}

/// A `dirs` entry is a glob pattern when it holds `*`, `?` or `[`.
pub open spec fn glob_like(s: Seq<char>) -> bool {
    s.contains('*') || s.contains('?') || s.contains('[')
}

/// Whether a `dirs` entry must be expanded as a glob pattern rather than taken
/// as a path.
pub fn is_glob_pattern(s: &str) -> (r: bool)
    ensures
        r == glob_like(s@),
{
    has_char(s, '*') || has_char(s, '?') || has_char(s, '[')
}

/// A `dirs` entry that holds `*`, `?` or `[` anywhere is a glob pattern, and
/// one that holds none of them is taken as a path; adding text before or after
/// a glob pattern keeps it one.
pub proof fn lemma_glob_metacharacters(a: Seq<char>, b: Seq<char>, c: char)
    ensures
        (c == '*' || c == '?' || c == '[') ==> glob_like(a + seq![c] + b),
        glob_like(a) ==> glob_like(a + b) && glob_like(b + a),
        (forall|i: int| 0 <= i < a.len() ==> #[trigger] a[i] != '*' && a[i] != '?' && a[i] != '[')
            ==> !glob_like(a),
{
    let s = a + seq![c] + b;
    assert(s[a.len() as int] == c);
    if glob_like(a) {
        let m = if a.contains('*') {
            '*'
        } else if a.contains('?') {
            '?'
        } else {
            '['
        };
        let i = choose|i: int| 0 <= i < a.len() && a[i] == m;
        assert((a + b)[i] == m);
        assert((b + a)[b.len() + i] == m);
    }
}

/// A hidden name: one that starts with `.`.
pub open spec fn hidden(name: Seq<char>) -> bool {
    name.len() > 0 && name[0] == '.'
}

/// Whether a name starts with `.`.
fn starts_with_dot(name: &str) -> (r: bool)
    ensures
        r == hidden(name@),
{
    name.unicode_len() > 0 && name.get_char(0) == '.'
}

/// A directory that a glob in `dirs` expands to is dropped when its name is
/// hidden or is `target`.
pub fn is_skipped_dir_name(name: &str) -> (r: bool)
    ensures
        r == (hidden(name@) || name@ == "target"@),
{
    starts_with_dot(name) || crate::convention::str_eq(name, "target")
}

/// How deep the walk of a rule's directory goes: unlimited for a recursive
/// rule, only the directory's own entries otherwise.
pub fn walk_depth_limit(recursive: bool) -> (r: Option<usize>)
    ensures
        recursive ==> r is None,
        !recursive ==> r == Some(1usize),
{
    if recursive {
        None
    } else {
        Some(1)
    }
}

/// A single naming violation detected during a lint run.
#[derive(Debug, Clone, PartialEq, Eq)]
pub struct Violation {
    /// Path to the offending file, relative to the scanned project root.
    pub path: PathBuf,
    /// The file stem that violated the convention (no extension, no directory).
    pub stem: String,
    /// The convention the stem was required to follow.
    pub expected: Convention,
}

impl Violation {
    /// How a violation is reported.
    pub open spec fn message(self) -> Seq<char> {
        "error[convention]: `"@ + path_text(self.path) + "` — stem `"@ + self.stem@ + "` does not follow "@
            + self.expected.name() + " convention"@
    }

    /// Renders the violation the way the linter reports it.
    pub fn to_string(&self) -> (r: String)
        ensures
            r@ == self.message(),
    {
        let mut r = String::from_str("error[convention]: `");
        let shown = display_path(&self.path);
        r.append(shown.as_str());
        r.append("` — stem `");
        r.append(self.stem.as_str());
        r.append("` does not follow ");
        r.append(self.expected.as_str());
        r.append(" convention");
        r
    }
}

/// An entry met by the walk over a rule's directory, as plain values.
pub struct WalkEntry {
    /// The entry is a directory.
    pub is_dir: bool,
    /// The entry is a regular file.
    pub is_file: bool,
    /// The entry's own name (lossily decoded).
    pub file_name: String,
    /// How deep the entry lies below the walked directory (0 for the directory
    /// itself).
    pub depth: usize,
    /// The entry's path relative to the project root; the full path when it does
    /// not lie under the root.
    pub rel_path: PathBuf,
    /// The same path as text (lossily decoded), which the glob patterns match.
    pub rel_path_text: String,
    /// The entry's file stem, when it has one that is valid UTF-8.
    pub stem: Option<String>,
}

/// What the walk does after an entry.
#[derive(Debug, Clone, Copy, PartialEq, Eq, Structural)]
pub enum WalkStep {
    /// Go on, descending into the entry if it is a directory.
    Continue,
    /// Do not descend into the entry.
    Skip,
}

/// The walk prunes `target` directories, and hidden entries below the walked
/// directory.
pub open spec fn pruned(entry: WalkEntry) -> bool {
    (entry.is_dir && entry.file_name@ == "target"@) || (hidden(entry.file_name@) && entry.depth
        > 0)
}

/// The entry is a file that the rule checks and whose stem breaks the rule's
/// convention.
pub open spec fn offends(entry: WalkEntry, matcher: Matcher, convention: Convention) -> bool {
    &&& !pruned(entry)
    &&& entry.is_file
    &&& matcher.selects_file(entry.rel_path_text@, entry.file_name@)
    &&& entry.stem matches Some(stem) && !convention.accepts(stem@)
}

/// How deep a file lies does not change the decision: two entries that differ
/// only in their depth below the walked directory (both below it) are pruned
/// alike and reported alike, so a recursive walk reports files at every level.
pub proof fn lemma_depth_does_not_decide(
    e1: WalkEntry,
    e2: WalkEntry,
    matcher: Matcher,
    convention: Convention,
)
    requires
        e1.is_dir == e2.is_dir,
        e1.is_file == e2.is_file,
        e1.file_name@ == e2.file_name@,
        e1.rel_path_text@ == e2.rel_path_text@,
        e1.stem is Some == e2.stem is Some,
        e1.stem is Some ==> e1.stem->0@ == e2.stem->0@,
        e1.depth > 0,
        e2.depth > 0,
    ensures
        pruned(e1) == pruned(e2),
        offends(e1, matcher, convention) == offends(e2, matcher, convention),
{
}

/// A file that is not pruned, that the matcher selects and whose stem breaks
/// the convention is reported, at any depth; a file whose stem follows the
/// convention never is.
pub proof fn lemma_reported_files(entry: WalkEntry, matcher: Matcher, convention: Convention)
    ensures
        (!pruned(entry) && entry.is_file && matcher.selects_file(
            entry.rel_path_text@,
            entry.file_name@,
        ) && entry.stem is Some && !convention.accepts(entry.stem->0@)) ==> offends(
            entry,
            matcher,
            convention,
        ),
        (entry.stem is Some && convention.accepts(entry.stem->0@)) ==> !offends(
            entry,
            matcher,
            convention,
        ),
{
}

/// Decides what the walk does with one entry, and whether the entry is a
/// violation of the rule (`matcher`, `convention`).
///
/// Pruned entries (a `target` directory, a hidden entry below the walked
/// directory) are skipped and never reported. Any other entry lets the walk go
/// on; it is reported when it is a file that the matcher selects (by its
/// relative path, and for exclusion also by its name) and whose stem does not
/// follow the convention. A file without a UTF-8 stem is not reported.
pub fn visit_entry(entry: WalkEntry, matcher: &Matcher, convention: Convention) -> (r: (
    WalkStep,
    Option<Violation>,
))
    ensures
        r.0 == (if pruned(entry) {
            WalkStep::Skip
        } else {
            WalkStep::Continue
        }),
        r.1 is Some <==> offends(entry, *matcher, convention),
        r.1 matches Some(v) ==> {
            &&& v.path == entry.rel_path
            &&& entry.stem matches Some(s) && v.stem@ == s@
            &&& v.expected == convention
        },
{
    let WalkEntry { is_dir, is_file, file_name, depth, rel_path, rel_path_text, stem } = entry;
    if (is_dir && crate::convention::str_eq(file_name.as_str(), "target")) || (starts_with_dot(
        file_name.as_str(),
    ) && depth > 0) {
        return (WalkStep::Skip, None);
    }
    if is_file && matcher.is_match_file(rel_path_text.as_str(), file_name.as_str()) {
        if let Some(stem) = stem {
            if !convention.is_valid(stem.as_str()) {
                return (
                    WalkStep::Continue,
                    Some(Violation { path: rel_path, stem, expected: convention }),
                );
            }
        }
    }
    (WalkStep::Continue, None)
}

} // verus!
