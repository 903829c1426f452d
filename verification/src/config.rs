//! Configuration: turning the `[[...convention-lint.checks]]` entries of a
//! `Cargo.toml` into resolved linting rules.
//!
//! Checks are listed under `[package.metadata.convention-lint]` and
//! `[workspace.metadata.convention-lint]`; both lists are used, package checks
//! first. Each check names the directories to scan, the files to include or
//! exclude, the naming convention to enforce and whether to descend into
//! subdirectories.

use crate::convention::{convention_named, Convention};
use crate::error::Error;
use crate::matcher::{any_glob_matches, optional_patterns, patterns_build, texts, Matcher};
use std::path::PathBuf;
use vstd::prelude::*;

verus! {

/// The parts of a `Cargo.toml` manifest that the linter reads.
pub struct CargoManifest {
    /// The `[package]` table, if present.
    pub package: Option<MetadataWrapper>,
    /// The `[workspace]` table, if present.
    pub workspace: Option<MetadataWrapper>,
}

/// A `[package]` or `[workspace]` table.
pub struct MetadataWrapper {
    /// Its `metadata` table, if present.
    pub metadata: Option<MetadataSection>,
}

/// A `metadata` table.
pub struct MetadataSection {
    /// Its `convention-lint` table, if present.
    pub convention_lint: Option<ConventionLintTable>,
}

/// A `convention-lint` table.
pub struct ConventionLintTable {
    /// The `[[...checks]]` entries, in order.
    pub checks: Vec<RawCheck>,
}

/// One `[[...checks]]` entry as written in the manifest.
pub struct RawCheck {
    /// Directories to scan (`dirs`).
    pub dirs: Vec<PathBuf>,
    /// Glob patterns of the files to check (`include`); empty means all files.
    pub includes: Vec<String>,
    /// Glob patterns of the files to skip (`exclude`).
    pub excludes: Vec<String>,
    /// The convention identifier (`format`).
    pub format: String,
    /// Whether to scan subdirectories (`recursive`).
    pub recursive: bool,
}

/// Linter configuration loaded from a project manifest.
#[derive(Debug)]
pub struct Config {
    /// A list of resolved rules to be applied during the linting process.
    pub rules: Vec<ResolvedRule>,
}

/// A single, fully-resolved linting rule.
#[derive(Debug)]
pub struct ResolvedRule {
    /// Directories to be scanned for this rule.
    pub dirs: Vec<PathBuf>,
    /// The glob matcher used to include or exclude specific files.
    pub matcher: Matcher,
    /// The naming convention to be enforced for matched files.
    pub convention: Convention,
    /// Whether to scan directories recursively.
    pub recursive: bool,
}

/// The value `recursive` takes when a check does not set it: checks scan
/// recursively by default.
pub fn default_recursive() -> (r: bool)
    ensures
        r,
{
    true
}

/// The checks of a `[package]` or `[workspace]` table: those of its
/// `metadata.convention-lint` table, or none when a level is absent.
pub open spec fn section_checks(table: Option<MetadataWrapper>) -> Seq<RawCheck> {
    match table {
        Some(w) => match w.metadata {
            Some(m) => match m.convention_lint {
                Some(t) => t.checks@,
                None => Seq::empty(),
            },
            None => Seq::empty(),
        },
        None => Seq::empty(),
    }
}

/// All checks of a manifest: the package's, then the workspace's.
pub open spec fn manifest_checks(manifest: CargoManifest) -> Seq<RawCheck> {
    section_checks(manifest.package) + section_checks(manifest.workspace)
}

/// The parts joined with `sep` between each two of them.
pub open spec fn join(parts: Seq<Seq<char>>, sep: Seq<char>) -> Seq<char>
    decreases parts.len(),
{
    if parts.len() == 0 {
        Seq::empty()
    } else if parts.len() == 1 {
        parts[0]
    } else {
        join(parts.drop_last(), sep) + sep + parts.last()
    }
}

/// What an unknown-convention error says the convention was configured for:
/// the include patterns joined by `, `, or `all files` when there are none.
pub open spec fn context_of(includes: Seq<Seq<char>>) -> Seq<char> {
    if includes.len() == 0 {
        "all files"@
    } else {
        join(includes, ", "@)
    }
}

/// A check can be resolved: it names at least one directory, its convention is
/// known and its patterns build.
pub open spec fn check_resolves(raw: RawCheck) -> bool {
    &&& raw.dirs@.len() > 0
    &&& convention_named(raw.format@) is Some
    &&& patterns_build(texts(raw.includes@))
    &&& patterns_build(texts(raw.excludes@))
}

/// `checks[i]` is the first check that cannot be resolved.
pub open spec fn first_unresolved(checks: Seq<RawCheck>, i: int) -> bool {
    &&& 0 <= i < checks.len()
    &&& !check_resolves(checks[i])
    &&& forall|j: int| 0 <= j < i ==> check_resolves(#[trigger] checks[j])
}

/// `rule` is the resolution of `raw`: same directories and recursion, the
/// convention that `raw.format` names, and a matcher of `raw`'s patterns.
pub open spec fn resolves_to(raw: RawCheck, rule: ResolvedRule) -> bool {
    &&& rule.dirs@ == raw.dirs@
    &&& convention_named(raw.format@) == Some(rule.convention)
    &&& rule.matcher.include_patterns() == optional_patterns(texts(raw.includes@))
    &&& rule.matcher.exclude_patterns() == optional_patterns(texts(raw.excludes@))
    &&& rule.recursive == raw.recursive
}

/// The outcome of resolving the checks of a manifest read from `path`.
pub open spec fn resolution(checks: Seq<RawCheck>, path: PathBuf, r: Result<Config, Error>) -> bool {
    match r {
        Ok(config) => {
            &&& checks.len() > 0
            &&& forall|i: int| 0 <= i < checks.len() ==> check_resolves(#[trigger] checks[i])
            &&& config.rules@.len() == checks.len()
            &&& forall|i: int|
                0 <= i < checks.len() ==> resolves_to(#[trigger] checks[i], config.rules@[i])
        },
        Err(Error::MissingSection(p)) => checks.len() == 0 && p == path,
        Err(Error::EmptyDirs) => exists|i: int|
            #[trigger] first_unresolved(checks, i) && checks[i].dirs@.len() == 0,
        Err(Error::UnknownConvention { context, value }) => exists|i: int|
            #[trigger] first_unresolved(checks, i) && checks[i].dirs@.len() > 0 && convention_named(
                checks[i].format@,
            ) is None && context@ == context_of(texts(checks[i].includes@)) && value@
                == checks[i].format@,
        Err(Error::InvalidSection) => exists|i: int|
            #[trigger] first_unresolved(checks, i) && checks[i].dirs@.len() > 0 && convention_named(
                checks[i].format@,
            ) is Some,
        _ => false,
    }
}

/// Package and workspace checks are merged: a resolved configuration has one
/// rule per package check, in order, followed by one rule per workspace check.
pub proof fn lemma_rules_merge_package_then_workspace(
    manifest: CargoManifest,
    path: PathBuf,
    config: Config,
)
    requires
        resolution(manifest_checks(manifest), path, Ok(config)),
    ensures
        config.rules@.len() == section_checks(manifest.package).len() + section_checks(
            manifest.workspace,
        ).len(),
        forall|i: int|
            0 <= i < section_checks(manifest.package).len() ==> resolves_to(
                #[trigger] section_checks(manifest.package)[i],
                config.rules@[i],
            ),
        forall|j: int|
            0 <= j < section_checks(manifest.workspace).len() ==> resolves_to(
                #[trigger] section_checks(manifest.workspace)[j],
                config.rules@[section_checks(manifest.package).len() + j],
            ),
{
    let pkg = section_checks(manifest.package);
    let ws = section_checks(manifest.workspace);
    let all = manifest_checks(manifest);
    assert forall|i: int| 0 <= i < pkg.len() implies resolves_to(
        #[trigger] pkg[i],
        config.rules@[i],
    ) by {
        assert(all[i] == pkg[i]);
    }
    assert forall|j: int| 0 <= j < ws.len() implies resolves_to(
        #[trigger] ws[j],
        config.rules@[pkg.len() + j],
    ) by {
        assert(all[pkg.len() + j] == ws[j]);
    }
}

/// Each resolved rule selects by its own check's patterns: a path that one of
/// the check's exclude patterns matches is never selected by the rule, and when
/// the check has include patterns, a path that none of them matches is never
/// selected either; a path matched by an include pattern and by no exclude
/// pattern is selected.
pub proof fn lemma_rules_select_by_their_checks(
    checks: Seq<RawCheck>,
    path: PathBuf,
    config: Config,
    i: int,
    file: Seq<char>,
)
    requires
        resolution(checks, path, Ok(config)),
        0 <= i < checks.len(),
    ensures
        any_glob_matches(texts(checks[i].excludes@), file) ==> !config.rules@[i].matcher.selects(
            file,
        ),
        (texts(checks[i].includes@).len() > 0 && !any_glob_matches(
            texts(checks[i].includes@),
            file,
        )) ==> !config.rules@[i].matcher.selects(file),
        (any_glob_matches(texts(checks[i].includes@), file) && !any_glob_matches(
            texts(checks[i].excludes@),
            file,
        )) ==> config.rules@[i].matcher.selects(file),
{
    assert(resolves_to(checks[i], config.rules@[i]));
}

/// Resolution fails with a missing section exactly when the manifest holds no
/// check at all; otherwise it succeeds exactly when every check resolves.
pub proof fn lemma_missing_section_iff_no_checks(
    checks: Seq<RawCheck>,
    path: PathBuf,
    r: Result<Config, Error>,
)
    requires
        resolution(checks, path, r),
    ensures
        (r matches Err(Error::MissingSection(_))) <==> checks.len() == 0,
        r is Ok <==> (checks.len() > 0 && forall|i: int|
            0 <= i < checks.len() ==> check_resolves(#[trigger] checks[i])),
{
    if r is Err && checks.len() > 0 && forall|i: int|
        0 <= i < checks.len() ==> check_resolves(#[trigger] checks[i]) {
        match r {
            Err(Error::EmptyDirs) => {
                let i = choose|i: int| #[trigger] first_unresolved(checks, i);
                assert(check_resolves(checks[i]));
            },
            Err(Error::UnknownConvention { .. }) => {
                let i = choose|i: int| #[trigger] first_unresolved(checks, i);
                assert(check_resolves(checks[i]));
            },
            Err(Error::InvalidSection) => {
                let i = choose|i: int| #[trigger] first_unresolved(checks, i);
                assert(check_resolves(checks[i]));
            },
            _ => {},
        }
    }
}

/// The include patterns joined by `, `, or `all files` when there are none.
fn error_context(includes: &Vec<String>) -> (r: String)
    ensures
        r@ == context_of(texts(includes@)),
{
    let ghost parts = texts(includes@);
    if includes.len() == 0 {
        return String::from_str("all files");
    }
    let mut r = String::from_str(includes[0].as_str());
    let mut i: usize = 1;
    assert(parts.take(1).drop_last() =~= Seq::<Seq<char>>::empty());
    while i < includes.len()
        invariant
            parts == texts(includes@),
            1 <= i <= includes@.len(),
            r@ == join(parts.take(i as int), ", "@),
        decreases includes@.len() - i,
    {
        r.append(", ");
        r.append(includes[i].as_str());
        assert(parts.take(i + 1).drop_last() =~= parts.take(i as int));
        i = i + 1;
    }
    assert(parts.take(i as int) =~= parts);
    r
}

/// Moves the checks of a `[package]` or `[workspace]` table, if it has any, to
/// the end of `all`.
fn collect_checks(table: Option<MetadataWrapper>, all: &mut Vec<RawCheck>)
    ensures
        final(all)@ == old(all)@ + section_checks(table),
{
    if let Some(w) = table {
        if let Some(m) = w.metadata {
            if let Some(t) = m.convention_lint {
                let mut checks = t.checks;
                all.append(&mut checks);
                return;
            }
        }
    }
    assert(old(all)@ + Seq::<RawCheck>::empty() =~= old(all)@);
}

/// Resolves the checks of a parsed manifest into linting rules.
///
/// The checks of `[package.metadata.convention-lint]` come first, then those
/// of `[workspace.metadata.convention-lint]`; each becomes one rule, in order.
///
/// # Errors
///
/// - [`Error::MissingSection`] with `manifest_path` when neither table holds a
///   check;
/// - else, at the first check that cannot be resolved, [`Error::EmptyDirs`]
///   when its `dirs` list is empty, else [`Error::UnknownConvention`] when its
///   `format` names no convention, else [`Error::InvalidSection`] when one of
///   its glob patterns does not build.
pub fn resolve_config(manifest: CargoManifest, manifest_path: PathBuf) -> (r: Result<Config, Error>)
    ensures
        resolution(manifest_checks(manifest), manifest_path, r),
{
    let ghost checks = manifest_checks(manifest);
    let mut all: Vec<RawCheck> = Vec::new();
    collect_checks(manifest.package, &mut all);
    collect_checks(manifest.workspace, &mut all);
    if all.len() == 0 {
        return Err(Error::MissingSection(manifest_path));
    }
    let mut rules: Vec<ResolvedRule> = Vec::new();
    let ghost n = checks.len();
    while all.len() > 0
        invariant
            all@ == checks.subrange(rules@.len() as int, n as int),
            n == checks.len(),
            n > 0,
            checks == manifest_checks(manifest),
            rules@.len() <= n,
            forall|k: int| 0 <= k < rules@.len() ==> check_resolves(#[trigger] checks[k]),
            forall|k: int| 0 <= k < rules@.len() ==> resolves_to(#[trigger] checks[k], rules@[k]),
        decreases all@.len(),
    {
        let ghost i = rules@.len() as int;
        let raw = all.remove(0);
        let RawCheck { dirs, includes, excludes, format, recursive } = raw;
        if dirs.len() == 0 {
            assert(first_unresolved(checks, i));
            return Err(Error::EmptyDirs);
        }
        let convention = match Convention::parse(format.as_str()) {
            Ok(c) => c,
            Err(_) => {
                let context = error_context(&includes);
                assert(first_unresolved(checks, i));
                return Err(Error::UnknownConvention { context, value: format });
            },
        };
        let matcher = match Matcher::new(includes.as_slice(), excludes.as_slice()) {
            Ok(m) => m,
            Err(_) => {
                assert(first_unresolved(checks, i));
                return Err(Error::InvalidSection);
            },
        };
        rules.push(ResolvedRule { dirs, matcher, convention, recursive });
        assert(all@ =~= checks.subrange(rules@.len() as int, n as int));
    }
    Ok(Config { rules })
}

} // verus!
