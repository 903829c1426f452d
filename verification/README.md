# convention-lint

A file-naming convention linter for Rust projects, configured in `Cargo.toml`
metadata and run as `cargo convention-lint`. Its decisions are written in Verus
and proved against their contracts.

- `src/convention.rs` — the naming conventions, stem validation, parsing of
  convention identifiers, and laws about them (parse of a printed name, empty
  stems, how first-letter case separates conventions).
- `src/matcher.rs` — include/exclude glob selection on top of `globset`
  (include patterns match the path relative to the project root; exclude
  patterns match that path or the file's name); the `globset` calls are
  trusted wrappers whose contracts name the glob semantics.
- `src/config.rs` — turning the `[[...convention-lint.checks]]` entries of a
  parsed manifest into resolved rules, with the exact error for each input.
- `src/lint.rs` — what the directory walk does with each entry, which expanded
  directories are dropped, and how a violation is reported.
- `src/error.rs` — the error type.
- `app/` — the command-line program: reading the manifest, TOML parsing with
  `serde`, walking directories with `ignore` and `glob`, printing.
- `tests/` — tests of the library.
