//! Error types for `convention-lint`.

use toml::de::Error as TomlError;
use vstd::prelude::*;

verus! {

#[verifier::external_type_specification]
#[verifier::external_body]
pub struct ExPathBuf(std::path::PathBuf);

/// The text a path is shown as: `Path::display` of it, its bytes decoded as
/// UTF-8 with invalid sequences replaced.
pub uninterp spec fn path_text(path: std::path::PathBuf) -> Seq<char>;

/// Calls `Path::display` on `path` and renders it: the contract claims the text
/// is a function of the path alone.
#[verifier::external_body]
pub(crate) fn display_path(path: &std::path::PathBuf) -> (r: String)
    ensures
        r@ == path_text(*path),
{
    path.display().to_string()
}

/// `PathBuf::clone` copies the path, so the copy is shown as the same text.
pub assume_specification[ <std::path::PathBuf as std::clone::Clone>::clone ](
    path: &std::path::PathBuf,
) -> (r: std::path::PathBuf)
    ensures
        path_text(r) == path_text(*path),
;

#[verifier::external_type_specification]
#[verifier::external_body]
pub struct ExIoError(std::io::Error);

#[verifier::external_type_specification]
#[verifier::external_body]
pub struct ExTomlError(TomlError);

/// All errors that `convention-lint` can produce.
///
/// This type is `#[non_exhaustive]` so that new variants can be added in
/// minor versions without breaking downstream `match` expressions.
#[derive(Debug)]
#[non_exhaustive]
pub enum Error {
    /// The manifest file could not be opened or read.
    Io {
        /// Path to the manifest that could not be read.
        path: std::path::PathBuf,
        /// Underlying I/O error.
        source: std::io::Error,
    },
    /// The `dirs` list in a check rule is empty.
    EmptyDirs,
    /// The manifest file contains invalid TOML.
    Toml {
        /// Path to the manifest that could not be parsed.
        path: std::path::PathBuf,
        /// Underlying TOML parse error.
        source: TomlError,
    },
    /// The `[workspace.metadata.convention-lint]` or `[package.metadata.convention-lint]` section is absent from the manifest.
    MissingSection(std::path::PathBuf),
    /// The metadata section exists but cannot be used as rules: a check's
    /// include or exclude glob pattern is invalid.
    InvalidSection,
    /// The convention string is not one of the recognised identifiers.
    UnknownConvention {
        /// The file patterns (e.g. `*.idl`) that the unrecognised convention was
        /// configured for, or `all files`.
        context: String,
        /// The unrecognised convention string supplied by the user.
        value: String,
    },
}

/// The prefix shared by the section errors' messages.
pub open spec fn sections_text() -> Seq<char> {
    "`[workspace.metadata.convention-lint]` or `[package.metadata.convention-lint]`"@
}

impl Error {
    /// The message of an error that holds no outside value: `None` for the I/O
    /// and TOML errors, whose messages include the outside error's own text.
    pub open spec fn message_text(self) -> Option<Seq<char>> {
        match self {
            Error::EmptyDirs => Some("the `dirs` list in a convention-lint check cannot be empty"@),
            Error::MissingSection(p) => Some(
                sections_text() + " section not found in `"@ + path_text(p) + "`"@,
            ),
            Error::InvalidSection => Some(sections_text() + " must be a TOML table"@),
            Error::UnknownConvention { context, value } => Some(
                "unknown convention `"@ + value@ + "` for pattern(s) ["@ + context@
                    + "]; valid values: `snake_case`, `CamelCase`, `camelCase`, `SCREAMING_SNAKE_CASE`, `kebab-case`"@,
            ),
            _ => None,
        }
    }

    /// Renders the message of an error that holds no outside value; `None` for
    /// [`Error::Io`] and [`Error::Toml`].
    pub fn message(&self) -> (r: Option<String>)
        ensures
            r is Some <==> self.message_text() is Some,
            r matches Some(m) ==> Some(m@) == self.message_text(),
    {
        match self {
            Error::EmptyDirs => Some(
                String::from_str("the `dirs` list in a convention-lint check cannot be empty"),
            ),
            Error::MissingSection(p) => {
                let mut r = String::from_str(
                    "`[workspace.metadata.convention-lint]` or `[package.metadata.convention-lint]`",
                );
                r.append(" section not found in `");
                let shown = display_path(p);
                r.append(shown.as_str());
                r.append("`");
                Some(r)
            },
            Error::InvalidSection => {
                let mut r = String::from_str(
                    "`[workspace.metadata.convention-lint]` or `[package.metadata.convention-lint]`",
                );
                r.append(" must be a TOML table");
                Some(r)
            },
            Error::UnknownConvention { context, value } => {
                let mut r = String::from_str("unknown convention `");
                r.append(value.as_str());
                r.append("` for pattern(s) [");
                r.append(context.as_str());
                r.append(
                    "]; valid values: `snake_case`, `CamelCase`, `camelCase`, `SCREAMING_SNAKE_CASE`, `kebab-case`",
                );
                Some(r)
            },
            _ => None,
        }
    }
}

} // verus!
