//! Naming conventions and stem validation.
//!
//! This module knows nothing about Cargo, command lines or I/O: it decides
//! which stems follow which convention and which names denote a convention.

use vstd::prelude::*;

verus! {

/// An ASCII lowercase letter.
pub open spec fn is_lower(c: char) -> bool {
    'a' <= c && c <= 'z'
}

/// An ASCII uppercase letter.
pub open spec fn is_upper(c: char) -> bool {
    'A' <= c && c <= 'Z'
}

/// An ASCII decimal digit.
pub open spec fn is_digit(c: char) -> bool {
    '0' <= c && c <= '9'
}

/// An ASCII letter or digit.
pub open spec fn is_alnum(c: char) -> bool {
    is_lower(c) || is_upper(c) || is_digit(c)
}

/// A letter of the required case: uppercase when `upper`, else lowercase.
pub open spec fn is_cased(c: char, upper: bool) -> bool {
    if upper {
        is_upper(c)
    } else {
        is_lower(c)
    }
}

/// A character allowed in a separated convention: a letter of the required
/// case, a digit, or the separator.
pub open spec fn is_separated_char(c: char, upper: bool, sep: char) -> bool {
    is_cased(c, upper) || is_digit(c) || c == sep
}

/// No two adjacent characters of `s` are both `sep`: `s` does not contain the
/// separator twice in a row.
pub open spec fn no_doubled(s: Seq<char>, sep: char) -> bool {
    forall|i: int, j: int|
        0 <= i && j == i + 1 && j < s.len() ==> !(#[trigger] s[i] == sep && #[trigger] s[j] == sep)
}

/// A separated convention (`snake_case`, `SCREAMING_SNAKE_CASE`, `kebab-case`):
/// non-empty, starts with a letter of the required case, holds only letters of
/// that case, digits and the separator, never doubles the separator and does not
/// end with it.
pub open spec fn separated(s: Seq<char>, upper: bool, sep: char) -> bool {
    &&& s.len() > 0
    &&& is_cased(s[0], upper)
    &&& forall|i: int| 0 <= i < s.len() ==> is_separated_char(#[trigger] s[i], upper, sep)
    &&& no_doubled(s, sep)
    &&& s.last() != sep
}

/// A joined convention (`CamelCase`, `camelCase`): non-empty, starts with a
/// letter of the required case and holds only ASCII letters and digits.
pub open spec fn joined(s: Seq<char>, upper: bool) -> bool {
    &&& s.len() > 0
    &&& is_cased(s[0], upper)
    &&& forall|i: int| 0 <= i < s.len() ==> is_alnum(#[trigger] s[i])
}

/// Error returned when an unrecognized string is parsed as a [`Convention`].
#[derive(Debug, Clone, PartialEq, Eq)]
pub struct UnknownConvention(pub String);

/// Supported naming conventions for file stems.
#[derive(Debug, Clone, Copy, PartialEq, Eq, Hash, Structural)]
#[non_exhaustive]
pub enum Convention {
    /// `snake_case` (e.g. `my_service`)
    SnakeCase,
    /// `CamelCase` or `PascalCase` (e.g. `MyService`)
    CamelCase,
    /// `camelCase` (e.g. `myService`)
    LowerCamelCase,
    /// `SCREAMING_SNAKE_CASE` (e.g. `MY_SERVICE`)
    ScreamingSnakeCase,
    /// `kebab-case` (e.g. `my-service`)
    KebabCase,
}

/// The convention that a configuration string names, if any. `PascalCase` is an
/// alias of `CamelCase`.
pub open spec fn convention_named(s: Seq<char>) -> Option<Convention> {
    if s == "snake_case"@ {
        Some(Convention::SnakeCase)
    } else if s == "CamelCase"@ || s == "PascalCase"@ {
        Some(Convention::CamelCase)
    } else if s == "camelCase"@ {
        Some(Convention::LowerCamelCase)
    } else if s == "SCREAMING_SNAKE_CASE"@ {
        Some(Convention::ScreamingSnakeCase)
    } else if s == "kebab-case"@ {
        Some(Convention::KebabCase)
    } else {
        None
    }
}

impl Convention {
    /// The canonical identifier of the convention.
    pub open spec fn name(self) -> Seq<char> {
        match self {
            Convention::SnakeCase => "snake_case"@,
            Convention::CamelCase => "CamelCase"@,
            Convention::LowerCamelCase => "camelCase"@,
            Convention::ScreamingSnakeCase => "SCREAMING_SNAKE_CASE"@,
            Convention::KebabCase => "kebab-case"@,
        }
    }

    /// Whether `stem` follows the convention.
    pub open spec fn accepts(self, stem: Seq<char>) -> bool {
        match self {
            Convention::SnakeCase => separated(stem, false, '_'),
            Convention::CamelCase => joined(stem, true),
            Convention::LowerCamelCase => joined(stem, false),
            Convention::ScreamingSnakeCase => separated(stem, true, '_'),
            Convention::KebabCase => separated(stem, false, '-'),
        }
    }

    /// Returns the canonical string identifier for this convention.
    pub fn as_str(&self) -> (r: &'static str)
        ensures
            r@ == self.name(),
    {
        match self {
            Convention::SnakeCase => "snake_case",
            Convention::CamelCase => "CamelCase",
            Convention::LowerCamelCase => "camelCase",
            Convention::ScreamingSnakeCase => "SCREAMING_SNAKE_CASE",
            Convention::KebabCase => "kebab-case",
        }
    }
}

/// Whether `c` is an ASCII lowercase letter.
fn lower_char(c: char) -> (r: bool)
    ensures
        r == is_lower(c),
{
    'a' <= c && c <= 'z'
}

/// Whether `c` is an ASCII uppercase letter.
fn upper_char(c: char) -> (r: bool)
    ensures
        r == is_upper(c),
{
    'A' <= c && c <= 'Z'
}

/// Whether `c` is an ASCII decimal digit.
fn digit_char(c: char) -> (r: bool)
    ensures
        r == is_digit(c),
{
    '0' <= c && c <= '9'
}

/// Whether `c` is a letter of the required case.
fn cased_char(c: char, upper: bool) -> (r: bool)
    ensures
        r == is_cased(c, upper),
{
    if upper {
        upper_char(c)
    } else {
        lower_char(c)
    }
}

/// Checks a stem against a separated convention (see [`separated`]).
fn check_separated(stem: &str, upper: bool, sep: char) -> (r: bool)
    ensures
        r == separated(stem@, upper, sep),
{
    let n = stem.unicode_len();
    if n == 0 {
        return false;
    }
    if !cased_char(stem.get_char(0), upper) {
        return false;
    }
    let mut prev: char = sep;
    let mut i: usize = 0;
    while i < n
        invariant
            n == stem@.len(),
            0 <= i <= n,
            i > 0 ==> prev == stem@[i - 1],
            forall|k: int| 0 <= k < i ==> is_separated_char(#[trigger] stem@[k], upper, sep),
            forall|a: int, b: int|
                0 <= a && b == a + 1 && b < i ==> !(#[trigger] stem@[a] == sep && #[trigger] stem@[b] == sep),
        decreases n - i,
    {
        let c = stem.get_char(i);
        if !(cased_char(c, upper) || digit_char(c) || c == sep) {
            assert(!is_separated_char(stem@[i as int], upper, sep));
            return false;
        }
        if i > 0 && c == sep && prev == sep {
            assert(stem@[i - 1] == sep && stem@[i as int] == sep);
            return false;
        }
        prev = c;
        i = i + 1;
    }
    prev != sep
}

/// Checks a stem against a joined convention (see [`joined`]).
fn check_joined(stem: &str, upper: bool) -> (r: bool)
    ensures
        r == joined(stem@, upper),
{
    let n = stem.unicode_len();
    if n == 0 {
        return false;
    }
    if !cased_char(stem.get_char(0), upper) {
        return false;
    }
    let mut i: usize = 0;
    while i < n
        invariant
            n == stem@.len(),
            0 <= i <= n,
            forall|k: int| 0 <= k < i ==> is_alnum(#[trigger] stem@[k]),
        decreases n - i,
    {
        let c = stem.get_char(i);
        if !(lower_char(c) || upper_char(c) || digit_char(c)) {
            assert(!is_alnum(stem@[i as int]));
            return false;
        }
        i = i + 1;
    }
    true
}

/// Whether two strings hold the same characters.
pub fn str_eq(a: &str, b: &str) -> (r: bool)
    ensures
        r == (a@ == b@),
{
    let n = a.unicode_len();
    if n != b.unicode_len() {
        return false;
    }
    let mut i: usize = 0;
    while i < n
        invariant
            n == a@.len(),
            n == b@.len(),
            0 <= i <= n,
            forall|k: int| 0 <= k < i ==> a@[k] == b@[k],
        decreases n - i,
    {
        if a.get_char(i) != b.get_char(i) {
            return false;
        }
        i = i + 1;
    }
    assert(a@ =~= b@);
    true
}

impl Convention {
    /// Checks if the given file stem conforms to this convention.
    ///
    /// An empty stem is invalid for every convention. The stem is the file name
    /// without extension or directory components (`my_service` for
    /// `src/my_service.rs`).
    ///
    /// - **`snake_case`**: lowercase letters, digits and underscores; starts with
    ///   a lowercase letter, does not end with `_`, never holds `__`.
    /// - **`CamelCase`**: ASCII letters and digits; starts with an uppercase letter.
    /// - **`camelCase`**: ASCII letters and digits; starts with a lowercase letter.
    /// - **`SCREAMING_SNAKE_CASE`**: uppercase letters, digits and underscores;
    ///   starts with an uppercase letter, does not end with `_`, never holds `__`.
    /// - **`kebab-case`**: lowercase letters, digits and hyphens; starts with a
    ///   lowercase letter, does not end with `-`, never holds `--`.
    pub fn is_valid(&self, stem: &str) -> (r: bool)
        ensures
            r == self.accepts(stem@),
            stem@.len() == 0 ==> !r,
    {
        match self {
            Convention::SnakeCase => check_separated(stem, false, '_'),
            Convention::CamelCase => check_joined(stem, true),
            Convention::LowerCamelCase => check_joined(stem, false),
            Convention::ScreamingSnakeCase => check_separated(stem, true, '_'),
            Convention::KebabCase => check_separated(stem, false, '-'),
        }
    }

    /// Parses a convention identifier; `PascalCase` is accepted as an alias of
    /// `CamelCase`. Any other string is refused and handed back in the error.
    pub fn parse(s: &str) -> (r: Result<Convention, UnknownConvention>)
        ensures
            match convention_named(s@) {
                Some(c) => r == Ok::<Convention, UnknownConvention>(c),
                None => r matches Err(UnknownConvention(v)) && v@ == s@,
            },
    {
        if str_eq(s, "snake_case") {
            Ok(Convention::SnakeCase)
        } else if str_eq(s, "CamelCase") || str_eq(s, "PascalCase") {
            Ok(Convention::CamelCase)
        } else if str_eq(s, "camelCase") {
            Ok(Convention::LowerCamelCase)
        } else if str_eq(s, "SCREAMING_SNAKE_CASE") {
            Ok(Convention::ScreamingSnakeCase)
        } else if str_eq(s, "kebab-case") {
            Ok(Convention::KebabCase)
        } else {
            Err(UnknownConvention(s.to_owned()))
        }
    }

    /// The canonical identifier of the convention, as an owned string.
    pub fn to_string(&self) -> (r: String)
        ensures
            r@ == self.name(),
    {
        self.as_str().to_owned()
    }
}

impl UnknownConvention {
    /// The text the error is shown with: the refused value and the list of
    /// accepted identifiers.
    pub open spec fn message(self) -> Seq<char> {
        "unknown convention `"@ + self.0@
            + "`; valid values: `snake_case`, `CamelCase`, `camelCase`, `SCREAMING_SNAKE_CASE`, `kebab-case`"@
    }

    /// Renders the error message.
    pub fn to_string(&self) -> (r: String)
        ensures
            r@ == self.message(),
    {
        let mut r = String::from_str("unknown convention `");
        r.append(self.0.as_str());
        r.append(
            "`; valid values: `snake_case`, `CamelCase`, `camelCase`, `SCREAMING_SNAKE_CASE`, `kebab-case`",
        );
        r
    }
}

/// Every convention's canonical identifier parses back to that convention:
/// printing a convention and parsing the text gives the same convention.
pub proof fn lemma_name_roundtrip(c: Convention)
    ensures
        convention_named(c.name()) == Some(c),
{
    reveal_strlit("snake_case");
    reveal_strlit("CamelCase");
    reveal_strlit("PascalCase");
    reveal_strlit("camelCase");
    reveal_strlit("SCREAMING_SNAKE_CASE");
    reveal_strlit("kebab-case");
    let snake = "snake_case"@;
    let camel = "CamelCase"@;
    let pascal = "PascalCase"@;
    let lower_camel = "camelCase"@;
    let screaming = "SCREAMING_SNAKE_CASE"@;
    let kebab = "kebab-case"@;
    assert(camel.len() != snake.len());
    assert(lower_camel.len() != snake.len());
    assert(lower_camel[0] != camel[0]);
    assert(lower_camel.len() != pascal.len());
    assert(screaming.len() != snake.len() && screaming.len() != camel.len());
    assert(screaming.len() != pascal.len() && screaming.len() != lower_camel.len());
    assert(kebab[5] != snake[5]);
    assert(kebab.len() != camel.len() && kebab[0] != pascal[0]);
    assert(kebab.len() != lower_camel.len() && kebab.len() != screaming.len());
}

/// A string that parses to a convention is that convention's canonical
/// identifier, or the alias `PascalCase` of `CamelCase`.
pub proof fn lemma_named_is_canonical(s: Seq<char>)
    ensures
        convention_named(s) matches Some(c) ==> (s == c.name() || (c == Convention::CamelCase
            && s == "PascalCase"@)),
{
}

/// No stem follows both `CamelCase` and `camelCase`, and none follows both
/// `snake_case` and `SCREAMING_SNAKE_CASE`, nor both `snake_case` and
/// `CamelCase`: the first letter's case tells them apart.
pub proof fn lemma_first_letter_separates(stem: Seq<char>)
    ensures
        !(Convention::CamelCase.accepts(stem) && Convention::LowerCamelCase.accepts(stem)),
        !(Convention::SnakeCase.accepts(stem) && Convention::ScreamingSnakeCase.accepts(stem)),
        !(Convention::SnakeCase.accepts(stem) && Convention::CamelCase.accepts(stem)),
        !(Convention::KebabCase.accepts(stem) && Convention::ScreamingSnakeCase.accepts(stem)),
{
}

/// An empty stem follows no convention.
pub proof fn lemma_empty_stem_rejected(c: Convention)
    ensures
        !c.accepts(Seq::<char>::empty()),
{
}

/// A non-empty stem that starts with a letter of the required case and holds
/// only letters of that case and digits.
pub open spec fn plain_cased(stem: Seq<char>, upper: bool) -> bool {
    &&& stem.len() > 0
    &&& is_cased(stem[0], upper)
    &&& forall|i: int| 0 <= i < stem.len() ==> is_cased(#[trigger] stem[i], upper) || is_digit(stem[i])
}

/// A stem of lowercase letters and digits that starts with a letter follows
/// `snake_case`, `camelCase` and `kebab-case` alike; one of uppercase letters
/// and digits that starts with a letter follows `SCREAMING_SNAKE_CASE` and
/// `CamelCase` alike.
pub proof fn lemma_unseparated_stems(stem: Seq<char>)
    ensures
        plain_cased(stem, false) ==> {
            &&& Convention::SnakeCase.accepts(stem)
            &&& Convention::LowerCamelCase.accepts(stem)
            &&& Convention::KebabCase.accepts(stem)
        },
        plain_cased(stem, true) ==> {
            &&& Convention::ScreamingSnakeCase.accepts(stem)
            &&& Convention::CamelCase.accepts(stem)
        },
{
    if plain_cased(stem, false) || plain_cased(stem, true) {
        let last = stem[stem.len() - 1];
        assert(last != '_' && last != '-');
    }
}

/// Joining two stems of a separated convention with one separator gives a stem
/// of that convention (for a separator that is neither a letter nor a digit).
proof fn lemma_separated_join(a: Seq<char>, b: Seq<char>, upper: bool, sep: char)
    requires
        separated(a, upper, sep),
        separated(b, upper, sep),
        !is_cased(sep, upper),
    ensures
        separated(a + seq![sep] + b, upper, sep),
{
    let s = a + seq![sep] + b;
    let n = a.len() as int;
    assert(s.len() == n + 1 + b.len());
    assert forall|i: int| 0 <= i < s.len() implies is_separated_char(#[trigger] s[i], upper, sep) by {
        if i < n {
            assert(s[i] == a[i]);
        } else if i == n {
            assert(s[i] == sep);
        } else {
            assert(s[i] == b[i - n - 1]);
        }
    }
    assert forall|i: int, j: int|
        0 <= i && j == i + 1 && j < s.len() implies !(#[trigger] s[i] == sep && #[trigger] s[j]
        == sep) by {
        if j < n {
            assert(s[i] == a[i] && s[j] == a[j]);
        } else if j == n {
            assert(s[i] == a.last());
        } else if j == n + 1 {
            assert(s[j] == b[0]);
        } else {
            assert(s[i] == b[i - n - 1] && s[j] == b[j - n - 1]);
        }
    }
    assert(s[0] == a[0]);
    assert(s.last() == b.last());
}

/// A separated convention names multi-word stems: joining two stems that
/// follow `snake_case` (or `SCREAMING_SNAKE_CASE`) with one `_`, or two that
/// follow `kebab-case` with one `-`, gives a stem that follows it too, however
/// many separators the parts already hold.
pub proof fn lemma_separated_conventions_join(a: Seq<char>, b: Seq<char>)
    ensures
        Convention::SnakeCase.accepts(a) && Convention::SnakeCase.accepts(b)
            ==> Convention::SnakeCase.accepts(a + seq!['_'] + b),
        Convention::ScreamingSnakeCase.accepts(a) && Convention::ScreamingSnakeCase.accepts(b)
            ==> Convention::ScreamingSnakeCase.accepts(a + seq!['_'] + b),
        Convention::KebabCase.accepts(a) && Convention::KebabCase.accepts(b)
            ==> Convention::KebabCase.accepts(a + seq!['-'] + b),
{
    if Convention::SnakeCase.accepts(a) && Convention::SnakeCase.accepts(b) {
        lemma_separated_join(a, b, false, '_');
    }
    if Convention::ScreamingSnakeCase.accepts(a) && Convention::ScreamingSnakeCase.accepts(b) {
        lemma_separated_join(a, b, true, '_');
    }
    if Convention::KebabCase.accepts(a) && Convention::KebabCase.accepts(b) {
        lemma_separated_join(a, b, false, '-');
    }
}

/// A separated convention refuses a doubled separator and a trailing one,
/// wherever they stand: `x__y` and `x_` are never `snake_case` (nor
/// `SCREAMING_SNAKE_CASE`), `x--y` and `x-` never `kebab-case`.
pub proof fn lemma_separated_conventions_refuse(a: Seq<char>, b: Seq<char>)
    ensures
        !Convention::SnakeCase.accepts(a + seq!['_', '_'] + b),
        !Convention::SnakeCase.accepts(a + seq!['_']),
        !Convention::ScreamingSnakeCase.accepts(a + seq!['_', '_'] + b),
        !Convention::ScreamingSnakeCase.accepts(a + seq!['_']),
        !Convention::KebabCase.accepts(a + seq!['-', '-'] + b),
        !Convention::KebabCase.accepts(a + seq!['-']),
{
    let n = a.len() as int;
    let u = a + seq!['_', '_'] + b;
    assert(u[n] == '_' && u[n + 1] == '_');
    let k = a + seq!['-', '-'] + b;
    assert(k[n] == '-' && k[n + 1] == '-');
    assert((a + seq!['_']).last() == '_');
    assert((a + seq!['-']).last() == '-');
}

/// Appending ASCII letters and digits, of any case, to a joined stem keeps it
/// joined: only the first letter's case matters.
proof fn lemma_joined_append(a: Seq<char>, b: Seq<char>, upper: bool)
    requires
        joined(a, upper),
        forall|i: int| 0 <= i < b.len() ==> is_alnum(#[trigger] b[i]),
    ensures
        joined(a + b, upper),
{
    let s = a + b;
    assert forall|i: int| 0 <= i < s.len() implies is_alnum(#[trigger] s[i]) by {
        if i < a.len() {
            assert(s[i] == a[i]);
        } else {
            assert(s[i] == b[i - a.len()]);
        }
    }
    assert(s[0] == a[0]);
}

/// The joined conventions name multi-word stems: after a `CamelCase` stem any
/// ASCII letters and digits may follow, whatever their case, so appending a
/// `CamelCase` word to a `CamelCase` or a `camelCase` stem keeps it so
/// (`My` + `Http` + `Service`, `get` + `User` + `Name`).
pub proof fn lemma_joined_conventions_append(a: Seq<char>, b: Seq<char>)
    ensures
        Convention::CamelCase.accepts(a) && (forall|i: int|
            0 <= i < b.len() ==> #[trigger] is_alnum(b[i])) ==> Convention::CamelCase.accepts(a + b),
        Convention::LowerCamelCase.accepts(a) && (forall|i: int|
            0 <= i < b.len() ==> #[trigger] is_alnum(b[i])) ==> Convention::LowerCamelCase.accepts(
            a + b,
        ),
        Convention::CamelCase.accepts(a) && Convention::CamelCase.accepts(b)
            ==> Convention::CamelCase.accepts(a + b),
        Convention::LowerCamelCase.accepts(a) && Convention::CamelCase.accepts(b)
            ==> Convention::LowerCamelCase.accepts(a + b),
{
    if forall|i: int| 0 <= i < b.len() ==> #[trigger] is_alnum(b[i]) {
        if Convention::CamelCase.accepts(a) {
            lemma_joined_append(a, b, true);
        }
        if Convention::LowerCamelCase.accepts(a) {
            lemma_joined_append(a, b, false);
        }
    }
}

/// `_` and `-` swapped; every other character kept.
pub open spec fn swap_separator(c: char) -> char {
    if c == '_' {
        '-'
    } else if c == '-' {
        '_'
    } else {
        c
    }
}

/// The ASCII case of a letter swapped; every other character kept.
pub open spec fn swap_case_char(c: char) -> char {
    if is_upper(c) {
        ((c as u32) + 32) as char
    } else if is_lower(c) {
        ((c as u32) - 32) as char
    } else {
        c
    }
}

/// Every `_` of `s` turned into `-` and every `-` into `_`.
pub open spec fn swap_separators(s: Seq<char>) -> Seq<char> {
    s.map_values(|c: char| swap_separator(c))
}

/// The ASCII case of every letter of `s` swapped.
pub open spec fn swap_case(s: Seq<char>) -> Seq<char> {
    s.map_values(|c: char| swap_case_char(c))
}

/// The ASCII case of the first character of `s` swapped.
pub open spec fn swap_first_case(s: Seq<char>) -> Seq<char> {
    if s.len() == 0 {
        s
    } else {
        s.update(0, swap_case_char(s[0]))
    }
}

/// Swapping the case of a character swaps which case it has and keeps what
/// else it is.
proof fn lemma_swap_case_char(c: char)
    ensures
        is_lower(swap_case_char(c)) == is_upper(c),
        is_upper(swap_case_char(c)) == is_lower(c),
        is_digit(swap_case_char(c)) == is_digit(c),
        (swap_case_char(c) == '_') == (c == '_'),
        is_alnum(swap_case_char(c)) == is_alnum(c),
{
}

/// Two stems that agree, position by position, on which characters are allowed
/// and which are separators, and on whether the first letter has the required
/// case, are both separated or both not.
proof fn lemma_separated_transfer(
    s: Seq<char>,
    t: Seq<char>,
    up1: bool,
    sep1: char,
    up2: bool,
    sep2: char,
)
    requires
        s.len() == t.len(),
        forall|i: int|
            #![trigger s[i]]
            #![trigger t[i]]
            0 <= i < s.len() ==> is_separated_char(s[i], up1, sep1) == is_separated_char(
                t[i],
                up2,
                sep2,
            ) && (s[i] == sep1) == (t[i] == sep2),
        s.len() > 0 ==> is_cased(s[0], up1) == is_cased(t[0], up2),
    ensures
        separated(s, up1, sep1) == separated(t, up2, sep2),
{
    if separated(s, up1, sep1) {
        assert forall|i: int| 0 <= i < t.len() implies is_separated_char(#[trigger] t[i], up2, sep2) by {
            assert(is_separated_char(s[i], up1, sep1));
        }
        assert forall|i: int, j: int|
            0 <= i && j == i + 1 && j < t.len() implies !(#[trigger] t[i] == sep2 && #[trigger] t[j]
            == sep2) by {
            assert(!(s[i] == sep1 && s[j] == sep1));
        }
        assert(t.last() == t[t.len() - 1] && s.last() == s[s.len() - 1]);
    }
    if separated(t, up2, sep2) {
        assert forall|i: int| 0 <= i < s.len() implies is_separated_char(#[trigger] s[i], up1, sep1) by {
            assert(is_separated_char(t[i], up2, sep2));
        }
        assert forall|i: int, j: int|
            0 <= i && j == i + 1 && j < s.len() implies !(#[trigger] s[i] == sep1 && #[trigger] s[j]
            == sep1) by {
            assert(!(t[i] == sep2 && t[j] == sep2));
        }
        assert(t.last() == t[t.len() - 1] && s.last() == s[s.len() - 1]);
    }
}

/// The conventions correspond under swaps: a stem follows `snake_case` exactly
/// when it follows `kebab-case` once `_` and `-` are swapped; it follows
/// `SCREAMING_SNAKE_CASE` exactly when it follows `snake_case` once the case of
/// every letter is swapped; and it follows `CamelCase` exactly when it follows
/// `camelCase` once the case of its first letter is swapped.
pub proof fn lemma_convention_swaps(s: Seq<char>)
    ensures
        Convention::SnakeCase.accepts(s) == Convention::KebabCase.accepts(swap_separators(s)),
        Convention::ScreamingSnakeCase.accepts(s) == Convention::SnakeCase.accepts(swap_case(s)),
        Convention::CamelCase.accepts(s) == Convention::LowerCamelCase.accepts(swap_first_case(s)),
{
    let t = swap_separators(s);
    assert forall|i: int| 0 <= i < s.len() implies (is_separated_char(s[i], false, '_')
        == is_separated_char(#[trigger] t[i], false, '-') && (s[i] == '_') == (t[i] == '-')) by {}
    lemma_separated_transfer(s, t, false, '_', false, '-');

    let u = swap_case(s);
    assert forall|i: int| 0 <= i < s.len() implies (is_separated_char(s[i], true, '_')
        == is_separated_char(#[trigger] u[i], false, '_') && (s[i] == '_') == (u[i] == '_')) by {
        lemma_swap_case_char(s[i]);
    }
    if s.len() > 0 {
        lemma_swap_case_char(s[0]);
    }
    lemma_separated_transfer(s, u, true, '_', false, '_');

    if s.len() > 0 {
        let w = swap_first_case(s);
        if joined(s, true) {
            assert forall|i: int| 0 <= i < w.len() implies is_alnum(#[trigger] w[i]) by {
                assert(is_alnum(s[i]));
            }
        }
        if joined(w, false) {
            assert forall|i: int| 0 <= i < s.len() implies is_alnum(#[trigger] s[i]) by {
                assert(is_alnum(w[i]));
            }
        }
    }
}

impl std::str::FromStr for Convention {
    type Err = UnknownConvention;

    /// Parses a convention identifier as [`Convention::parse`] does.
    fn from_str(s: &str) -> (r: Result<Convention, UnknownConvention>)
        ensures
            match convention_named(s@) {
                Some(c) => r == Ok::<Convention, UnknownConvention>(c),
                None => r matches Err(UnknownConvention(v)) && v@ == s@,
            },
    {
        Convention::parse(s)
    }
}

} // verus!
