//! Tests of [`Convention`]: parsing, display, and stem validation.

use convention_lint::convention::{Convention, UnknownConvention};

#[test]
fn parse_all_known_variants() {
    let cases: &[(&str, Convention)] = &[
        ("snake_case", Convention::SnakeCase),
        ("CamelCase", Convention::CamelCase),
        ("PascalCase", Convention::CamelCase), // accepted alias
        ("camelCase", Convention::LowerCamelCase),
        ("SCREAMING_SNAKE_CASE", Convention::ScreamingSnakeCase),
        ("kebab-case", Convention::KebabCase),
    ];
    for &(input, ref expected) in cases {
        let parsed: Convention = input
            .parse()
            .unwrap_or_else(|_| panic!("failed to parse `{input}`"));
        assert_eq!(&parsed, expected, "input: `{input}`");
    }
}

#[test]
fn parse_unknown_returns_err() {
    let bad = ["UNKNOWN", "", "snake-case", "camel_case", "Pascal_Case"];
    for input in bad {
        let result = input.parse::<Convention>();
        assert!(
            result.is_err(),
            "`{input}` should have been rejected but parsed successfully"
        );
        let err = result.unwrap_err();
        assert!(
            matches!(err, UnknownConvention(_)),
            "unexpected error type for `{input}`"
        );
    }
}

#[test]
fn display_roundtrip() {
    let variants = [
        Convention::SnakeCase,
        Convention::CamelCase,
        Convention::LowerCamelCase,
        Convention::ScreamingSnakeCase,
        Convention::KebabCase,
    ];
    for variant in variants {
        let s = variant.to_string();
        let parsed: Convention = s
            .parse()
            .unwrap_or_else(|_| panic!("`{s}` could not be round-tripped"));
        assert_eq!(parsed, variant, "round-trip failed for `{s}`");
    }
}

#[test]
fn as_str_matches_display() {
    let variants = [
        Convention::SnakeCase,
        Convention::CamelCase,
        Convention::LowerCamelCase,
        Convention::ScreamingSnakeCase,
        Convention::KebabCase,
    ];
    for variant in &variants {
        assert_eq!(variant.as_str(), variant.to_string().as_str());
    }
}

#[test]
fn valid_stems() {
    let valid = ["hello", "hello_world", "foo123", "a", "a1_b2"];
    for stem in valid {
        assert!(Convention::SnakeCase.is_valid(stem), "`{stem}` should be valid snake_case");
    }
}

#[test]
fn invalid_stems() {
    let invalid = [
        ("", "empty"),
        ("Hello", "uppercase first"),
        ("helloWorld", "camelCase"),
        ("hello__world", "double underscore"),
        ("hello_", "trailing underscore"),
        ("_hello", "leading underscore"),
        ("hello world", "space"),
        ("hello-world", "hyphen"),
    ];
    for (stem, reason) in invalid {
        assert!(
            !Convention::SnakeCase.is_valid(stem),
            "`{stem}` should NOT be valid snake_case ({reason})"
        );
    }
}

#[test]
fn convention_valid_stems() {
    let valid = ["MyService", "Foo", "FooBar", "A", "Foo123"];
    for stem in valid {
        assert!(Convention::CamelCase.is_valid(stem), "`{stem}` should be valid CamelCase");
    }
}

#[test]
fn convention_invalid_stems() {
    let invalid = [
        ("", "empty"),
        ("my_service", "snake_case"),
        ("myService", "lowerCamelCase"),
        ("My_Service", "underscore"),
        ("My-Service", "hyphen"),
    ];
    for (stem, reason) in invalid {
        assert!(
            !Convention::CamelCase.is_valid(stem),
            "`{stem}` should NOT be valid CamelCase ({reason})"
        );
    }
}

#[test]
fn lower_camel_case_valid_stems() {
    let valid = ["myService", "foo", "fooBar", "a", "foo123"];
    for stem in valid {
        assert!(Convention::LowerCamelCase.is_valid(stem), "`{stem}` should be valid camelCase");
    }
}

#[test]
fn lower_camel_case_invalid_stems() {
    let invalid = [
        ("", "empty"),
        ("MyService", "UpperCamelCase"),
        ("my_service", "snake with underscore"),
        ("my-service", "kebab"),
    ];
    for (stem, reason) in invalid {
        assert!(
            !Convention::LowerCamelCase.is_valid(stem),
            "`{stem}` should NOT be valid camelCase ({reason})"
        );
    }
}

#[test]
fn screaming_snake_case_valid_stems() {
    let valid = ["MY_CONST", "FOO", "FOO_BAR", "A", "FOO_123"];
    for stem in valid {
        assert!(Convention::ScreamingSnakeCase.is_valid(stem), "`{stem}` should be valid SCREAMING_SNAKE_CASE");
    }
}

#[test]
fn screaming_snake_case_invalid_stems() {
    let invalid = [
        ("", "empty"),
        ("my_const", "lowercase"),
        ("My_Const", "mixed case"),
        ("FOO__BAR", "double underscore"),
        ("FOO_", "trailing underscore"),
    ];
    for (stem, reason) in invalid {
        assert!(
            !Convention::ScreamingSnakeCase.is_valid(stem),
            "`{stem}` should NOT be valid SCREAMING_SNAKE_CASE ({reason})"
        );
    }
}

#[test]
fn kebab_case_valid_stems() {
    let valid = ["my-service", "foo", "foo-bar", "a", "foo-123"];
    for stem in valid {
        assert!(Convention::KebabCase.is_valid(stem), "`{stem}` should be valid kebab-case");
    }
}

#[test]
fn kebab_case_invalid_stems() {
    let invalid = [
        ("", "empty"),
        ("My-Service", "uppercase"),
        ("my_service", "underscore"),
        ("my--service", "double hyphen"),
        ("my-service-", "trailing hyphen"),
    ];
    for (stem, reason) in invalid {
        assert!(
            !Convention::KebabCase.is_valid(stem),
            "`{stem}` should NOT be valid kebab-case ({reason})"
        );
    }
}

#[test]
fn as_str_gives_canonical_names() {
    assert_eq!(Convention::SnakeCase.as_str(), "snake_case");
    assert_eq!(Convention::CamelCase.as_str(), "CamelCase");
    assert_eq!(Convention::LowerCamelCase.as_str(), "camelCase");
    assert_eq!(Convention::ScreamingSnakeCase.as_str(), "SCREAMING_SNAKE_CASE");
    assert_eq!(Convention::KebabCase.as_str(), "kebab-case");
}

#[test]
fn parse_refusal_carries_the_input() {
    assert_eq!(
        Convention::parse("WrongCase"),
        Err(UnknownConvention("WrongCase".to_string()))
    );
    assert_eq!(Convention::parse("pascalcase"), Err(UnknownConvention("pascalcase".to_string())));
    assert_eq!(Convention::parse("PascalCase"), Ok(Convention::CamelCase));
}

#[test]
fn unknown_convention_message() {
    let e = UnknownConvention("WrongCase".to_string());
    assert_eq!(
        e.to_string(),
        "unknown convention `WrongCase`; valid values: `snake_case`, `CamelCase`, `camelCase`, `SCREAMING_SNAKE_CASE`, `kebab-case`"
    );
}

#[test]
fn empty_stem_is_invalid_for_every_convention() {
    for c in [
        Convention::SnakeCase,
        Convention::CamelCase,
        Convention::LowerCamelCase,
        Convention::ScreamingSnakeCase,
        Convention::KebabCase,
    ] {
        assert!(!c.is_valid(""));
    }
}

#[test]
fn stems_outside_ascii_are_refused() {
    assert!(!Convention::SnakeCase.is_valid("café"));
    assert!(!Convention::CamelCase.is_valid("Ünïcode"));
    assert!(!Convention::KebabCase.is_valid("my-sérvice"));
    assert!(!Convention::CamelCase.is_valid("Foo.Bar"));
    assert!(!Convention::ScreamingSnakeCase.is_valid("1FOO"));
    assert!(!Convention::SnakeCase.is_valid("1foo"));
}

#[test]
fn first_letter_separates_conventions() {
    for stem in ["fooBar", "FooBar", "foo_bar", "FOO_BAR", "foo-bar", "foo", "FOO"] {
        assert!(
            !(Convention::CamelCase.is_valid(stem) && Convention::LowerCamelCase.is_valid(stem))
        );
        assert!(
            !(Convention::SnakeCase.is_valid(stem)
                && Convention::ScreamingSnakeCase.is_valid(stem))
        );
    }
}

#[test]
fn unseparated_stems_fit_several_conventions() {
    for stem in ["foo", "foo123", "a"] {
        assert!(Convention::SnakeCase.is_valid(stem));
        assert!(Convention::LowerCamelCase.is_valid(stem));
        assert!(Convention::KebabCase.is_valid(stem));
    }
    for stem in ["FOO", "FOO123", "A"] {
        assert!(Convention::ScreamingSnakeCase.is_valid(stem));
        assert!(Convention::CamelCase.is_valid(stem));
    }
}

fn swap_sep(s: &str) -> String {
    s.chars().map(|c| match c { '_' => '-', '-' => '_', c => c }).collect()
}

fn swap_case(s: &str) -> String {
    s.chars()
        .map(|c| {
            if c.is_ascii_uppercase() {
                c.to_ascii_lowercase()
            } else {
                c.to_ascii_uppercase()
            }
        })
        .collect()
}

fn swap_first(s: &str) -> String {
    let mut cs = s.chars();
    match cs.next() {
        Some(c) => swap_case(&c.to_string()) + cs.as_str(),
        None => String::new(),
    }
}

#[test]
fn conventions_correspond_under_swaps() {
    let stems = [
        "", "hello", "hello_world", "hello-world", "hello__world", "hello_", "_x", "MY_CONST",
        "My_Const", "FOO__BAR", "MyService", "myService", "Foo123", "a1_b2", "foo--bar", "ÄB",
    ];
    for s in stems {
        assert_eq!(
            Convention::SnakeCase.is_valid(s),
            Convention::KebabCase.is_valid(&swap_sep(s)),
            "{s}"
        );
        assert_eq!(
            Convention::ScreamingSnakeCase.is_valid(s),
            Convention::SnakeCase.is_valid(&swap_case(s)),
            "{s}"
        );
        assert_eq!(
            Convention::CamelCase.is_valid(s),
            Convention::LowerCamelCase.is_valid(&swap_first(s)),
            "{s}"
        );
    }
}
