//! The casing transformations on single identifiers.

use struct_field_names_as_array::RenameAll;

#[test]
fn rename_fields() {
    for &(original, upper, pascal, camel, screaming, kebab, screaming_kebab) in &[
        (
            "outcome", "OUTCOME", "Outcome", "outcome", "OUTCOME", "outcome", "OUTCOME",
        ),
        (
            "very_tasty",
            "VERY_TASTY",
            "VeryTasty",
            "veryTasty",
            "VERY_TASTY",
            "very-tasty",
            "VERY-TASTY",
        ),
        ("a", "A", "A", "a", "A", "a", "A"),
        ("z42", "Z42", "Z42", "z42", "Z42", "z42", "Z42"),
    ] {
        assert_eq!(RenameAll::Upper.apply(original), upper);
        assert_eq!(RenameAll::Pascal.apply(original), pascal);
        assert_eq!(RenameAll::Camel.apply(original), camel);
        assert_eq!(RenameAll::Snake.apply(original), original);
        assert_eq!(RenameAll::ScreamingSnake.apply(original), screaming);
        assert_eq!(RenameAll::Kebab.apply(original), kebab);
        assert_eq!(RenameAll::ScreamingKebab.apply(original), screaming_kebab);
    }
}

#[test]
fn attrs_rename_fields() {
    for &(original, upper, pascal, camel, screaming, kebab, screaming_kebab) in &[
        (
            "outcome", "OUTCOME", "Outcome", "outcome", "OUTCOME", "outcome", "OUTCOME",
        ),
        (
            "very_tasty",
            "VERY_TASTY",
            "VeryTasty",
            "veryTasty",
            "VERY_TASTY",
            "very-tasty",
            "VERY-TASTY",
        ),
        ("a", "A", "A", "a", "A", "a", "A"),
        ("z42", "Z42", "Z42", "z42", "Z42", "z42", "Z42"),
    ] {
        assert_eq!(RenameAll::Upper.rename_field(original), upper);
        assert_eq!(RenameAll::Pascal.rename_field(original), pascal);
        assert_eq!(RenameAll::Camel.rename_field(original), camel);
        assert_eq!(RenameAll::Snake.rename_field(original), original);
        assert_eq!(RenameAll::ScreamingSnake.rename_field(original), screaming);
        assert_eq!(RenameAll::Kebab.rename_field(original), kebab);
        assert_eq!(
            RenameAll::ScreamingKebab.rename_field(original),
            screaming_kebab
        );
    }
}

#[test]
fn lowercase_rule_is_identity() {
    assert_eq!(RenameAll::Lower.apply("very_tasty"), "very_tasty");
    assert_eq!(RenameAll::Lower.apply("z42"), "z42");
}

#[test]
fn empty_identifier_stays_empty() {
    assert_eq!(RenameAll::Pascal.apply(""), "");
    assert_eq!(RenameAll::Camel.apply(""), "");
    assert_eq!(RenameAll::Upper.apply(""), "");
    assert_eq!(RenameAll::Kebab.apply(""), "");
}

#[test]
fn underscores_only_vanish_under_pascal_and_camel() {
    assert_eq!(RenameAll::Pascal.apply("___"), "");
    assert_eq!(RenameAll::Camel.apply("___"), "");
    assert_eq!(RenameAll::Kebab.apply("___"), "---");
    assert_eq!(RenameAll::ScreamingKebab.apply("___"), "---");
}

#[test]
fn single_character_camel_is_lowercased() {
    assert_eq!(RenameAll::Camel.apply("x"), "x");
    assert_eq!(RenameAll::Pascal.apply("x"), "X");
}

#[test]
fn casing_is_deterministic() {
    for rule in [
        RenameAll::Lower,
        RenameAll::Upper,
        RenameAll::Pascal,
        RenameAll::Camel,
        RenameAll::Snake,
        RenameAll::ScreamingSnake,
        RenameAll::Kebab,
        RenameAll::ScreamingKebab,
    ] {
        assert_eq!(rule.apply("some_field_2"), rule.apply("some_field_2"));
    }
}

#[test]
fn from_str_accepts_exactly_the_eight_rule_names() {
    assert!(matches!(
        RenameAll::from_str("lowercase"),
        Ok(RenameAll::Lower)
    ));
    assert!(matches!(
        RenameAll::from_str("UPPERCASE"),
        Ok(RenameAll::Upper)
    ));
    assert!(matches!(
        RenameAll::from_str("PascalCase"),
        Ok(RenameAll::Pascal)
    ));
    assert!(matches!(
        RenameAll::from_str("camelCase"),
        Ok(RenameAll::Camel)
    ));
    assert!(matches!(
        RenameAll::from_str("snake_case"),
        Ok(RenameAll::Snake)
    ));
    assert!(matches!(
        RenameAll::from_str("SCREAMING_SNAKE_CASE"),
        Ok(RenameAll::ScreamingSnake)
    ));
    assert!(matches!(
        RenameAll::from_str("kebab-case"),
        Ok(RenameAll::Kebab)
    ));
    assert!(matches!(
        RenameAll::from_str("SCREAMING-KEBAB-CASE"),
        Ok(RenameAll::ScreamingKebab)
    ));
    assert!(RenameAll::from_str("UpperCase").is_err());
    assert!(RenameAll::from_str("").is_err());
}

#[test]
fn outputs_stay_within_each_rules_alphabet() {
    let ident = "very_tasty_42";
    let cases: [(RenameAll, fn(char) -> bool); 5] = [
        (RenameAll::Upper, |c| {
            c.is_ascii_uppercase() || c.is_ascii_digit() || c == '_'
        }),
        (RenameAll::Pascal, |c| c.is_ascii_alphanumeric()),
        (RenameAll::Camel, |c| c.is_ascii_alphanumeric()),
        (RenameAll::Kebab, |c| {
            c.is_ascii_lowercase() || c.is_ascii_digit() || c == '-'
        }),
        (RenameAll::ScreamingKebab, |c| {
            c.is_ascii_uppercase() || c.is_ascii_digit() || c == '-'
        }),
    ];
    for (rule, allowed) in cases {
        let out = rule.apply(ident);
        assert!(
            out.chars().all(allowed),
            "rule produced a character outside its alphabet: {out}"
        );
    }
}
