//! The round-trip table: the identifiers `field_one`, `field_two`,
//! `field_three` under each of the casing rules.

use struct_field_names_as_array::{
    field_names, Annotation, AnnotationValue, ContainerAttributes, RawField,
};

fn rename_all_annotation(rule: &str) -> Vec<Annotation> {
    vec![Annotation {
        key: "rename_all".to_string(),
        value: AnnotationValue::Str(rule.to_string()),
    }]
}

fn three_fields() -> Vec<RawField> {
    ["field_one", "field_two", "field_three"]
        .iter()
        .map(|n| RawField {
            name: Some(n.to_string()),
            annotations: vec![],
        })
        .collect()
}

fn transform(attribute: &str, rule: &str) -> Vec<String> {
    let container =
        ContainerAttributes::parse_attributes(attribute, &rename_all_annotation(rule)).unwrap();
    field_names(&three_fields(), &container).unwrap()
}

#[test]
fn test_rename_lowercase() {
    assert_eq!(
        transform("field_names_as_array", "lowercase"),
        ["field_one", "field_two", "field_three"],
    );
}

#[test]
fn rename_all_test_rename_lowercase() {
    assert_eq!(
        transform("field_names_as_array", "lowercase"),
        ["field_one", "field_two", "field_three"],
    );
    assert_eq!(
        transform("field_names_as_slice", "lowercase"),
        ["field_one", "field_two", "field_three"],
    );
}

#[test]
fn test_rename_uppercase() {
    assert_eq!(
        transform("field_names_as_array", "UPPERCASE"),
        ["FIELD_ONE", "FIELD_TWO", "FIELD_THREE"],
    );
}

#[test]
fn rename_all_test_rename_uppercase() {
    assert_eq!(
        transform("field_names_as_array", "UPPERCASE"),
        ["FIELD_ONE", "FIELD_TWO", "FIELD_THREE"],
    );
    assert_eq!(
        transform("field_names_as_slice", "UPPERCASE"),
        ["FIELD_ONE", "FIELD_TWO", "FIELD_THREE"],
    );
}

#[test]
fn test_rename_pascal_case() {
    assert_eq!(
        transform("field_names_as_array", "PascalCase"),
        ["FieldOne", "FieldTwo", "FieldThree"],
    );
}

#[test]
fn rename_all_test_rename_pascal_case() {
    assert_eq!(
        transform("field_names_as_array", "PascalCase"),
        ["FieldOne", "FieldTwo", "FieldThree"],
    );
    assert_eq!(
        transform("field_names_as_slice", "PascalCase"),
        ["FieldOne", "FieldTwo", "FieldThree"],
    );
}

#[test]
fn test_rename_camel_case() {
    assert_eq!(
        transform("field_names_as_array", "camelCase"),
        ["fieldOne", "fieldTwo", "fieldThree"],
    );
}

#[test]
fn rename_all_test_rename_camel_case() {
    assert_eq!(
        transform("field_names_as_array", "camelCase"),
        ["fieldOne", "fieldTwo", "fieldThree"],
    );
    assert_eq!(
        transform("field_names_as_slice", "camelCase"),
        ["fieldOne", "fieldTwo", "fieldThree"],
    );
}

#[test]
fn test_rename_snake_case() {
    assert_eq!(
        transform("field_names_as_array", "snake_case"),
        ["field_one", "field_two", "field_three"],
    );
}

#[test]
fn rename_all_test_rename_snake_case() {
    assert_eq!(
        transform("field_names_as_array", "snake_case"),
        ["field_one", "field_two", "field_three"],
    );
    assert_eq!(
        transform("field_names_as_slice", "snake_case"),
        ["field_one", "field_two", "field_three"],
    );
}

#[test]
fn test_rename_screaming_snake_case() {
    assert_eq!(
        transform("field_names_as_array", "SCREAMING_SNAKE_CASE"),
        ["FIELD_ONE", "FIELD_TWO", "FIELD_THREE"],
    );
}

#[test]
fn rename_all_test_rename_screaming_snake_case() {
    assert_eq!(
        transform("field_names_as_array", "SCREAMING_SNAKE_CASE"),
        ["FIELD_ONE", "FIELD_TWO", "FIELD_THREE"],
    );
    assert_eq!(
        transform("field_names_as_slice", "SCREAMING_SNAKE_CASE"),
        ["FIELD_ONE", "FIELD_TWO", "FIELD_THREE"],
    );
}

#[test]
fn test_rename_kebab_case() {
    assert_eq!(
        transform("field_names_as_array", "kebab-case"),
        ["field-one", "field-two", "field-three"],
    );
}

#[test]
fn rename_all_test_rename_kebab_case() {
    assert_eq!(
        transform("field_names_as_array", "kebab-case"),
        ["field-one", "field-two", "field-three"],
    );
}

#[test]
fn test_rename_screaming_kebab_case() {
    assert_eq!(
        transform("field_names_as_array", "SCREAMING-KEBAB-CASE"),
        ["FIELD-ONE", "FIELD-TWO", "FIELD-THREE"],
    );
}

#[test]
fn rename_all_test_rename_screaming_kebab_case() {
    assert_eq!(
        transform("field_names_as_array", "SCREAMING-KEBAB-CASE"),
        ["FIELD-ONE", "FIELD-TWO", "FIELD-THREE"],
    );
    assert_eq!(
        transform("field_names_as_slice", "SCREAMING-KEBAB-CASE"),
        ["FIELD-ONE", "FIELD-TWO", "FIELD-THREE"],
    );
}
