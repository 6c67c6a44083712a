//! Every way an annotation bag is rejected, and the context the error
//! carries. A single rejected entry aborts the whole record: no partial
//! output.

use struct_field_names_as_array::{
    field_names, Annotation, AnnotationValue, ContainerAttributes, ErrorKind, FieldAttributes,
    NestedAnnotation, NestedValue, RawField,
};

fn flag(key: &str) -> Annotation {
    Annotation {
        key: key.to_string(),
        value: AnnotationValue::Flag,
    }
}

fn string_entry(key: &str, value: &str) -> Annotation {
    Annotation {
        key: key.to_string(),
        value: AnnotationValue::Str(value.to_string()),
    }
}

fn default_container() -> ContainerAttributes {
    ContainerAttributes::parse_attributes("field_names_as_array", &vec![]).unwrap()
}

#[test]
fn skip_at_record_scope_is_wrong_scope() {
    let err =
        ContainerAttributes::parse_attributes("field_names_as_array", &vec![flag("skip")])
            .unwrap_err();
    assert_eq!(err.kind, ErrorKind::WrongScope);
    assert_eq!(err.key, "skip");
}

#[test]
fn rename_all_at_field_scope_is_wrong_scope() {
    let err = FieldAttributes::parse_attributes(
        "field_names_as_array",
        &vec![string_entry("rename_all", "UPPERCASE")],
    )
    .unwrap_err();
    assert_eq!(err.kind, ErrorKind::WrongScope);
    assert_eq!(err.key, "rename_all");
}

#[test]
fn rename_all_at_field_scope_aborts_the_record() {
    let fields = vec![
        RawField {
            name: Some("a".to_string()),
            annotations: vec![],
        },
        RawField {
            name: Some("b".to_string()),
            annotations: vec![string_entry("rename_all", "UPPERCASE")],
        },
    ];
    let err = field_names(&fields, &default_container()).unwrap_err();
    assert_eq!(err.kind, ErrorKind::WrongScope);
    assert_eq!(err.key, "rename_all");
    assert_eq!(err.field.as_deref(), Some("b"));
}

#[test]
fn unknown_casing_rule_is_rejected() {
    let err = ContainerAttributes::parse_attributes(
        "field_names_as_array",
        &vec![string_entry("rename_all", "Throatwobbler")],
    )
    .unwrap_err();
    assert_eq!(err.kind, ErrorKind::UnknownCasingRule);
    assert_eq!(err.key, "Throatwobbler");
}

#[test]
fn unknown_record_option_is_rejected() {
    let err = ContainerAttributes::parse_attributes(
        "field_names_as_array",
        &vec![string_entry("visibility", "pub")],
    )
    .unwrap_err();
    assert_eq!(err.kind, ErrorKind::UnknownOption);
    assert_eq!(err.key, "visibility");
}

#[test]
fn unknown_field_option_is_rejected() {
    let err = FieldAttributes::parse_attributes("field_names_as_array", &vec![flag("hide")])
        .unwrap_err();
    assert_eq!(err.kind, ErrorKind::UnknownOption);
    assert_eq!(err.key, "hide");
}

#[test]
fn rename_all_without_a_string_is_malformed() {
    let err =
        ContainerAttributes::parse_attributes("field_names_as_array", &vec![flag("rename_all")])
            .unwrap_err();
    assert_eq!(err.kind, ErrorKind::MalformedValue);
    assert_eq!(err.key, "rename_all");
}

#[test]
fn skip_with_a_value_is_malformed() {
    let err = FieldAttributes::parse_attributes(
        "field_names_as_array",
        &vec![string_entry("skip", "yes")],
    )
    .unwrap_err();
    assert_eq!(err.kind, ErrorKind::MalformedValue);
    assert_eq!(err.key, "skip");
}

#[test]
fn rename_without_a_string_is_malformed() {
    let err = FieldAttributes::parse_attributes("field_names_as_array", &vec![flag("rename")])
        .unwrap_err();
    assert_eq!(err.kind, ErrorKind::MalformedValue);
    assert_eq!(err.key, "rename");
}

#[test]
fn flatten_with_a_string_is_malformed() {
    let err = FieldAttributes::parse_attributes(
        "field_names_as_array",
        &vec![string_entry("flatten", "/")],
    )
    .unwrap_err();
    assert_eq!(err.kind, ErrorKind::MalformedValue);
    assert_eq!(err.key, "flatten");
}

#[test]
fn flatten_delim_without_a_string_is_malformed() {
    let entries = vec![Annotation {
        key: "flatten".to_string(),
        value: AnnotationValue::List(vec![NestedAnnotation {
            key: "delim".to_string(),
            value: NestedValue::Flag,
        }]),
    }];
    let err = FieldAttributes::parse_attributes("field_names_as_array", &entries).unwrap_err();
    assert_eq!(err.kind, ErrorKind::MalformedValue);
    assert_eq!(err.key, "delim");
}

#[test]
fn flatten_with_an_unknown_nested_key_is_rejected() {
    let entries = vec![Annotation {
        key: "flatten".to_string(),
        value: AnnotationValue::List(vec![NestedAnnotation {
            key: "prefix".to_string(),
            value: NestedValue::Str("/".to_string()),
        }]),
    }];
    let err = FieldAttributes::parse_attributes("field_names_as_array", &entries).unwrap_err();
    assert_eq!(err.kind, ErrorKind::UnknownOption);
    assert_eq!(err.key, "prefix");
}

#[test]
fn unnamed_field_is_an_unsupported_shape() {
    let fields = vec![RawField {
        name: None,
        annotations: vec![],
    }];
    let err = field_names(&fields, &default_container()).unwrap_err();
    assert_eq!(err.kind, ErrorKind::UnsupportedShape);
}

#[test]
fn flatten_is_parsed_and_stored() {
    let bare = FieldAttributes::parse_attributes("field_names_as_array", &vec![flag("flatten")])
        .unwrap();
    let directive = bare.flatten().unwrap();
    assert!(directive.delim.is_none());

    let entries = vec![Annotation {
        key: "flatten".to_string(),
        value: AnnotationValue::List(vec![NestedAnnotation {
            key: "delim".to_string(),
            value: NestedValue::Str("/".to_string()),
        }]),
    }];
    let with_delim =
        FieldAttributes::parse_attributes("field_names_as_array", &entries).unwrap();
    let directive = with_delim.flatten().unwrap();
    assert_eq!(directive.delim.as_deref(), Some("/"));
}

#[test]
fn error_in_any_field_leaves_no_partial_output() {
    let fields = vec![
        RawField {
            name: Some("a".to_string()),
            annotations: vec![],
        },
        RawField {
            name: Some("b".to_string()),
            annotations: vec![flag("bogus")],
        },
    ];
    assert!(field_names(&fields, &default_container()).is_err());
}
