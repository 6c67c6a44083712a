//! Parsing of raw annotations into per-record and per-field configurations.
//!
//! The code-generation host hands this library, for a record and for each of
//! its fields, a bag of raw annotation entries: a key with an optional value.
//! The parsers here validate the recognized option names scope by scope and
//! fold the entries into a [`ContainerAttributes`] (record scope) or a
//! [`FieldAttributes`] (field scope) configuration. Every failure is exact:
//! the contracts say which entry is rejected, and why.

use vstd::prelude::*;

use crate::error::{Error, ErrorKind, ErrorModel};
use crate::rename::{casing_rule_of, spec_apply, str_eq, RenameAll};

verus! {

/// One raw annotation entry: a key paired with a value shape.
#[derive(Debug)]
pub struct Annotation {
    /// The option name, such as `rename_all` or `skip`.
    pub key: String,
    /// The value the entry carries, if any.
    pub value: AnnotationValue,
}

/// The shape of an annotation entry's value.
#[derive(Debug)]
pub enum AnnotationValue {
    /// The key stands alone, as in `skip`.
    Flag,
    /// The key is assigned a string literal, as in `rename_all = "kebab-case"`.
    Str(String),
    /// The key carries nested entries, as in `flatten(delim = "/")`.
    List(Vec<NestedAnnotation>),
    /// Anything else the host cannot represent as one of the above.
    Other,
}

/// A nested annotation entry, one level below a key.
#[derive(Debug)]
pub struct NestedAnnotation {
    /// The nested option name, such as `delim`.
    pub key: String,
    /// The value the nested entry carries, if any.
    pub value: NestedValue,
}

/// The shape of a nested entry's value.
#[derive(Debug)]
pub enum NestedValue {
    /// The nested key stands alone.
    Flag,
    /// The nested key is assigned a string literal.
    Str(String),
    /// Anything else.
    Other,
}

/// The record-level configuration: one casing rule for the field names,
/// together with the name of the host annotation it was read from.
#[derive(Debug)]
pub struct ContainerAttributes {
    attribute: String,
    rename_all: RenameAll,
}

/// The mathematical value of a [`ContainerAttributes`].
pub struct RecordConfig {
    /// The host annotation name the configuration was read from.
    pub attribute: Seq<char>,
    /// The casing rule for all non-overridden, non-skipped fields.
    pub rename_all: RenameAll,
}

impl View for ContainerAttributes {
    type V = RecordConfig;

    closed spec fn view(&self) -> RecordConfig {
        RecordConfig { attribute: self.attribute@, rename_all: self.rename_all }
    }
}

/// The flatten directive of a field: an extension point, parsed and stored
/// but not expanded by the name transformation engine.
#[derive(Debug)]
pub struct Flatten {
    /// The delimiter to put between the outer and the nested names.
    pub delim: Option<String>,
}

/// The mathematical value of a [`Flatten`].
pub struct FlattenConfig {
    /// The delimiter, if one was given.
    pub delim: Option<Seq<char>>,
}

impl View for Flatten {
    type V = FlattenConfig;

    open spec fn view(&self) -> FlattenConfig {
        FlattenConfig {
            delim: match self.delim {
                Some(d) => Some(d@),
                None => None,
            },
        }
    }
}

impl Default for Flatten {
    /// The bare `flatten` directive: no delimiter.
    fn default() -> (r: Flatten)
        ensures
            r@ == (FlattenConfig { delim: None }),
    {
        Flatten { delim: None }
    }
}

impl Clone for Flatten {
    fn clone(&self) -> (r: Flatten)
        ensures
            r@ == self@,
    {
        Flatten {
            delim: match &self.delim {
                Some(d) => Some(d.clone()),
                None => None,
            },
        }
    }
}

/// The field-level configuration: whether the field is skipped, an optional
/// explicit rename that overrides the record's casing rule, and an optional
/// flatten directive.
#[derive(Debug)]
pub struct FieldAttributes {
    attribute: String,
    skip: bool,
    rename: Option<String>,
    flatten: Option<Flatten>,
}

/// The mathematical value of a [`FieldAttributes`].
pub struct FieldConfig {
    /// Whether the field is omitted from the output.
    pub skip: bool,
    /// The explicit output name, overriding the record's casing rule.
    pub rename: Option<Seq<char>>,
    /// The flatten directive, if the field carries one.
    pub flatten: Option<FlattenConfig>,
}

impl View for FieldAttributes {
    type V = FieldConfig;

    closed spec fn view(&self) -> FieldConfig {
        FieldConfig {
            skip: self.skip,
            rename: match self.rename {
                Some(n) => Some(n@),
                None => None,
            },
            flatten: match self.flatten {
                Some(f) => Some(f@),
                None => None,
            },
        }
    }
}

/// The field configuration before any annotation is applied.
pub open spec fn default_field_config() -> FieldConfig {
    FieldConfig { skip: false, rename: None, flatten: None }
}

/// What one record-scope annotation entry does to the casing rule.
pub open spec fn record_step(rule: RenameAll, a: Annotation) -> Result<RenameAll, ErrorModel> {
    if a.key@ == "skip"@ {
        Err(ErrorModel { kind: ErrorKind::WrongScope, key: a.key@, field: None })
    } else if a.key@ == "rename_all"@ {
        match a.value {
            AnnotationValue::Str(s) => match casing_rule_of(s@) {
                Some(r) => Ok(r),
                None => Err(ErrorModel { kind: ErrorKind::UnknownCasingRule, key: s@, field: None }),
            },
            _ => Err(ErrorModel { kind: ErrorKind::MalformedValue, key: a.key@, field: None }),
        }
    } else {
        Err(ErrorModel { kind: ErrorKind::UnknownOption, key: a.key@, field: None })
    }
}

/// Folds record-scope entries left to right: the last `rename_all` wins,
/// and the first rejected entry aborts the record.
pub open spec fn record_fold(rule: RenameAll, entries: Seq<Annotation>) -> Result<
    RenameAll,
    ErrorModel,
>
    decreases entries.len(),
{
    if entries.len() == 0 {
        Ok(rule)
    } else {
        match record_step(rule, entries[0]) {
            Ok(r) => record_fold(r, entries.drop_first()),
            Err(e) => Err(e),
        }
    }
}

/// What one nested entry under `flatten` does to the delimiter.
pub open spec fn flatten_step(delim: Option<Seq<char>>, n: NestedAnnotation) -> Result<
    Option<Seq<char>>,
    ErrorModel,
> {
    if n.key@ == "delim"@ {
        match n.value {
            NestedValue::Str(s) => Ok(Some(s@)),
            _ => Err(ErrorModel { kind: ErrorKind::MalformedValue, key: n.key@, field: None }),
        }
    } else {
        Err(ErrorModel { kind: ErrorKind::UnknownOption, key: n.key@, field: None })
    }
}

/// Folds the nested entries of a `flatten(...)` annotation.
pub open spec fn flatten_fold(delim: Option<Seq<char>>, entries: Seq<NestedAnnotation>) -> Result<
    Option<Seq<char>>,
    ErrorModel,
>
    decreases entries.len(),
{
    if entries.len() == 0 {
        Ok(delim)
    } else {
        match flatten_step(delim, entries[0]) {
            Ok(d) => flatten_fold(d, entries.drop_first()),
            Err(e) => Err(e),
        }
    }
}

/// What one field-scope annotation entry does to the field configuration.
pub open spec fn field_step(cfg: FieldConfig, a: Annotation) -> Result<FieldConfig, ErrorModel> {
    if a.key@ == "rename_all"@ {
        Err(ErrorModel { kind: ErrorKind::WrongScope, key: a.key@, field: None })
    } else if a.key@ == "skip"@ {
        match a.value {
            AnnotationValue::Flag => Ok(FieldConfig { skip: true, ..cfg }),
            _ => Err(ErrorModel { kind: ErrorKind::MalformedValue, key: a.key@, field: None }),
        }
    } else if a.key@ == "rename"@ {
        match a.value {
            AnnotationValue::Str(s) => Ok(FieldConfig { rename: Some(s@), ..cfg }),
            _ => Err(ErrorModel { kind: ErrorKind::MalformedValue, key: a.key@, field: None }),
        }
    } else if a.key@ == "flatten"@ {
        match a.value {
            AnnotationValue::Flag => Ok(
                FieldConfig { flatten: Some(FlattenConfig { delim: None }), ..cfg },
            ),
            AnnotationValue::List(nested) => match flatten_fold(None, nested@) {
                Ok(d) => Ok(FieldConfig { flatten: Some(FlattenConfig { delim: d }), ..cfg }),
                Err(e) => Err(e),
            },
            _ => Err(ErrorModel { kind: ErrorKind::MalformedValue, key: a.key@, field: None }),
        }
    } else {
        Err(ErrorModel { kind: ErrorKind::UnknownOption, key: a.key@, field: None })
    }
}

/// Folds field-scope entries left to right: `skip` is idempotent, the last
/// `rename` and `flatten` win, and the first rejected entry aborts.
pub open spec fn field_fold(cfg: FieldConfig, entries: Seq<Annotation>) -> Result<
    FieldConfig,
    ErrorModel,
>
    decreases entries.len(),
{
    if entries.len() == 0 {
        Ok(cfg)
    } else {
        match field_step(cfg, entries[0]) {
            Ok(c) => field_fold(c, entries.drop_first()),
            Err(e) => Err(e),
        }
    }
}

impl ContainerAttributes {
    /// The record configuration before any annotation is applied: the
    /// identity casing rule.
    pub fn default_for(attribute: &str) -> (r: ContainerAttributes)
        ensures
            r@ == (RecordConfig { attribute: attribute@, rename_all: RenameAll::Snake }),
    {
        ContainerAttributes { attribute: attribute.to_owned(), rename_all: RenameAll::Snake }
    }

    /// Applies one record-scope annotation entry to the configuration.
    /// `skip` is recognized but field-only, so it is a wrong-scope error;
    /// `rename_all` wants a string naming one of the casing rules; every
    /// other key is unknown at record scope.
    pub fn parse_attribute(&mut self, a: &Annotation) -> (r: Result<(), Error>)
        ensures
            final(self)@.attribute == old(self)@.attribute,
            match r {
                Ok(()) => record_step(old(self)@.rename_all, *a) == Ok::<RenameAll, ErrorModel>(final(self)@.rename_all),
                Err(e) => record_step(old(self)@.rename_all, *a) == Err::<RenameAll, _>(e@)
                    && final(self)@ == old(self)@,
            },
    {
        if str_eq(a.key.as_str(), "skip") {
            Err(Error::new(ErrorKind::WrongScope, a.key.clone()))
        } else if str_eq(a.key.as_str(), "rename_all") {
            match &a.value {
                AnnotationValue::Str(s) => match RenameAll::from_str(s.as_str()) {
                    Ok(rule) => {
                        self.rename_all = rule;
                        Ok(())
                    },
                    Err(e) => Err(e),
                },
                _ => Err(Error::new(ErrorKind::MalformedValue, a.key.clone())),
            }
        } else {
            Err(Error::new(ErrorKind::UnknownOption, a.key.clone()))
        }
    }

    /// Parses a record's annotation entries, read from the host annotation
    /// named `attribute`, into the record configuration. Absence of any
    /// entry yields the default (identity) configuration.
    pub fn parse_attributes(attribute: &str, attributes: &Vec<Annotation>) -> (r: Result<
        ContainerAttributes,
        Error,
    >)
        ensures
            match r {
                Ok(c) => c@.attribute == attribute@ && record_fold(RenameAll::Snake, attributes@)
                    == Ok::<RenameAll, ErrorModel>(c@.rename_all),
                Err(e) => record_fold(RenameAll::Snake, attributes@) == Err::<RenameAll, _>(e@),
            },
    {
        let mut cfg = ContainerAttributes::default_for(attribute);
        let n = attributes.len();
        let mut i: usize = 0;
        proof {
            assert(attributes@.skip(0) =~= attributes@);
        }
        while i < n
            invariant
                n == attributes@.len(),
                i <= n,
                cfg@.attribute == attribute@,
                record_fold(RenameAll::Snake, attributes@) == record_fold(
                    cfg@.rename_all,
                    attributes@.skip(i as int),
                ),
            decreases n - i,
        {
            let step = cfg.parse_attribute(&attributes[i]);
            proof {
                assert(attributes@.skip(i as int)[0] == attributes@[i as int]);
                assert(attributes@.skip(i as int).drop_first() =~= attributes@.skip(i as int + 1));
            }
            match step {
                Ok(()) => {},
                Err(e) => {
                    return Err(e);
                },
            }
            i = i + 1;
        }
        proof {
            assert(attributes@.skip(n as int) =~= Seq::<Annotation>::empty());
        }
        Ok(cfg)
    }

    /// The host annotation name this configuration was read from.
    pub fn attribute(&self) -> (r: &str)
        ensures
            r@ == self@.attribute,
    {
        self.attribute.as_str()
    }

    /// Applies the record's casing rule to one field identifier.
    pub fn apply_to_field(&self, field: &str) -> (r: String)
        ensures
            r@ == spec_apply(self@.rename_all, field@),
    {
        self.rename_all.rename_field(field)
    }
}

/// Parses the nested entries of a `flatten(...)` annotation: only `delim`
/// with a string value is recognized.
fn parse_flatten(nested: &Vec<NestedAnnotation>) -> (r: Result<Flatten, Error>)
    ensures
        match r {
            Ok(f) => flatten_fold(None, nested@) == Ok::<Option<Seq<char>>, ErrorModel>(f@.delim),
            Err(e) => flatten_fold(None, nested@) == Err::<Option<Seq<char>>, ErrorModel>(e@),
        },
{
    let mut delim: Option<String> = None;
    let n = nested.len();
    let mut i: usize = 0;
    proof {
        assert(nested@.skip(0) =~= nested@);
    }
    while i < n
        invariant
            n == nested@.len(),
            i <= n,
            flatten_fold(None, nested@) == flatten_fold(
                match delim {
                    Some(d) => Some(d@),
                    None => None,
                },
                nested@.skip(i as int),
            ),
        decreases n - i,
    {
        let entry = &nested[i];
        proof {
            assert(nested@.skip(i as int)[0] == nested@[i as int]);
            assert(nested@.skip(i as int).drop_first() =~= nested@.skip(i as int + 1));
        }
        if str_eq(entry.key.as_str(), "delim") {
            match &entry.value {
                NestedValue::Str(s) => {
                    delim = Some(s.clone());
                },
                _ => {
                    return Err(Error::new(ErrorKind::MalformedValue, entry.key.clone()));
                },
            }
        } else {
            return Err(Error::new(ErrorKind::UnknownOption, entry.key.clone()));
        }
        i = i + 1;
    }
    proof {
        assert(nested@.skip(n as int) =~= Seq::<NestedAnnotation>::empty());
    }
    Ok(Flatten { delim })
}

impl FieldAttributes {
    /// The field configuration before any annotation is applied: not
    /// skipped, no explicit rename, no flatten directive.
    pub fn default_for(attribute: &str) -> (r: FieldAttributes)
        ensures
            r@ == default_field_config(),
    {
        FieldAttributes { attribute: attribute.to_owned(), skip: false, rename: None, flatten: None }
    }

    /// Applies one field-scope annotation entry to the configuration.
    /// `rename_all` is recognized but record-only, so it is a wrong-scope
    /// error; `skip` wants a bare flag; `rename` wants a string; `flatten`
    /// wants a bare flag or nested entries; every other key is unknown at
    /// field scope.
    pub fn parse_attribute(&mut self, a: &Annotation) -> (r: Result<(), Error>)
        ensures
            match r {
                Ok(()) => field_step(old(self)@, *a) == Ok::<FieldConfig, ErrorModel>(
                    final(self)@,
                ),
                Err(e) => field_step(old(self)@, *a) == Err::<FieldConfig, ErrorModel>(e@)
                    && final(self)@ == old(self)@,
            },
    {
        if str_eq(a.key.as_str(), "rename_all") {
            Err(Error::new(ErrorKind::WrongScope, a.key.clone()))
        } else if str_eq(a.key.as_str(), "skip") {
            match &a.value {
                AnnotationValue::Flag => {
                    self.skip = true;
                    Ok(())
                },
                _ => Err(Error::new(ErrorKind::MalformedValue, a.key.clone())),
            }
        } else if str_eq(a.key.as_str(), "rename") {
            match &a.value {
                AnnotationValue::Str(s) => {
                    self.rename = Some(s.clone());
                    Ok(())
                },
                _ => Err(Error::new(ErrorKind::MalformedValue, a.key.clone())),
            }
        } else if str_eq(a.key.as_str(), "flatten") {
            match &a.value {
                AnnotationValue::Flag => {
                    self.flatten = Some(Flatten::default());
                    Ok(())
                },
                AnnotationValue::List(nested) => match parse_flatten(nested) {
                    Ok(f) => {
                        self.flatten = Some(f);
                        Ok(())
                    },
                    Err(e) => Err(e),
                },
                _ => Err(Error::new(ErrorKind::MalformedValue, a.key.clone())),
            }
        } else {
            Err(Error::new(ErrorKind::UnknownOption, a.key.clone()))
        }
    }

    /// Parses one field's annotation entries, read from the host annotation
    /// named `attribute`, into the field configuration. Absence of any entry
    /// yields the default configuration.
    pub fn parse_attributes(attribute: &str, attributes: &Vec<Annotation>) -> (r: Result<
        FieldAttributes,
        Error,
    >)
        ensures
            match r {
                Ok(f) => field_fold(default_field_config(), attributes@) == Ok::<
                    FieldConfig,
                    ErrorModel,
                >(f@),
                Err(e) => field_fold(default_field_config(), attributes@) == Err::<
                    FieldConfig,
                    ErrorModel,
                >(e@),
            },
    {
        let mut cfg = FieldAttributes::default_for(attribute);
        let n = attributes.len();
        let mut i: usize = 0;
        proof {
            assert(attributes@.skip(0) =~= attributes@);
        }
        while i < n
            invariant
                n == attributes@.len(),
                i <= n,
                field_fold(default_field_config(), attributes@) == field_fold(
                    cfg@,
                    attributes@.skip(i as int),
                ),
            decreases n - i,
        {
            let step = cfg.parse_attribute(&attributes[i]);
            proof {
                assert(attributes@.skip(i as int)[0] == attributes@[i as int]);
                assert(attributes@.skip(i as int).drop_first() =~= attributes@.skip(i as int + 1));
            }
            match step {
                Ok(()) => {},
                Err(e) => {
                    return Err(e);
                },
            }
            i = i + 1;
        }
        proof {
            assert(attributes@.skip(n as int) =~= Seq::<Annotation>::empty());
        }
        Ok(cfg)
    }

    /// The candidate output name for a field whose identifier, with the
    /// record's casing rule already applied, is `field`: nothing when the
    /// field is skipped, the explicit rename verbatim when one was given,
    /// and `field` itself otherwise.
    pub fn apply_to_field(&self, field: &str) -> (r: Option<String>)
        ensures
            match r {
                Some(s) => !self@.skip && s@ == match self@.rename {
                    Some(n) => n,
                    None => field@,
                },
                None => self@.skip,
            },
    {
        if self.skip {
            return None;
        }
        match &self.rename {
            Some(n) => Some(n.clone()),
            None => Some(field.to_owned()),
        }
    }

    /// Whether the field is omitted from the output.
    pub fn skip(&self) -> (r: bool)
        ensures
            r == self@.skip,
    {
        self.skip
    }

    /// The explicit output name for the field, if one was given.
    pub fn rename(&self) -> (r: Option<&String>)
        ensures
            match r {
                Some(n) => self@.rename == Some(n@),
                None => self@.rename is None,
            },
    {
        self.rename.as_ref()
    }

    /// The flatten directive, if the field carries one.
    pub fn flatten(&self) -> (r: Option<&Flatten>)
        ensures
            match r {
                Some(f) => self@.flatten == Some(f@),
                None => self@.flatten is None,
            },
    {
        self.flatten.as_ref()
    }
}

} // verus!
