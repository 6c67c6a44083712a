//! The name transformation engine.
//!
//! Given the record-level configuration and the ordered list of fields, each
//! with its raw annotation entries, the engine produces the ordered list of
//! output names: skipped fields are elided, an explicit rename is taken
//! verbatim, and every other field gets the record's casing rule applied to
//! its identifier. Output order equals declaration order; a single rejected
//! annotation aborts the whole record with no partial output.

use vstd::prelude::*;

use crate::attrs::{
    default_field_config, field_fold, ContainerAttributes, FieldAttributes, FieldConfig, Flatten,
    FlattenConfig, Annotation,
};
use crate::error::{Error, ErrorKind, ErrorModel};
use crate::rename::{spec_apply, RenameAll};

verus! {

/// A field as the code-generation host hands it over: its identifier, if the
/// field has one, and its raw annotation entries. A field without an
/// identifier (a positional field) is a shape this library does not support.
#[derive(Debug)]
pub struct RawField {
    /// The field identifier, absent for a positional field.
    pub name: Option<String>,
    /// The field's raw annotation entries.
    pub annotations: Vec<Annotation>,
}

/// The candidate output name of one field: nothing when the configuration
/// skips it, the explicit rename verbatim when one was given, and the
/// record's casing rule applied to the identifier otherwise.
pub open spec fn spec_field_output(rule: RenameAll, cfg: FieldConfig, name: Seq<char>) -> Option<
    Seq<char>,
> {
    if cfg.skip {
        None
    } else {
        Some(
            match cfg.rename {
                Some(n) => n,
                None => spec_apply(rule, name),
            },
        )
    }
}

/// Attributes a parse error to the field whose annotations caused it.
pub open spec fn attribute_error(e: ErrorModel, name: Option<String>) -> ErrorModel {
    ErrorModel {
        field: match name {
            Some(n) => Some(n@),
            None => None,
        },
        ..e
    }
}

/// The error for a field without an identifier.
pub open spec fn unsupported_shape_error() -> ErrorModel {
    ErrorModel { kind: ErrorKind::UnsupportedShape, key: Seq::empty(), field: None }
}

/// The ordered output names of a field list under a casing rule, or the
/// first error. Order is preserved: each non-skipped field contributes
/// exactly one name, in declaration order.
pub open spec fn spec_field_names(rule: RenameAll, fields: Seq<RawField>) -> Result<
    Seq<Seq<char>>,
    ErrorModel,
>
    decreases fields.len(),
{
    if fields.len() == 0 {
        Ok(Seq::empty())
    } else {
        let f = fields[0];
        match field_fold(default_field_config(), f.annotations@) {
            Err(e) => Err(attribute_error(e, f.name)),
            Ok(cfg) => match f.name {
                None => Err(unsupported_shape_error()),
                Some(name) => match spec_field_names(rule, fields.drop_first()) {
                    Err(e) => Err(e),
                    Ok(tail) => match spec_field_output(rule, cfg, name@) {
                        None => Ok(tail),
                        Some(out) => Ok(seq![out] + tail),
                    },
                },
            },
        }
    }
}

/// Transforms a record's field list: parses each field's annotation entries
/// and produces the ordered output names, or the first error, attributed to
/// its field. The whole record is aborted on any error: no partial output.
pub fn field_names(fields: &Vec<RawField>, container_attributes: &ContainerAttributes) -> (r:
    Result<Vec<String>, Error>)
    ensures
        match r {
            Ok(v) => spec_field_names(container_attributes@.rename_all, fields@) == Ok::<
                _,
                ErrorModel,
            >(v.deep_view()),
            Err(e) => spec_field_names(container_attributes@.rename_all, fields@) == Err::<
                Seq<Seq<char>>,
                _,
            >(e@),
        },
{
    let ghost rule = container_attributes@.rename_all;
    let mut res: Vec<String> = Vec::new();
    let n = fields.len();
    let mut i: usize = 0;
    proof {
        assert(fields@.skip(0) =~= fields@);
        assert(res.deep_view() =~= Seq::<Seq<char>>::empty());
    }
    while i < n
        invariant
            n == fields@.len(),
            i <= n,
            rule == container_attributes@.rename_all,
            spec_field_names(rule, fields@) == match spec_field_names(rule, fields@.skip(i as int)) {
                Ok(t) => Ok::<_, ErrorModel>(res.deep_view() + t),
                Err(e) => Err::<Seq<Seq<char>>, _>(e),
            },
        decreases n - i,
    {
        let f = &fields[i];
        proof {
            assert(fields@.skip(i as int)[0] == fields@[i as int]);
            assert(fields@.skip(i as int).drop_first() =~= fields@.skip(i as int + 1));
        }
        let field_attributes = match FieldAttributes::parse_attributes(
            container_attributes.attribute(),
            &f.annotations,
        ) {
            Ok(fa) => fa,
            Err(e) => {
                let field = match &f.name {
                    Some(name) => Some(name.clone()),
                    None => None,
                };
                return Err(Error { kind: e.kind, key: e.key, field });
            },
        };
        let name = match &f.name {
            Some(name) => name,
            None => {
                return Err(Error { kind: ErrorKind::UnsupportedShape, key: String::new(), field: None });
            },
        };
        let transformed = container_attributes.apply_to_field(name.as_str());
        let ghost prev = res.deep_view();
        match field_attributes.apply_to_field(transformed.as_str()) {
            Some(out) => {
                let ghost out_chars = out@;
                res.push(out);
                proof {
                    assert(res.deep_view() =~= prev.push(out_chars));
                    let rest = spec_field_names(rule, fields@.skip(i as int + 1));
                    if rest is Ok {
                        assert(prev + (seq![out_chars] + rest->Ok_0) =~= prev.push(out_chars)
                            + rest->Ok_0);
                    }
                }
            },
            None => {},
        }
        i = i + 1;
    }
    proof {
        assert(fields@.skip(n as int) =~= Seq::<RawField>::empty());
        assert(res.deep_view() + Seq::<Seq<char>>::empty() =~= res.deep_view());
    }
    Ok(res)
}


/// A resolved field descriptor: the output name after renaming, whether the
/// field is skipped, and its flatten directive, if any.
#[derive(Debug)]
pub struct Field {
    name: String,
    skip: bool,
    flatten: Option<Flatten>,
}

/// The mathematical value of a [`Field`].
pub struct FieldModel {
    /// The resolved output name.
    pub name: Seq<char>,
    /// Whether the field is omitted from the output.
    pub skip: bool,
    /// The flatten directive, if the field carries one.
    pub flatten: Option<FlattenConfig>,
}

impl View for Field {
    type V = FieldModel;

    closed spec fn view(&self) -> FieldModel {
        FieldModel {
            name: self.name@,
            skip: self.skip,
            flatten: match self.flatten {
                Some(f) => Some(f@),
                None => None,
            },
        }
    }
}

impl Field {
    /// Resolves one field from its identifier and the parsed record- and
    /// field-level configurations: an explicit rename is taken verbatim,
    /// otherwise the record's casing rule is applied to the identifier.
    pub fn new(
        name: &str,
        container_attrs: &ContainerAttributes,
        field_attrs: &FieldAttributes,
    ) -> (r: Field)
        ensures
            r@ == (FieldModel {
                name: match field_attrs@.rename {
                    Some(n) => n,
                    None => spec_apply(container_attrs@.rename_all, name@),
                },
                skip: field_attrs@.skip,
                flatten: field_attrs@.flatten,
            }),
    {
        let resolved = match field_attrs.rename() {
            Some(n) => n.clone(),
            None => container_attrs.apply_to_field(name),
        };
        let flatten = match field_attrs.flatten() {
            Some(f) => Some(f.clone()),
            None => None,
        };
        Field { name: resolved, skip: field_attrs.skip(), flatten }
    }

    /// The resolved output name.
    pub fn name(&self) -> (r: &str)
        ensures
            r@ == self@.name,
    {
        self.name.as_str()
    }

    /// Whether the field is omitted from the output.
    pub fn skip(&self) -> (r: bool)
        ensures
            r == self@.skip,
    {
        self.skip
    }

    /// The flatten directive, if the field carries one.
    pub fn flatten(&self) -> (r: Option<&Flatten>)
        ensures
            match r {
                Some(f) => self@.flatten == Some(f@),
                None => self@.flatten is None,
            },
    {
        self.flatten.as_ref()
    }
}

/// The ordered list of a record's resolved fields.
#[derive(Debug)]
pub struct Fields(pub Vec<Field>);

/// The output names of resolved fields, in order, with skipped fields
/// elided. Flatten is an extension point: a field carrying it still
/// contributes its own resolved name, unexpanded.
pub open spec fn spec_array_names(fs: Seq<Field>) -> Seq<Seq<char>>
    decreases fs.len(),
{
    if fs.len() == 0 {
        Seq::empty()
    } else {
        let tail = spec_array_names(fs.drop_first());
        if fs[0]@.skip {
            tail
        } else {
            seq![fs[0]@.name] + tail
        }
    }
}

impl Fields {
    /// The ordered output names: one for each non-skipped field.
    pub fn array_names(&self) -> (r: Vec<String>)
        ensures
            r.deep_view() == spec_array_names(self.0@),
    {
        let mut res: Vec<String> = Vec::new();
        let n = self.0.len();
        let mut i: usize = 0;
        proof {
            assert(self.0@.skip(0) =~= self.0@);
            assert(res.deep_view() =~= Seq::<Seq<char>>::empty());
        }
        while i < n
            invariant
                n == self.0@.len(),
                i <= n,
                spec_array_names(self.0@) == res.deep_view() + spec_array_names(
                    self.0@.skip(i as int),
                ),
            decreases n - i,
        {
            let f = &self.0[i];
            proof {
                assert(self.0@.skip(i as int)[0] == self.0@[i as int]);
                assert(self.0@.skip(i as int).drop_first() =~= self.0@.skip(i as int + 1));
            }
            let ghost prev = res.deep_view();
            if !f.skip {
                let ghost out_chars = f.name@;
                res.push(f.name.clone());
                proof {
                    assert(res.deep_view() =~= prev.push(out_chars));
                    assert(prev + (seq![out_chars] + spec_array_names(self.0@.skip(i as int + 1)))
                        =~= prev.push(out_chars) + spec_array_names(self.0@.skip(i as int + 1)));
                }
            }
            i = i + 1;
        }
        proof {
            assert(self.0@.skip(n as int) =~= Seq::<Field>::empty());
            assert(res.deep_view() + Seq::<Seq<char>>::empty() =~= res.deep_view());
        }
        res
    }

    /// How many names the output holds: the number of non-skipped fields.
    /// The length is exact, so a fixed-size output container can be sized
    /// with it.
    pub fn array_len(&self) -> (r: usize)
        ensures
            r == spec_array_names(self.0@).len(),
    {
        let mut count: usize = 0;
        let n = self.0.len();
        let mut i: usize = 0;
        proof {
            assert(self.0@.skip(0) =~= self.0@);
        }
        while i < n
            invariant
                n == self.0@.len(),
                i <= n,
                count <= i,
                spec_array_names(self.0@).len() == count + spec_array_names(
                    self.0@.skip(i as int),
                ).len(),
            decreases n - i,
        {
            proof {
                assert(self.0@.skip(i as int)[0] == self.0@[i as int]);
                assert(self.0@.skip(i as int).drop_first() =~= self.0@.skip(i as int + 1));
            }
            if !self.0[i].skip {
                count = count + 1;
            }
            i = i + 1;
        }
        proof {
            assert(self.0@.skip(n as int) =~= Seq::<Field>::empty());
        }
        count
    }
}


/// Law: a field list without any annotations comes out unchanged and in the
/// same order under the default (identity) casing rule.
pub proof fn lemma_identity_passthrough(fields: Seq<RawField>)
    requires
        forall|i: int| 0 <= i < fields.len() ==> (#[trigger] fields[i]).name is Some,
        forall|i: int| 0 <= i < fields.len() ==> (#[trigger] fields[i]).annotations@.len() == 0,
    ensures
        spec_field_names(RenameAll::Snake, fields) == Ok::<_, ErrorModel>(
            Seq::new(fields.len(), |i: int| fields[i].name->0@),
        ),
    decreases fields.len(),
{
    let expected = Seq::new(fields.len(), |i: int| fields[i].name->0@);
    if fields.len() == 0 {
        assert(spec_field_names(RenameAll::Snake, fields) == Ok::<_, ErrorModel>(
            Seq::<Seq<char>>::empty(),
        ));
        assert(expected =~= Seq::<Seq<char>>::empty());
    } else {
        let f = fields[0];
        assert(field_fold(default_field_config(), f.annotations@) == Ok::<FieldConfig, ErrorModel>(
            default_field_config(),
        ));
        lemma_identity_passthrough(fields.drop_first());
        let name = f.name->0;
        assert(spec_field_output(RenameAll::Snake, default_field_config(), name@) == Some(name@));
        let tail = Seq::new(fields.drop_first().len(), |i: int| fields.drop_first()[i].name->0@);
        assert(seq![name@] + tail =~= expected);
    }
}

/// Law: skipping a field removes exactly that field from the output while
/// preserving the relative order of the remaining fields.
pub proof fn lemma_skip_removes_field(rule: RenameAll, fields: Seq<RawField>, i: int)
    requires
        0 <= i < fields.len(),
        fields[i].name is Some,
        field_fold(default_field_config(), fields[i].annotations@) matches Ok(cfg) && cfg.skip,
    ensures
        spec_field_names(rule, fields) == spec_field_names(rule, fields.remove(i)),
    decreases i,
{
    if i == 0 {
        assert(fields.remove(0) =~= fields.drop_first());
    } else {
        let shorter = fields.drop_first();
        assert(shorter[i - 1] == fields[i]);
        lemma_skip_removes_field(rule, shorter, i - 1);
        assert(fields.remove(i)[0] == fields[0]);
        assert(fields.remove(i).drop_first() =~= shorter.remove(i - 1));
    }
}

/// Law: an explicit per-field rename overrides the record-level casing
/// rule: the candidate output name is the rename verbatim, whatever rule
/// the record selected.
pub proof fn lemma_rename_overrides(
    r1: RenameAll,
    r2: RenameAll,
    cfg: FieldConfig,
    name: Seq<char>,
)
    requires
        cfg.rename is Some,
        !cfg.skip,
    ensures
        spec_field_output(r1, cfg, name) == Some(cfg.rename->0),
        spec_field_output(r1, cfg, name) == spec_field_output(r2, cfg, name),
{
}

/// Law: a record with zero fields produces an empty output list.
pub proof fn lemma_empty_record(rule: RenameAll)
    ensures
        spec_field_names(rule, Seq::empty()) == Ok::<_, ErrorModel>(Seq::<Seq<char>>::empty()),
{
}


/// How many fields of the list are kept: those whose annotations parse and
/// do not say `skip`.
pub open spec fn spec_kept_count(fields: Seq<RawField>) -> nat
    decreases fields.len(),
{
    if fields.len() == 0 {
        0
    } else {
        let rest = spec_kept_count(fields.drop_first());
        match field_fold(default_field_config(), fields[0].annotations@) {
            Ok(cfg) => if cfg.skip {
                rest
            } else {
                1 + rest
            },
            Err(_) => rest,
        }
    }
}

/// Law: on success the output holds exactly one name for each non-skipped
/// field, so a fixed-size output container can be sized with that count.
pub proof fn lemma_output_length(rule: RenameAll, fields: Seq<RawField>)
    requires
        spec_field_names(rule, fields) is Ok,
    ensures
        spec_field_names(rule, fields)->Ok_0.len() == spec_kept_count(fields),
    decreases fields.len(),
{
    if fields.len() > 0 {
        lemma_output_length(rule, fields.drop_first());
    }
}

} // verus!
