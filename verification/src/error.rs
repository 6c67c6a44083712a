//! Failures of annotation parsing.
//!
//! Every failure aborts the whole record's expansion: no partial output is
//! ever produced. An [`Error`] carries the offending annotation key (or, for
//! an unknown casing rule, the offending value) and, once the name
//! transformation engine has attributed it, the name of the field whose
//! annotations were at fault, so that the caller can point a diagnostic at
//! the exact source location.

use vstd::prelude::*;

verus! {

/// The reason an annotation bag was rejected.
#[derive(Clone, Copy, PartialEq, Eq, Structural, Debug)]
pub enum ErrorKind {
    /// The annotation key is not recognized at its scope.
    UnknownOption,
    /// The key is recognized, but only at the other scope
    /// (`skip` is field-only, `rename_all` is record-only).
    WrongScope,
    /// The value of `rename_all` names none of the casing rules.
    UnknownCasingRule,
    /// A string value where a bare flag was expected, or the reverse.
    MalformedValue,
    /// A field without a name: the record is not a set of named fields.
    UnsupportedShape,
}

/// A rejected annotation, with enough context for a diagnostic.
#[derive(Debug)]
pub struct Error {
    /// Why the annotation was rejected.
    pub kind: ErrorKind,
    /// The offending annotation key, or the offending `rename_all` value.
    pub key: String,
    /// The field whose annotations were at fault, when the error arose
    /// while a record's field list was being transformed.
    pub field: Option<String>,
}

/// The mathematical value of an [`Error`].
pub struct ErrorModel {
    /// Why the annotation was rejected.
    pub kind: ErrorKind,
    /// The offending annotation key or `rename_all` value.
    pub key: Seq<char>,
    /// The field whose annotations were at fault, if any.
    pub field: Option<Seq<char>>,
}

impl View for Error {
    type V = ErrorModel;

    open spec fn view(&self) -> ErrorModel {
        ErrorModel {
            kind: self.kind,
            key: self.key@,
            field: match self.field {
                Some(f) => Some(f@),
                None => None,
            },
        }
    }
}

impl Error {
    /// An error as the annotation parser reports it, not yet attributed
    /// to a field.
    pub fn new(kind: ErrorKind, key: String) -> (r: Error)
        ensures
            r@ == (ErrorModel { kind, key: key@, field: None }),
    {
        Error { kind, key, field: None }
    }
}

} // verus!
