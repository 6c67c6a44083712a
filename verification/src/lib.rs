//! Compile-time derivation of a record's field names.
//!
//! Given an ordered list of field identifiers together with declarative
//! annotations (a record-level casing rule, per-field skip and rename
//! directives), this library produces the ordered list of output names.
//! All transformations are pure; every function carries a contract that
//! pins its result down, and the ordering and filtering invariants are
//! proved.

pub mod attrs;
pub mod error;
pub mod fields;
pub mod names;
pub mod rename;

pub use attrs::Annotation;
pub use attrs::AnnotationValue;
pub use attrs::ContainerAttributes;
pub use attrs::FieldAttributes;
pub use attrs::Flatten;
pub use attrs::NestedAnnotation;
pub use attrs::NestedValue;
pub use error::Error;
pub use error::ErrorKind;
pub use fields::field_names;
pub use fields::Field;
pub use fields::Fields;
pub use fields::RawField;
pub use names::FieldNamesAsArray;
pub use names::FieldNamesAsSlice;
pub use rename::RenameAll;
