//! Schema rules for three type shapes: an optional type, a marker type that
//! carries no data, and a type without values.
//!
//! The rules produce [`Schema`] values. The schema of a wrapped type, the
//! resolution of references and the schema of a type without values come from
//! a [`SchemaGenerator`] that the caller hands in; the [`SchemaSettings`] that
//! shape the schema of an optional type are an explicit argument.
//!
//! A type is known by a value of the generator's own choosing, and its name
//! is a string. The contracts speak of views: [`SchemaView`] for a schema, and
//! of what the generator may answer, whatever generator it is.

pub mod extensions;
pub mod generator;
pub mod json;
pub mod laws;
pub mod optional;
pub mod schema;
pub mod settings;
pub mod trivial;

pub use extensions::{Extensions, ExtensionsView};
pub use generator::SchemaGenerator;
pub use optional::{
    schema_for_optional, schema_name_for_optional, tag_nullable, widen_by_settings, widen_with_null,
};
pub use schema::{InstanceType, Schema, SchemaObject, SchemaObjectView, SchemaView};
pub use settings::SchemaSettings;
pub use trivial::{
    schema_for_marker, schema_for_uninhabited, schema_name_for_marker,
    schema_name_for_uninhabited, unit_schema, unit_schema_name,
};
