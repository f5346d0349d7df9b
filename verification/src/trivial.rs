//! The rules for the unit type, for the marker type and for the type without
//! values.

use crate::extensions::{Extensions, ExtensionsView};
use crate::generator::{is_uninhabited_answer, SchemaGenerator};
use crate::schema::{InstanceType, Schema, SchemaObject, SchemaObjectView, SchemaView};
use vstd::prelude::*;

verus! {

/// The schema of the unit type: an object that declares the instance type
/// null and nothing else.
pub open spec fn spec_unit_schema() -> SchemaView {
    SchemaView::Object(
        SchemaObjectView {
            instance_type: Some(InstanceType::Null),
            any_of: None,
            extensions: ExtensionsView::empty(),
        },
    )
}

/// The name of the unit type's schema.
pub open spec fn spec_unit_schema_name() -> Seq<char> {
    "Null"@
}

/// The name of the schema of the type without values.
pub open spec fn spec_uninhabited_schema_name() -> Seq<char> {
    "Never"@
}

/// The name of the unit type's schema.
pub fn unit_schema_name() -> (name: String)
    ensures
        name@ == spec_unit_schema_name(),
{
    "Null".to_owned()
}

/// The schema of the unit type.
pub fn unit_schema() -> (schema: Schema)
    ensures
        schema@ == spec_unit_schema(),
{
    Schema::Object(
        SchemaObject {
            instance_type: Some(InstanceType::Null),
            any_of: None,
            extensions: Extensions::new(),
        },
    )
}

/// The name of the marker type's schema: that of the unit type, without a
/// prefix.
pub fn schema_name_for_marker() -> (name: String)
    ensures
        name@ == spec_unit_schema_name(),
{
    unit_schema_name()
}

/// The schema of the marker type: that of the unit type.
pub fn schema_for_marker() -> (schema: Schema)
    ensures
        schema@ == spec_unit_schema(),
{
    unit_schema()
}

/// The name of the schema of the type without values.
pub fn schema_name_for_uninhabited() -> (name: String)
    ensures
        name@ == spec_uninhabited_schema_name(),
{
    "Never".to_owned()
}

/// The schema of the type without values: the one that the generator keeps
/// for such a type, as the generator hands it out. The call does not fail.
pub fn schema_for_uninhabited<G: SchemaGenerator>(generator: &G) -> (result: Result<
    Schema,
    G::Error,
>)
    ensures
        result matches Ok(schema) && is_uninhabited_answer(generator, schema),
{
    Ok(generator.schema_for_uninhabited())
}

} // verus!
