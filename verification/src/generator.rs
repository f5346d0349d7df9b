//! What the rules ask of the engine that computes schemas for other types.

use crate::schema::{Schema, SchemaObject};
use vstd::prelude::*;

verus! {

/// The engine that knows the schema of every type and keeps the schemas that
/// it files under a name.
///
/// The rules of this library call it for the schema of a wrapped type and to
/// resolve references. How it answers is its own affair: no method promises
/// anything, and the contracts of the rules say which of its answers they
/// hand on or build on, by the predicates below.
pub trait SchemaGenerator {
    /// How the generator knows a type.
    type Type;

    /// The failure of a lookup or of a registration.
    type Error;

    /// The schema of `ty` as the generator hands it out by default: written
    /// out, or a reference to a schema that it has filed.
    fn subschema_for(&mut self, ty: &Self::Type) -> Result<Schema, Self::Error>;

    /// The schema of `ty` written out, never a reference.
    fn full_schema_for(&mut self, ty: &Self::Type) -> Result<Schema, Self::Error>;

    /// The object that `schema` stands for: the target of a reference, and for
    /// `Bool(true)` and `Bool(false)` two objects that can be told apart and
    /// accept the same values as they do.
    fn dereference(&self, schema: Schema) -> Result<SchemaObject, Self::Error>;

    /// The generator's schema for a type without values.
    fn schema_for_uninhabited(&self) -> Schema;
}

/// Whether `generator` may answer `answer` when asked to dereference `schema`.
pub open spec fn is_dereference_answer<G: SchemaGenerator>(
    generator: &G,
    schema: Schema,
    answer: Result<SchemaObject, G::Error>,
) -> bool {
    call_ensures(G::dereference, (generator, schema), answer)
}

/// Whether `generator` may answer `schema` when asked for its schema of a type
/// without values.
pub open spec fn is_uninhabited_answer<G: SchemaGenerator>(generator: &G, schema: Schema) -> bool {
    call_ensures(G::schema_for_uninhabited, (generator,), schema)
}

} // verus!
