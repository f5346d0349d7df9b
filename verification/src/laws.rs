//! What holds of the schema of an optional type, whatever the wrapped type
//! and the generator are.
//!
//! Each law speaks of [`is_outcome`], which says in the contract of
//! `schema_for_optional` what the result is for the answers of the generator:
//! `base` is its schema for the wrapped type, `widened` the schema that it is
//! given to dereference, and `dereferenced` what it makes of that.

use crate::extensions::ExtensionsView;
use crate::json::json_bool;
use crate::optional::{
    is_outcome, spec_nullable_keyword, spec_tag_nullable, spec_union_of_two,
    spec_widen_with_null,
};
use crate::schema::{Schema, SchemaObject, SchemaView};
use crate::settings::SchemaSettings;
use crate::trivial::spec_unit_schema;
use vstd::prelude::*;

verus! {

/// The rule fails where the generator fails, and only there: on the wrapped
/// type's schema, or with `option_nullable` on dereferencing. The failure is
/// the generator's own.
pub proof fn lemma_failures_are_the_generators<E>(
    result: Result<Schema, E>,
    base_answer: Result<Schema, E>,
    widened: Schema,
    dereferenced: Result<SchemaObject, E>,
    settings: SchemaSettings,
)
    requires
        is_outcome(result, base_answer, widened, dereferenced, settings),
    ensures
        result is Ok <==> base_answer is Ok && (settings.option_nullable ==> dereferenced is Ok),
        base_answer matches Err(error) ==> result == Err::<Schema, E>(error),
        base_answer is Ok && settings.option_nullable ==> (dereferenced matches Err(error)
            ==> result == Err::<Schema, E>(error)),
{
}

/// With both flags off the schema of the optional type is the schema that the
/// generator gave for the wrapped type, as it is.
pub proof fn lemma_flags_off_keep_base<E>(
    result: Result<Schema, E>,
    base: Schema,
    widened: Schema,
    dereferenced: Result<SchemaObject, E>,
    settings: SchemaSettings,
)
    requires
        is_outcome(result, Ok(base), widened, dereferenced, settings),
        !settings.option_nullable,
        !settings.option_add_null_type,
    ensures
        result matches Ok(schema) && schema@ == base@,
{
}

/// With `option_add_null_type` alone, and a wrapped type whose schema is an
/// object, the schema of the optional type is a union of exactly two
/// alternatives: the wrapped type's schema and then the marker type's schema.
/// The union declares no instance type and has no extensions.
pub proof fn lemma_widened_object_is_union_of_two<E>(
    result: Result<Schema, E>,
    base: Schema,
    widened: Schema,
    dereferenced: Result<SchemaObject, E>,
    settings: SchemaSettings,
)
    requires
        is_outcome(result, Ok(base), widened, dereferenced, settings),
        settings.option_add_null_type,
        !settings.option_nullable,
        base is Object,
    ensures
        result matches Ok(schema) && schema@ == spec_union_of_two(base@, spec_unit_schema()),
        ({
            &&& result matches Ok(schema)
            &&& schema@ matches SchemaView::Object(union)
            &&& union.instance_type is None
            &&& union.extensions == ExtensionsView::empty()
            &&& union.any_of matches Some(alternatives)
            &&& alternatives.len() == 2
            &&& alternatives[0] == base@
            &&& alternatives[1] == spec_unit_schema()
        }),
{
}

/// With `option_add_null_type` alone, a wrapped type whose schema accepts
/// everything keeps that schema as the schema of the optional type: there is
/// no union.
pub proof fn lemma_widening_keeps_accept_all<E>(
    result: Result<Schema, E>,
    base: Schema,
    widened: Schema,
    dereferenced: Result<SchemaObject, E>,
    settings: SchemaSettings,
)
    requires
        is_outcome(result, Ok(base), widened, dereferenced, settings),
        settings.option_add_null_type,
        !settings.option_nullable,
        base == Schema::Bool(true),
    ensures
        result matches Ok(schema) && schema@ == base@,
{
}

/// With `option_add_null_type` alone, a wrapped type whose schema accepts
/// nothing gives the optional type exactly the marker type's schema.
pub proof fn lemma_widening_of_accept_none_is_marker<E>(
    result: Result<Schema, E>,
    base: Schema,
    widened: Schema,
    dereferenced: Result<SchemaObject, E>,
    settings: SchemaSettings,
)
    requires
        is_outcome(result, Ok(base), widened, dereferenced, settings),
        settings.option_add_null_type,
        !settings.option_nullable,
        base == Schema::Bool(false),
    ensures
        result matches Ok(schema) && schema@ == spec_unit_schema(),
{
}

/// With `option_nullable` the schema of the optional type is an object that
/// has the keyword `nullable` with the JSON value true, and in every other
/// keyword is the object that the generator made by dereferencing.
pub proof fn lemma_nullable_tags_dereferenced<E>(
    result: Result<Schema, E>,
    base: Schema,
    widened: Schema,
    object: SchemaObject,
    settings: SchemaSettings,
)
    requires
        is_outcome(result, Ok(base), widened, Ok(object), settings),
        settings.option_nullable,
    ensures
        ({
            &&& result matches Ok(schema)
            &&& schema@ matches SchemaView::Object(tagged)
            &&& tagged.instance_type == object@.instance_type
            &&& tagged.any_of == object@.any_of
            &&& tagged.extensions.value_of(spec_nullable_keyword()) == Some(json_bool(true))
            &&& forall|keyword: Seq<char>|
                keyword != spec_nullable_keyword() ==> #[trigger] tagged.extensions.value_of(
                    keyword,
                ) == object@.extensions.value_of(keyword)
            &&& tagged.extensions.order == if object@.extensions.values.contains_key(
                spec_nullable_keyword(),
            ) {
                object@.extensions.order
            } else {
                object@.extensions.order.push(spec_nullable_keyword())
            }
        }),
{
}

/// With `option_nullable` alone, and a generator that dereferences the
/// wrapped type's schema to the object that it is: the schema of the optional
/// type declares the instance type of the wrapped type, lists the
/// alternatives of the wrapped type, none where that has none, and has the
/// keyword `nullable` with the JSON value true.
pub proof fn lemma_nullable_keeps_instance_type<E>(
    result: Result<Schema, E>,
    base: Schema,
    widened: Schema,
    object: SchemaObject,
    settings: SchemaSettings,
)
    requires
        is_outcome(result, Ok(base), widened, Ok(object), settings),
        settings.option_nullable,
        !settings.option_add_null_type,
        widened@ == SchemaView::Object(object@),
    ensures
        ({
            &&& result matches Ok(schema)
            &&& schema@ matches SchemaView::Object(tagged)
            &&& base@ matches SchemaView::Object(wrapped)
            &&& tagged.instance_type == wrapped.instance_type
            &&& tagged.any_of == wrapped.any_of
            &&& tagged.extensions.value_of(spec_nullable_keyword()) == Some(json_bool(true))
        }),
{
}

/// The tag comes after the widening: with both flags the generator is given
/// the widened schema to dereference, which for a wrapped type whose schema
/// accepts nothing is the marker type's schema alone, and the object that it
/// hands back gets the tag.
pub proof fn lemma_tag_follows_widening<E>(
    result: Result<Schema, E>,
    base: Schema,
    widened: Schema,
    object: SchemaObject,
    settings: SchemaSettings,
)
    requires
        is_outcome(result, Ok(base), widened, Ok(object), settings),
        settings.option_nullable,
        settings.option_add_null_type,
    ensures
        widened@ == spec_widen_with_null(base@, spec_unit_schema()),
        base == Schema::Bool(false) ==> widened@ == spec_unit_schema(),
        result matches Ok(schema) && schema@ == spec_tag_nullable(object@),
{
}

} // verus!
