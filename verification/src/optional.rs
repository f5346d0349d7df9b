//! The rule for an optional type: a value of the wrapped type, or nothing.

use crate::extensions::{Extensions, ExtensionsView};
use crate::generator::{is_dereference_answer, SchemaGenerator};
use crate::json::{json_bool, json_from_bool};
use crate::schema::{Schema, SchemaObject, SchemaObjectView, SchemaView};
use crate::settings::SchemaSettings;
use crate::trivial::{schema_for_marker, spec_unit_schema};
use vstd::prelude::*;

verus! {

/// The prefix that the name of an optional type's schema has before the name
/// of the wrapped type's schema.
pub open spec fn spec_optional_name_prefix() -> Seq<char> {
    "Nullable_"@
}

/// The keyword that marks a schema as accepting null as well.
pub open spec fn spec_nullable_keyword() -> Seq<char> {
    "nullable"@
}

/// The union of exactly two alternatives: an object whose `any_of` lists
/// `first` and then `second`, with no other keyword.
pub open spec fn spec_union_of_two(first: SchemaView, second: SchemaView) -> SchemaView {
    SchemaView::Object(
        SchemaObjectView {
            instance_type: None,
            any_of: Some(seq![first, second]),
            extensions: ExtensionsView::empty(),
        },
    )
}

/// `base`, made to accept what `marker` accepts as well.
///
/// A schema that accepts everything stays as it is. One that accepts nothing
/// gives way to `marker`. Any other becomes one of two alternatives, with
/// `marker` as the second; nothing of `base` is copied to the union itself.
pub open spec fn spec_widen_with_null(base: SchemaView, marker: SchemaView) -> SchemaView {
    match base {
        SchemaView::Bool(true) => base,
        SchemaView::Bool(false) => marker,
        SchemaView::Object(_) => spec_union_of_two(base, marker),
    }
}

/// `object` with the keyword `nullable` set to the JSON value true, as a
/// schema. The other keywords stay as they are. The tag is set after the
/// widening, so it stands on the outermost schema.
pub open spec fn spec_tag_nullable(object: SchemaObjectView) -> SchemaView {
    SchemaView::Object(
        SchemaObjectView {
            instance_type: object.instance_type,
            any_of: object.any_of,
            extensions: object.extensions.with_entry(spec_nullable_keyword(), json_bool(true)),
        },
    )
}

/// The schema of the wrapped type after the widening that `settings` ask for.
/// Without `option_nullable` this is the schema of the optional type; with it,
/// this is what the generator is given to dereference.
pub open spec fn spec_widened(base: SchemaView, settings: SchemaSettings) -> SchemaView {
    if settings.option_add_null_type {
        spec_widen_with_null(base, spec_unit_schema())
    } else {
        base
    }
}

/// The name of an optional type's schema: the prefix `Nullable_` before the
/// name of the wrapped type's schema.
pub fn schema_name_for_optional(inner_name: &str) -> (name: String)
    ensures
        name@ == spec_optional_name_prefix() + inner_name@,
{
    "Nullable_".to_owned().concat(inner_name)
}

/// Widens `base` by `marker`: see [`spec_widen_with_null`].
pub fn widen_with_null(base: Schema, marker: Schema) -> (widened: Schema)
    ensures
        widened@ == spec_widen_with_null(base@, marker@),
{
    match base {
        Schema::Bool(true) => Schema::Bool(true),
        Schema::Bool(false) => marker,
        Schema::Object(object) => {
            let ghost first = Schema::Object(object)@;
            let alternatives = vec![Schema::Object(object), marker];
            assert(crate::schema::schemas_view(alternatives@) =~= seq![first, marker@]);
            Schema::Object(
                SchemaObject {
                    instance_type: None,
                    any_of: Some(alternatives),
                    extensions: Extensions::new(),
                },
            )
        },
    }
}

/// Widens `base` by the marker type's schema where `settings` ask for it:
/// see [`spec_widened`].
pub fn widen_by_settings(base: Schema, settings: &SchemaSettings) -> (widened: Schema)
    ensures
        widened@ == spec_widened(base@, *settings),
{
    if settings.option_add_null_type {
        widen_with_null(base, schema_for_marker())
    } else {
        base
    }
}

/// Sets the keyword `nullable` of `object` to the JSON value true and hands
/// the object back as a schema: see [`spec_tag_nullable`].
pub fn tag_nullable(object: SchemaObject) -> (tagged: Schema)
    ensures
        tagged@ == spec_tag_nullable(object@),
{
    let mut object = object;
    object.extensions.insert("nullable".to_owned(), json_from_bool(true));
    Schema::Object(object)
}

/// Whether `result` is what the rule makes of the generator's answers:
/// `base_answer` for the wrapped type, and `dereferenced` for the schema
/// `widened`.
///
/// A failure is handed on as it is. Of the wrapped type's schema the rule
/// makes the widened schema. Without `option_nullable` that is the result and
/// `dereferenced` does not count; with it the result is the dereferenced
/// object with its tag.
pub open spec fn is_outcome<E>(
    result: Result<Schema, E>,
    base_answer: Result<Schema, E>,
    widened: Schema,
    dereferenced: Result<SchemaObject, E>,
    settings: SchemaSettings,
) -> bool {
    match base_answer {
        Err(error) => result == Err::<Schema, E>(error),
        Ok(base) => {
            &&& widened@ == spec_widened(base@, settings)
            &&& if !settings.option_nullable {
                result matches Ok(schema) && schema@ == widened@
            } else {
                match dereferenced {
                    Err(error) => result == Err::<Schema, E>(error),
                    Ok(object) => result matches Ok(schema) && schema@ == spec_tag_nullable(
                        object@,
                    ),
                }
            }
        },
    }
}

/// Computes the schema of the optional type that wraps `inner`.
///
/// With `option_nullable` the generator is asked for the full schema of
/// `inner`, else for its subschema, which may be a reference. With
/// `option_add_null_type` that schema is widened by the marker type's schema.
/// With `option_nullable` the generator then dereferences the outcome, and
/// the object that it hands back gets the keyword `nullable`.
///
/// The generator decides what it answers and whether it fails. The contract
/// says which questions it is asked, and that the result is made of its
/// answers as [`is_outcome`] says: the first question changes the generator
/// from what it was to what it is in the end, and the schema that it is given
/// to dereference is the widened one.
pub fn schema_for_optional<G: SchemaGenerator>(
    generator: &mut G,
    inner: &G::Type,
    settings: &SchemaSettings,
) -> (result: Result<Schema, G::Error>)
    ensures
        exists|
            base_answer: Result<Schema, G::Error>,
            widened: Schema,
            dereferenced: Result<SchemaObject, G::Error>,
        |
            {
                &&& if settings.option_nullable {
                    exists|asked: &mut G|
                        {
                            &&& mut_ref_current(asked) == *old(generator)
                            &&& mut_ref_future(asked) == *final(generator)
                            &&& #[trigger] call_ensures(
                                G::full_schema_for,
                                (asked, inner),
                                base_answer,
                            )
                        }
                } else {
                    exists|asked: &mut G|
                        {
                            &&& mut_ref_current(asked) == *old(generator)
                            &&& mut_ref_future(asked) == *final(generator)
                            &&& #[trigger] call_ensures(G::subschema_for, (asked, inner), base_answer)
                        }
                }
                &&& settings.option_nullable && base_answer is Ok ==> is_dereference_answer(
                    final(generator),
                    widened,
                    dereferenced,
                )
                &&& #[trigger] is_outcome(result, base_answer, widened, dereferenced, *settings)
            },
{
    let answer = if settings.option_nullable {
        generator.full_schema_for(inner)
    } else {
        generator.subschema_for(inner)
    };
    let ghost base_answer = answer;
    let base = match answer {
        Ok(base) => base,
        Err(error) => {
            let result = Err(error);
            assert(is_outcome(
                result,
                base_answer,
                arbitrary(),
                arbitrary::<Result<SchemaObject, G::Error>>(),
                *settings,
            ));
            return result;
        },
    };
    let widened = widen_by_settings(base, settings);
    let ghost handed = widened;
    if settings.option_nullable {
        let answer = generator.dereference(widened);
        let ghost dereferenced = answer;
        let result = match answer {
            Ok(object) => Ok(tag_nullable(object)),
            Err(error) => Err(error),
        };
        assert(is_outcome(result, base_answer, handed, dereferenced, *settings));
        result
    } else {
        let result = Ok(widened);
        assert(is_outcome(
            result,
            base_answer,
            handed,
            arbitrary::<Result<SchemaObject, G::Error>>(),
            *settings,
        ));
        result
    }
}

} // verus!
