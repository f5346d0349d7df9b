//! The JSON values that schemas carry as extension keywords.
//!
//! The values are `serde_json::Value`s. Verus sees such a value as opaque; the
//! items in this file are believed, not proved.

use vstd::prelude::*;

verus! {

/// `serde_json::Value`, carried through without a look inside.
#[verifier::external_type_specification]
#[verifier::external_body]
pub struct ExJsonValue(serde_json::Value);

/// The JSON value that `serde_json::Value::from` makes of the boolean `b`,
/// which is `Value::Bool(b)`.
pub uninterp spec fn json_bool(b: bool) -> serde_json::Value;

/// Calls `serde_json::Value::from` on a boolean. The contract claims that the
/// result is a function of the boolean alone: the value named [`json_bool`].
#[verifier::external_body]
pub(crate) fn json_from_bool(b: bool) -> (value: serde_json::Value)
    ensures
        value == json_bool(b),
{
    serde_json::Value::from(b)
}

} // verus!
