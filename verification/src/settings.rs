//! The two flags that shape the schema of an optional type.

use vstd::prelude::*;

verus! {

/// How absence is written into the schema of an optional type.
///
/// A caller makes the settings once and hands them to each computation, which
/// only reads them.
#[derive(Clone, Copy, Debug, PartialEq, Eq)]
pub struct SchemaSettings {
    /// Mark the schema of the present value with the extension `nullable`
    /// instead of leaving it as it is.
    pub option_nullable: bool,
    /// Widen the schema so that it also accepts null, by a union with the
    /// schema of the marker type.
    pub option_add_null_type: bool,
}

impl Default for SchemaSettings {
    /// Both flags off.
    fn default() -> (settings: SchemaSettings)
        ensures
            !settings.option_nullable,
            !settings.option_add_null_type,
    {
        SchemaSettings { option_nullable: false, option_add_null_type: false }
    }
}

} // verus!
