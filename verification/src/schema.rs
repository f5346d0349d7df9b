//! Schemas: descriptions of which values a type accepts.

use crate::extensions::{Extensions, ExtensionsView};
use vstd::prelude::*;

verus! {

/// The kinds of value that a schema object can declare.
#[derive(Clone, Copy, Debug, PartialEq, Eq)]
pub enum InstanceType {
    Null,
    Boolean,
    Object,
    Array,
    Number,
    String,
    Integer,
}

/// A description of the values that a type accepts.
///
/// `Bool(true)` accepts every value and `Bool(false)` accepts none. Only an
/// `Object` carries keywords.
#[derive(Debug, PartialEq)]
pub enum Schema {
    Bool(bool),
    Object(SchemaObject),
}

/// A schema that is written out as keywords. A keyword that is not set does
/// not constrain the value.
#[derive(Debug, PartialEq)]
pub struct SchemaObject {
    /// The kind of value that is accepted.
    pub instance_type: Option<InstanceType>,
    /// The alternatives, of which a value has to meet at least one.
    pub any_of: Option<Vec<Schema>>,
    /// Other keywords, each with a JSON value.
    pub extensions: Extensions,
}

/// What a [`Schema`] says, as a mathematical value.
pub enum SchemaView {
    Bool(bool),
    Object(SchemaObjectView),
}

/// What a [`SchemaObject`] says, as a mathematical value.
pub struct SchemaObjectView {
    pub instance_type: Option<InstanceType>,
    pub any_of: Option<Seq<SchemaView>>,
    pub extensions: ExtensionsView,
}

/// The views of a list of schemas, in the same order.
pub open spec fn schemas_view(schemas: Seq<Schema>) -> Seq<SchemaView>
    decreases schemas,
{
    Seq::new(
        schemas.len(),
        |i: int|
            if 0 <= i < schemas.len() {
                schemas[i].view()
            } else {
                SchemaView::Bool(true)
            },
    )
}

impl View for Schema {
    type V = SchemaView;

    open spec fn view(&self) -> SchemaView
        decreases self,
    {
        match self {
            Schema::Bool(accepts) => SchemaView::Bool(*accepts),
            Schema::Object(object) => SchemaView::Object(object.view()),
        }
    }
}

impl View for SchemaObject {
    type V = SchemaObjectView;

    open spec fn view(&self) -> SchemaObjectView
        decreases self,
    {
        SchemaObjectView {
            instance_type: self.instance_type,
            any_of: match self.any_of {
                Some(alternatives) => Some(schemas_view(alternatives@)),
                None => None,
            },
            extensions: self.extensions@,
        }
    }
}

impl SchemaObjectView {
    /// The object without a keyword, which accepts every value.
    pub open spec fn empty() -> SchemaObjectView {
        SchemaObjectView { instance_type: None, any_of: None, extensions: ExtensionsView::empty() }
    }
}

impl Default for SchemaObject {
    /// The object without a keyword.
    fn default() -> (object: SchemaObject)
        ensures
            object@ == SchemaObjectView::empty(),
    {
        SchemaObject { instance_type: None, any_of: None, extensions: Extensions::new() }
    }
}

} // verus!
