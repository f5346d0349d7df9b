use schema_rules::{
    schema_for_marker, schema_for_uninhabited, schema_name_for_marker,
    schema_name_for_uninhabited, unit_schema, unit_schema_name, Extensions, InstanceType, Schema,
    SchemaGenerator, SchemaObject,
};

/// A generator that knows no type and keeps `impossible` as its schema for a
/// type without values.
struct Fixed {
    impossible: fn() -> Schema,
}

impl SchemaGenerator for Fixed {
    type Type = ();
    type Error = String;

    fn subschema_for(&mut self, _: &()) -> Result<Schema, String> {
        Err("no type is known".to_owned())
    }

    fn full_schema_for(&mut self, _: &()) -> Result<Schema, String> {
        Err("no type is known".to_owned())
    }

    fn dereference(&self, _: Schema) -> Result<SchemaObject, String> {
        Err("nothing is filed".to_owned())
    }

    fn schema_for_uninhabited(&self) -> Schema {
        (self.impossible)()
    }
}

fn accept_none() -> Schema {
    Schema::Bool(false)
}

fn empty_union() -> Schema {
    Schema::Object(SchemaObject {
        instance_type: None,
        any_of: Some(Vec::new()),
        extensions: Extensions::new(),
    })
}

#[test]
fn unit_schema_declares_null_and_nothing_else() {
    let expected = Schema::Object(SchemaObject {
        instance_type: Some(InstanceType::Null),
        any_of: None,
        extensions: Extensions::new(),
    });
    assert_eq!(unit_schema(), expected);
    assert_eq!(unit_schema_name(), "Null");
}

#[test]
fn marker_schema_is_the_unit_schema() {
    assert_eq!(schema_for_marker(), unit_schema());
    match schema_for_marker() {
        Schema::Object(object) => {
            assert_eq!(object.instance_type, Some(InstanceType::Null));
            assert_eq!(object.any_of, None);
            assert_eq!(object.extensions, Extensions::new());
            assert_eq!(object.extensions.get("nullable"), None);
        }
        Schema::Bool(_) => panic!("the marker schema is an object"),
    }
}

#[test]
fn marker_name_is_the_unit_name() {
    assert_eq!(schema_name_for_marker(), unit_schema_name());
    assert_eq!(schema_name_for_marker(), "Null");
}

#[test]
fn uninhabited_name_is_never() {
    assert_eq!(schema_name_for_uninhabited(), "Never");
}

#[test]
fn uninhabited_schema_is_the_one_of_the_generator() {
    let generator = Fixed { impossible: accept_none };
    assert_eq!(schema_for_uninhabited(&generator), Ok(Schema::Bool(false)));
    let generator = Fixed { impossible: empty_union };
    assert_eq!(schema_for_uninhabited(&generator), Ok(empty_union()));
}
