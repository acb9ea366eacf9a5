use google_ai_rs::proto::Type;
use google_ai_rs::schema::{AsSchema, Schema, SchemaFormat, SchemaMap, Tuple};
use std::collections::HashMap;

#[test]
fn map_schema() {
    let want = Schema {
        type_: Type::Array.value(),
        items: Some(Box::new(Schema {
            type_: Type::Object.value(),
            properties: vec![
                ("key".to_string(), String::as_schema()),
                ("value".to_string(), i32::as_schema()),
            ],
            required: vec!["key".to_string(), "value".to_string()],
            ..Default::default()
        })),
        nullable: true,
        ..Default::default()
    };
    assert_eq!(want, SchemaMap::<HashMap<String, i32>>::as_schema());
}

#[test]
fn tuple_schema() {
    let want = Schema {
        type_: Type::Object.value(),
        properties: vec![("0".to_string(), String::as_schema()), ("1".to_string(), i32::as_schema())],
        required: vec!["0".to_string(), "1".to_string()],
        ..Default::default()
    };
    assert_eq!(want, Tuple::<(String, i32)>::as_schema());
    assert_eq!(Tuple::new((1u8, 2u8)).into_inner(), (1, 2));
}

#[test]
fn primitive_schemas() {
    assert_eq!(i64::as_schema().format, "int64");
    assert_eq!(i32::as_schema().format, "int32");
    assert_eq!(bool::as_schema().type_, Type::Boolean.value());
    let o = Option::<String>::as_schema();
    assert!(o.nullable);
    let v = Vec::<bool>::as_schema();
    assert!(v.is_array());
    assert_eq!(v.items, Some(Box::new(bool::as_schema())));
}

#[test]
fn schema_builders() {
    let s = Schema::new_object()
        .description("A primary colour")
        .property("name", Schema::new_string().description("The name of the colour"))
        .property("RGB", Schema::new_string())
        .property("name", Schema::new_integer())
        .required(vec!["name".to_owned()]);
    assert!(s.is_object());
    assert_eq!(s.properties.len(), 2);
    assert_eq!(s.properties[0].0, "name");
    assert_eq!(s.properties[0].1, Schema::new_integer());
    let e = Schema::new_string().format(SchemaFormat::Enum).into_enum(vec!["a".to_owned()]);
    assert!(e.is_string());
    assert_eq!(e.format, "enum");
    assert_eq!(e.enum_, vec!["a".to_owned()]);
    let a = Schema::new_array().items(Schema::new_number()).min_items(1).max_items(3).nullable(true);
    assert_eq!((a.min_items, a.max_items, a.nullable), (1, 3, true));
}

#[test]
fn long_tuples_name_members_by_position() {
    let schema = Tuple::<(u8, u8, u8, u8, u8, u8, u8, u8, u8, u8, u8, u8)>::as_schema();
    let names: Vec<String> = schema.properties.iter().map(|(k, _)| k.clone()).collect();
    let want: Vec<String> = (0..12).map(|i| i.to_string()).collect();
    assert_eq!(names, want);
    assert_eq!(schema.required, want);
    assert_eq!(schema.type_, Type::Object.value());
}
