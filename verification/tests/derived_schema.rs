use google_ai_rs::meta::{serde_tuple_struct, SerdeTupleField};
use google_ai_rs::attr::{Format, Type, Value};
use google_ai_rs::derive::{
    empty_schema, generate_schema, is_derivable, try_generate_schema, Attr, BaseSchema, DerivedSchema, NamedField, Shape, TopAttr, TupleField,
    VariantData, VariantItem,
};

fn named(name: &str, ty: &str, attr: Attr) -> NamedField {
    NamedField { name: name.to_owned(), ty: ty.to_owned(), attr }
}

fn described(d: &str) -> Attr {
    Attr { description: Some(d.to_owned()), ..Attr::new() }
}

fn based(base: BaseSchema) -> DerivedSchema {
    DerivedSchema { base, ..empty_schema() }
}

fn raw(s: &str) -> Value {
    Value::Raw(s.to_owned())
}

#[test]
fn derived_schemas() {
    let top = TopAttr { description: Some("unit struct".to_owned()), nullable: Some(false), ..TopAttr::new() };
    assert_eq!(
        generate_schema(&top, &Shape::Unit).unwrap(),
        DerivedSchema {
            type_: Some(Type::Object),
            description: Some("unit struct".to_owned()),
            nullable: Some(false),
            ..empty_schema()
        }
    );

    let top = TopAttr { description: Some("Represents a radioactive element".to_owned()), ..TopAttr::new() };
    let fields = vec![
        TupleField { ty: "String".to_owned(), attr: described("Element name"), has_schema_attr: true },
        TupleField { ty: "f64".to_owned(), attr: described("Half life"), has_schema_attr: true },
    ];
    assert!(generate_schema(&top, &Shape::Tuple(fields)).unwrap_err().contains("AsSchemaWithSerde"));

    let fields = vec![
        TupleField { ty: "String".to_owned(), attr: Attr::new(), has_schema_attr: false },
        TupleField { ty: "f64".to_owned(), attr: Attr::new(), has_schema_attr: false },
    ];
    assert_eq!(
        generate_schema(&TopAttr::new(), &Shape::Tuple(fields)).unwrap(),
        DerivedSchema {
            type_: Some(Type::Array),
            items: Some(Box::new(DerivedSchema { type_: Some(Type::Unspecified), ..empty_schema() })),
            max_items: Some(2),
            min_items: Some(2),
            ..empty_schema()
        }
    );

    let variants = vec![
        VariantItem { name: "Variant1".to_owned(), attr: Attr::new(), data: VariantData::Unit },
        VariantItem { name: "Variant2".to_owned(), attr: Attr::new(), data: VariantData::Unit },
    ];
    assert_eq!(
        generate_schema(&TopAttr::new(), &Shape::Enum(variants)).unwrap(),
        DerivedSchema {
            type_: Some(Type::String),
            format: Some(Format::Enum),
            enum_: vec![raw("Variant1"), raw("Variant2")],
            ..empty_schema()
        }
    );

    let fields = vec![named("field", "Vec<T>", Attr::new()), named("field1", "Option<&'a U>", Attr::new())];
    assert_eq!(
        generate_schema(&TopAttr::new(), &Shape::Named(fields)).unwrap(),
        DerivedSchema {
            type_: Some(Type::Object),
            properties: vec![
                (raw("field"), based(BaseSchema::Type("Vec<T>".to_owned()))),
                (raw("field1"), based(BaseSchema::Type("Option<&'a U>".to_owned()))),
            ],
            required: vec![raw("field"), raw("field1")],
            ..empty_schema()
        }
    );

    let top = TopAttr { rename_all_with: Some("suitcase".to_owned()), ..TopAttr::new() };
    let fields = vec![named("field", "()", Attr::new()), named("field1", "()", Attr::new())];
    let re = |n: &str| Value::ReCompute("suitcase".to_owned(), n.to_owned());
    assert_eq!(
        generate_schema(&top, &Shape::Named(fields)).unwrap(),
        DerivedSchema {
            type_: Some(Type::Object),
            properties: vec![
                (re("field"), based(BaseSchema::Type("()".to_owned()))),
                (re("field1"), based(BaseSchema::Type("()".to_owned()))),
            ],
            required: vec![re("field"), re("field1")],
            ..empty_schema()
        }
    );

    let top = TopAttr { rename_all_with: Some("misc::prettycase".to_owned()), ..TopAttr::new() };
    let variants = vec![
        VariantItem { name: "Variant1".to_owned(), attr: Attr::new(), data: VariantData::Unit },
        VariantItem { name: "Variant2".to_owned(), attr: Attr::new(), data: VariantData::Unit },
    ];
    let pretty = |n: &str| Value::ReCompute("misc::prettycase".to_owned(), n.to_owned());
    assert_eq!(
        generate_schema(&top, &Shape::Enum(variants)).unwrap().enum_,
        vec![pretty("Variant1"), pretty("Variant2")]
    );

    let fields = vec![named(
        "field",
        "Type",
        Attr { as_schema: Some("concrete::as_schema".to_owned()), ..Attr::new() },
    )];
    assert_eq!(
        generate_schema(&TopAttr::new(), &Shape::Named(fields)).unwrap().properties,
        vec![(raw("field"), based(BaseSchema::AsSchema("concrete::as_schema".to_owned())))]
    );

    let fields = vec![named(
        "field",
        "Wrapper<Type>",
        Attr { as_schema_generic: Some("generic::as_schema_generic".to_owned()), ..Attr::new() },
    )];
    assert_eq!(
        generate_schema(&TopAttr::new(), &Shape::Named(fields)).unwrap().properties,
        vec![(
            raw("field"),
            based(BaseSchema::AsSchemaGeneric("generic::as_schema_generic".to_owned(), "Wrapper<Type>".to_owned()))
        )]
    );
}

#[test]
fn derived_fields_follow_attributes() {
    let top = TopAttr { rename_all: Some(google_ai_rs::case::Case::Camel), ..TopAttr::new() };
    let fields = vec![
        named("first_name", "String", described("given name")),
        named("age", "u8", Attr { nullable: Some(true), ..Attr::new() }),
        named("secret", "String", Attr { skip: Some(true), ..Attr::new() }),
        named("rgb", "String", Attr { rename: Some("RGB".to_owned()), ..Attr::new() }),
        named("n", "f32", Attr { type_: Some("Number".to_owned()), format: Some("float".to_owned()), ..Attr::new() }),
    ];
    let s = generate_schema(&top, &Shape::Named(fields)).unwrap();
    let names: Vec<&Value> = s.properties.iter().map(|p| &p.0).collect();
    assert_eq!(names, vec![&raw("firstName"), &raw("age"), &raw("RGB"), &raw("n")]);
    assert_eq!(s.required, vec![raw("firstName"), raw("RGB"), raw("n")]);
    assert_eq!(s.properties[0].1.description.as_deref(), Some("given name"));
    assert_eq!(s.properties[3].1.type_, Some(Type::Number));
    assert_eq!(s.properties[3].1.format, Some(Format::Float));
    assert!(s.vet());

    let bad = vec![named("b", "bool", Attr { type_: Some("Boolean".to_owned()), format: Some("double".to_owned()), ..Attr::new() })];
    assert_eq!(
        generate_schema(&TopAttr::new(), &Shape::Named(bad)).unwrap_err(),
        "format `double` not supported for SchemaType::Boolean"
    );
    let both = TopAttr {
        rename_all: Some(google_ai_rs::case::Case::Snake),
        rename_all_with: Some("f".to_owned()),
        ..TopAttr::new()
    };
    assert!(generate_schema(&both, &Shape::Named(vec![])).is_err());
    assert_eq!(
        generate_schema(&TopAttr::new(), &Shape::Union).unwrap_err(),
        "Unions are not supported by AsSchema derive"
    );
}

#[test]
fn derived_enum_with_data() {
    let top = TopAttr { description: Some("shapes".to_owned()), rename_all: Some(google_ai_rs::case::Case::Snake), ..TopAttr::new() };
    let variants = vec![
        VariantItem { name: "Empty".to_owned(), attr: Attr::new(), data: VariantData::Unit },
        VariantItem {
            name: "Circle".to_owned(),
            attr: Attr { required: Some(true), description: Some("round".to_owned()), ..Attr::new() },
            data: VariantData::Unnamed(vec![TupleField { ty: "f64".to_owned(), attr: Attr::new(), has_schema_attr: false }]),
        },
        VariantItem {
            name: "Rect".to_owned(),
            attr: Attr::new(),
            data: VariantData::Named(vec![named("w", "f64", Attr::new()), named("h", "f64", Attr::new())]),
        },
    ];
    let s = generate_schema(&top, &Shape::Enum(variants)).unwrap();
    assert_eq!(s.type_, Some(Type::Object));
    assert_eq!(s.description.as_deref(), Some("shapes"));
    assert_eq!(s.required, vec![raw("Circle")]);
    assert_eq!(s.properties[0], (raw("Empty"), DerivedSchema { type_: Some(Type::Object), ..empty_schema() }));
    assert_eq!(s.properties[1].1.base, BaseSchema::Type("f64".to_owned()));
    assert_eq!(s.properties[1].1.description.as_deref(), Some("round"));
    assert_eq!(s.properties[2].1.required, vec![raw("w"), raw("h")]);
}

use google_ai_rs::meta::{has_schema_attr, parse_field, parse_top, parse_tuple, MetaAttr, MetaItem, MetaValue};

fn schema_attr(items: Vec<(&str, &str)>) -> MetaAttr {
    MetaAttr {
        owner: "schema".to_owned(),
        items: items
            .into_iter()
            .map(|(n, v)| MetaItem { name: n.to_owned(), value: MetaValue::Str(v.to_owned()) })
            .collect(),
    }
}

/// The shape of a type, with each item's attributes as written.
enum Written {
    Unit,
    Tuple(Vec<(&'static str, Vec<MetaAttr>)>),
    Named(Vec<(&'static str, &'static str, Vec<MetaAttr>)>),
    Enum(Vec<(&'static str, Vec<MetaAttr>)>),
}

/// Reads the attributes as the derive does, then derives the schema.
fn derive_from_written(top_attrs: &[MetaAttr], shape: Written) -> Result<DerivedSchema, String> {
    let top = parse_top(top_attrs)?;
    let ignore = top.ignore_serde.unwrap_or(false);
    let shape = match shape {
        Written::Unit => Shape::Unit,
        Written::Tuple(fields) => {
            let single = fields.len() == 1;
            let mut out = Vec::new();
            for (ty, attrs) in fields {
                let attr = if single { parse_tuple(&attrs, ignore)? } else { Attr::new() };
                out.push(TupleField { ty: ty.to_owned(), attr, has_schema_attr: has_schema_attr(&attrs) });
            }
            Shape::Tuple(out)
        },
        Written::Named(fields) => {
            let mut out = Vec::new();
            for (name, ty, attrs) in fields {
                out.push(named(name, ty, parse_field(&attrs, ignore)?));
            }
            Shape::Named(out)
        },
        Written::Enum(variants) => {
            let mut out = Vec::new();
            for (name, attrs) in variants {
                let attr = google_ai_rs::meta::parse_plain_enum(&attrs, ignore)?;
                out.push(VariantItem { name: name.to_owned(), attr, data: VariantData::Unit });
            }
            Shape::Enum(out)
        },
    };
    generate_schema(&top, &shape)
}

#[test]
fn test_derive_schema() {
    let unit = derive_from_written(
        &[schema_attr(vec![("description", "unit struct")]), schema_attr(vec![("nullable", "false")])],
        Written::Unit,
    );
    assert_eq!(
        unit.unwrap(),
        DerivedSchema {
            type_: Some(Type::Object),
            description: Some("unit struct".to_owned()),
            nullable: Some(false),
            ..empty_schema()
        }
    );

    let serde_tuple = derive_from_written(
        &[schema_attr(vec![("description", "Represents a radioactive element")])],
        Written::Tuple(vec![
            ("String", vec![schema_attr(vec![("description", "Element name")])]),
            ("f64", vec![schema_attr(vec![("description", "Half life")])]),
        ]),
    );
    assert!(serde_tuple.unwrap_err().contains("AsSchemaWithSerde"));

    let tuple = derive_from_written(&[], Written::Tuple(vec![("String", vec![]), ("f64", vec![])]));
    assert_eq!(
        tuple.unwrap(),
        DerivedSchema {
            type_: Some(Type::Array),
            items: Some(Box::new(DerivedSchema { type_: Some(Type::Unspecified), ..empty_schema() })),
            max_items: Some(2),
            min_items: Some(2),
            ..empty_schema()
        }
    );

    let plain_enum = derive_from_written(&[], Written::Enum(vec![("Variant1", vec![]), ("Variant2", vec![])]));
    assert_eq!(
        plain_enum.unwrap(),
        DerivedSchema {
            type_: Some(Type::String),
            format: Some(Format::Enum),
            enum_: vec![raw("Variant1"), raw("Variant2")],
            ..empty_schema()
        }
    );

    let named_struct = derive_from_written(
        &[],
        Written::Named(vec![("field", "Vec<T>", vec![]), ("field1", "Option<&'a U>", vec![])]),
    );
    assert_eq!(
        named_struct.unwrap(),
        DerivedSchema {
            type_: Some(Type::Object),
            properties: vec![
                (raw("field"), based(BaseSchema::Type("Vec<T>".to_owned()))),
                (raw("field1"), based(BaseSchema::Type("Option<&'a U>".to_owned()))),
            ],
            required: vec![raw("field"), raw("field1")],
            ..empty_schema()
        }
    );

    let re = |n: &str| Value::ReCompute("suitcase".to_owned(), n.to_owned());
    let renamed = derive_from_written(
        &[schema_attr(vec![("rename_all_with", "suitcase")])],
        Written::Named(vec![("field", "()", vec![]), ("field1", "()", vec![])]),
    );
    assert_eq!(
        renamed.unwrap(),
        DerivedSchema {
            type_: Some(Type::Object),
            properties: vec![
                (re("field"), based(BaseSchema::Type("()".to_owned()))),
                (re("field1"), based(BaseSchema::Type("()".to_owned()))),
            ],
            required: vec![re("field"), re("field1")],
            ..empty_schema()
        }
    );

    let pretty = |n: &str| Value::ReCompute("misc::prettycase".to_owned(), n.to_owned());
    let renamed_enum = derive_from_written(
        &[schema_attr(vec![("rename_all_with", "misc::prettycase")])],
        Written::Enum(vec![("Variant1", vec![]), ("Variant2", vec![])]),
    );
    assert_eq!(
        renamed_enum.unwrap(),
        DerivedSchema {
            type_: Some(Type::String),
            format: Some(Format::Enum),
            enum_: vec![pretty("Variant1"), pretty("Variant2")],
            ..empty_schema()
        }
    );

    let as_schema = derive_from_written(
        &[],
        Written::Named(vec![("field", "Type", vec![schema_attr(vec![("as_schema", "concrete::as_schema")])])]),
    );
    assert_eq!(
        as_schema.unwrap(),
        DerivedSchema {
            type_: Some(Type::Object),
            properties: vec![(raw("field"), based(BaseSchema::AsSchema("concrete::as_schema".to_owned())))],
            required: vec![raw("field")],
            ..empty_schema()
        }
    );

    let as_schema_generic = derive_from_written(
        &[],
        Written::Named(vec![(
            "field",
            "Wrapper<Type>",
            vec![schema_attr(vec![("as_schema_generic", "generic::as_schema_generic")])],
        )]),
    );
    assert_eq!(
        as_schema_generic.unwrap(),
        DerivedSchema {
            type_: Some(Type::Object),
            properties: vec![(
                raw("field"),
                based(BaseSchema::AsSchemaGeneric(
                    "generic::as_schema_generic".to_owned(),
                    "Wrapper<Type>".to_owned(),
                )),
            )],
            required: vec![raw("field")],
            ..empty_schema()
        }
    );
}

#[test]
fn serde_tuple_struct_names_fields_by_position() {
    let top = parse_top(&[schema_attr(vec![("description", "A product's price and availability")])]).unwrap();
    let fields = vec![
        SerdeTupleField { ty: "f32".to_owned(), attrs: vec![schema_attr(vec![("description", "Price in USD")])] },
        SerdeTupleField { ty: "bool".to_owned(), attrs: vec![schema_attr(vec![("description", "In stock")])] },
    ];
    let derived = serde_tuple_struct(&top, &fields).unwrap();
    assert_eq!(derived.type_, Some(Type::Object));
    assert_eq!(derived.description, Some("A product's price and availability".to_owned()));
    assert_eq!(derived.required, vec![raw("0"), raw("1")]);
    assert_eq!(derived.properties.len(), 2);
    assert_eq!(derived.properties[0].0, raw("0"));
    assert_eq!(derived.properties[0].1.base, BaseSchema::Type("f32".to_owned()));
    assert_eq!(derived.properties[0].1.description, Some("Price in USD".to_owned()));
    assert_eq!(derived.properties[1].0, raw("1"));
    assert_eq!(derived.properties[1].1.description, Some("In stock".to_owned()));

    let own_rename = vec![SerdeTupleField { ty: "u8".to_owned(), attrs: vec![schema_attr(vec![("rename", "x")])] }];
    assert_eq!(
        serde_tuple_struct(&top, &own_rename).unwrap_err(),
        "Schema attribute rename: Multiple values not supported"
    );
}

#[allow(non_snake_case)]
fn sAwCaSe(former_name: &str) -> String {
    former_name
        .char_indices()
        .map(|(i, c)| if i % 2 == 0 { c.to_ascii_lowercase() } else { c.to_ascii_uppercase() })
        .collect()
}

fn computed_name(v: &Value) -> String {
    match v {
        Value::Raw(s) => s.clone(),
        Value::ReCompute(f, s) => {
            assert_eq!(f, "sAwCaSe");
            sAwCaSe(s)
        }
    }
}

#[test]
fn rename_all_with() {
    let top = TopAttr { rename_all_with: Some("sAwCaSe".to_owned()), ..TopAttr::new() };
    let fields = vec![named("field", "()", Attr::new()), named("field1", "()", Attr::new())];
    let s = generate_schema(&top, &Shape::Named(fields)).unwrap();
    let names: Vec<String> = s.properties.iter().map(|p| computed_name(&p.0)).collect();
    assert_eq!(names, vec!["fIeLd".to_owned(), "fIeLd1".to_owned()]);
    let required: Vec<String> = s.required.iter().map(computed_name).collect();
    assert_eq!(required, vec!["fIeLd".to_owned(), "fIeLd1".to_owned()]);
    assert_eq!(s.type_, Some(Type::Object));
    assert_eq!(s.properties[0].1.base, BaseSchema::Type("()".to_owned()));
}

#[test]
fn as_schema() {
    let attr = Attr { as_schema: Some("wrapper_as_schema::<String>".to_owned()), ..Attr::new() };
    let s = generate_schema(&TopAttr::new(), &Shape::Named(vec![named("field", "Wrapper<String>", attr)])).unwrap();
    assert_eq!(s.type_, Some(Type::Object));
    assert_eq!(s.properties.len(), 1);
    assert_eq!(s.properties[0].0, raw("field"));
    assert_eq!(s.properties[0].1.base, BaseSchema::AsSchema("wrapper_as_schema::<String>".to_owned()));
    assert_eq!(s.required, vec![raw("field")]);
}

#[test]
fn as_schema_generic() {
    let attr = Attr { as_schema_generic: Some("wrapper_as_schema".to_owned()), ..Attr::new() };
    let s = generate_schema(&TopAttr::new(), &Shape::Named(vec![named("field", "Wrapper<String>", attr)])).unwrap();
    assert_eq!(s.type_, Some(Type::Object));
    assert_eq!(s.properties.len(), 1);
    assert_eq!(s.properties[0].0, raw("field"));
    assert_eq!(
        s.properties[0].1.base,
        BaseSchema::AsSchemaGeneric("wrapper_as_schema".to_owned(), "Wrapper<String>".to_owned())
    );
    assert_eq!(s.required, vec![raw("field")]);
}

#[test]
fn derivability_is_checked_before_deriving() {
    let camel = TopAttr { rename_all: Some(google_ai_rs::case::Case::Camel), ..TopAttr::new() };
    let cut = Shape::Named(vec![named("a_éb", "u8", Attr::new())]);
    assert!(!is_derivable(&camel, &cut));
    assert!(try_generate_schema(&camel, &cut).is_none());
    let own_name = Shape::Named(vec![named("a_éb", "u8", Attr { rename: Some("x".to_owned()), ..Attr::new() })]);
    assert!(is_derivable(&camel, &own_name));
    let fine = Shape::Named(vec![named("first_name", "String", Attr::new())]);
    assert!(is_derivable(&camel, &fine));
    let s = try_generate_schema(&camel, &fine).unwrap().unwrap();
    assert_eq!(s.properties[0].0, raw("firstName"));
    let variants = Shape::Enum(vec![VariantItem { name: "FooÉtat".to_owned(), attr: Attr::new(), data: VariantData::Unit }]);
    assert!(!is_derivable(&camel, &variants));
    assert!(is_derivable(&TopAttr::new(), &variants));
}
