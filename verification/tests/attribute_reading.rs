use google_ai_rs::case::Case;
use google_ai_rs::derive::Attr;
use google_ai_rs::meta::{
    parse_field, parse_plain_enum, parse_top, parse_tuple, take_attr_value, Context, Got, Kind, MetaAttr,
    MetaItem, MetaValue, SetAttr,
};

fn s(v: &str) -> MetaValue {
    MetaValue::Str(v.to_string())
}

fn item(name: &str, value: MetaValue) -> MetaItem {
    MetaItem { name: name.to_string(), value }
}

fn attr(owner: &str, items: Vec<MetaItem>) -> MetaAttr {
    MetaAttr { owner: owner.to_string(), items }
}

fn schema(items: Vec<MetaItem>) -> MetaAttr {
    attr("schema", items)
}

fn serde(items: Vec<MetaItem>) -> MetaAttr {
    attr("serde", items)
}

fn assert_attr_eq(got: &Attr, want: &Attr) {
    assert_eq!(got.description, want.description);
    assert_eq!(got.format, want.format);
    assert_eq!(got.type_, want.type_);
    assert_eq!(got.as_schema, want.as_schema);
    assert_eq!(got.as_schema_generic, want.as_schema_generic);
    assert_eq!(got.rename, want.rename);
    assert_eq!(got.required, want.required);
    assert_eq!(got.min_items, want.min_items);
    assert_eq!(got.max_items, want.max_items);
    assert_eq!(got.nullable, want.nullable);
    assert_eq!(got.skip, want.skip);
}

#[test]
fn attr_attributes() {
    struct Test {
        title: &'static str,
        fields: Vec<Vec<MetaAttr>>,
        want: Vec<Attr>,
    }

    let tests = vec![
        Test {
            title: "basic",
            fields: vec![
                vec![
                    schema(vec![
                        item("description", s("this is my non-negotiable field")),
                        item("required", MetaValue::Absent),
                    ]),
                    schema(vec![item("rename", s("ValuableField"))]),
                ],
                vec![schema(vec![item("r#type", s("String"))])],
                vec![schema(vec![item("r#type", s("Number")), item("format", s("float"))])],
            ],
            want: vec![
                Attr {
                    description: Some("this is my non-negotiable field".to_string()),
                    required: Some(true),
                    rename: Some("ValuableField".to_string()),
                    ..Attr::new()
                },
                Attr { type_: Some("String".to_string()), ..Attr::new() },
                Attr { type_: Some("Number".to_string()), format: Some("float".to_string()), ..Attr::new() },
            ],
        },
        Test {
            title: "serde skip - schema don't",
            fields: vec![vec![
                schema(vec![
                    item("description", s("description of field field")),
                    item("nullable", MetaValue::Absent),
                ]),
                serde(vec![item("skip", MetaValue::Absent)]),
                schema(vec![item("skip", s("false"))]),
            ]],
            want: vec![Attr {
                description: Some("description of field field".to_string()),
                skip: Some(false),
                nullable: Some(true),
                ..Attr::new()
            }],
        },
        Test {
            title: "serde skip and rename",
            fields: vec![vec![
                serde(vec![item("rename", s("TRUE"))]),
                serde(vec![item("skip", MetaValue::Absent)]),
            ]],
            want: vec![Attr { rename: Some("TRUE".to_string()), skip: Some(true), ..Attr::new() }],
        },
        Test {
            title: "boolean",
            fields: vec![
                vec![schema(vec![item("skip", MetaValue::Absent)])],
                vec![schema(vec![item("nullable", MetaValue::Bool(true))])],
                vec![schema(vec![item("skip", s("false"))])],
            ],
            want: vec![
                Attr { skip: Some(true), ..Attr::new() },
                Attr { nullable: Some(true), ..Attr::new() },
                Attr { skip: Some(false), ..Attr::new() },
            ],
        },
        Test {
            title: "description",
            fields: vec![vec![
                schema(vec![item("description", s("Line 1"))]),
                schema(vec![item("description", s(""))]),
                schema(vec![item("description", s("Line 2"))]),
            ]],
            want: vec![Attr { description: Some("Line 1\nLine 2".to_string()), ..Attr::new() }],
        },
        Test {
            title: "description -(1)",
            fields: vec![vec![
                schema(vec![item("description", s("Line 1 "))]),
                schema(vec![item("description", s("Line 2"))]),
            ]],
            want: vec![Attr { description: Some("Line 1 Line 2".to_string()), ..Attr::new() }],
        },
        Test {
            title: "ExprPath - FIXME(tired)",
            fields: vec![vec![schema(vec![item("as_schema", s("crate::module::function"))])]],
            want: vec![Attr { as_schema: Some("crate::module::function".to_string()), ..Attr::new() }],
        },
    ];

    for test in tests {
        println!("title: {}", test.title);
        assert_eq!(test.fields.len(), test.want.len());
        for (ith, field_attrs) in test.fields.iter().enumerate() {
            match parse_field(field_attrs, false) {
                Ok(attr) => assert_attr_eq(&attr, &test.want[ith]),
                Err(err) => panic!("test failed: {err:#?}"),
            };
        }
    }
}

#[test]
fn attr_struct_and_enum_attributes_validity() {
    struct Test {
        title: &'static str,
        attrs: Vec<MetaAttr>,
        should_fail: bool,
        error_like: Option<Vec<&'static str>>,
        is_enum: bool,
    }

    let tests = vec![
        Test {
            title: "invalid boolean",
            attrs: vec![schema(vec![item("skip", s("f"))])],
            should_fail: true,
            error_like: Some(vec!["boolean", "true", "false"]),
            is_enum: false,
        },
        Test {
            title: "",
            attrs: vec![schema(vec![item("nullable", s("false"))])],
            should_fail: false,
            error_like: None,
            is_enum: false,
        },
        Test {
            title: "valid no-value boolean",
            attrs: vec![schema(vec![item("skip", MetaValue::Absent)])],
            should_fail: false,
            error_like: None,
            is_enum: false,
        },
        Test {
            title: "no argument for argument",
            attrs: vec![schema(vec![item("description", MetaValue::Absent)])],
            should_fail: true,
            error_like: Some(vec!["argument"]),
            is_enum: false,
        },
        Test {
            title: "unknown attribute",
            attrs: vec![schema(vec![item("unknown", s("attribute value"))])],
            should_fail: true,
            error_like: Some(vec!["unsupported"]),
            is_enum: false,
        },
        Test {
            title: "unconcerned unknown attribute",
            attrs: vec![serde(vec![item("unknown", s("attribute value"))])],
            should_fail: false,
            error_like: None,
            is_enum: false,
        },
        Test {
            title: "concerned 'no argument for argument'",
            attrs: vec![serde(vec![item("rename", MetaValue::Absent)])],
            should_fail: true,
            error_like: Some(vec!["argument"]),
            is_enum: false,
        },
        Test {
            title: "disallowed attribute",
            attrs: vec![schema(vec![item("description", s("This is variant 1"))])],
            should_fail: true,
            error_like: Some(vec!["disallowed"]),
            is_enum: true,
        },
        Test {
            title: "disallowed value",
            attrs: vec![schema(vec![item("format", s("int128"))])],
            should_fail: true,
            error_like: Some(vec!["only takes one of", "float", "double"]),
            is_enum: false,
        },
    ];

    for test in tests {
        let r = if test.is_enum { parse_plain_enum(&test.attrs, false) } else { parse_field(&test.attrs, false) };
        println!("title: {}", test.title);
        if test.should_fail {
            match r {
                Ok(_) => panic!("test did not fail"),
                Err(err) => {
                    if let Some(error_like) = test.error_like {
                        let mut matches = false;
                        let err = err.to_lowercase();
                        for like in error_like {
                            matches = matches || err.contains(like)
                        }
                        println!("{err}");
                        assert!(matches);
                    }
                },
            }
        } else if let Err(err) = r {
            panic!("test failed: {err:#?}");
        }
    }
}

#[test]
fn context_init() {
    let specified = vec![schema(vec![item("crate_path", s("crate_path"))])];
    let ctx = Context::new(&specified).unwrap();
    assert_eq!(ctx.crate_path, "crate_path");
    assert_eq!(ctx.trait_bound, "crate_path::AsSchema");
    assert!(!ctx.has_static);

    let ctx = Context::new(&[]).unwrap();
    assert_eq!(ctx.crate_path, "::google_ai_rs");
    assert_eq!(ctx.trait_bound, "::google_ai_rs::AsSchema");
    assert!(!ctx.has_static);
}

#[test]
fn serde_path() {
    let attrs = vec![
        schema(vec![item("crate_path", s("crate"))]),
        serde(vec![item("crate", s("mod_serde"))]),
    ];
    assert!(Context::new(&attrs).is_ok());
    assert_eq!(google_ai_rs::meta::serde_path(&attrs).unwrap(), "mod_serde");
    assert_eq!(google_ai_rs::meta::serde_path(&[]).unwrap(), "::serde");
}

#[test]
fn refused_attribute_lists_the_allowed_ones() {
    let attrs = vec![schema(vec![item("description", s("This is variant 1"))])];
    assert_eq!(
        parse_plain_enum(&attrs, false).unwrap_err(),
        "Disallowed schema attribute description. Allowed attributes include: `ignore_serde`, `rename`, and `skip`"
    );
    let attrs = vec![schema(vec![item("rename", s("x"))])];
    assert_eq!(
        parse_tuple(&attrs, false).unwrap_err(),
        "Disallowed schema attribute rename. Allowed attributes include: `as_schema`, `as_schema_generic`, \
         `description`, `format`, `ignore_serde`, `max_items`, `min_items`, `nullable`, `r#type`, `required`, \
         and `skip`"
    );
}

#[test]
fn unknown_attribute_lists_the_valid_ones() {
    let attrs = vec![schema(vec![item("unknown", s("attribute value"))])];
    assert_eq!(
        parse_field(&attrs, false).unwrap_err(),
        "Unsupported schema attribute unknown. Valid attributes include: `as_schema`, `as_schema_generic`, \
         `description`, `format`, `ignore_serde`, `max_items`, `min_items`, `nullable`, `r#type`, `rename`, \
         `required`, and `skip`"
    );
}

#[test]
fn repeated_and_malformed_values() {
    let twice = vec![schema(vec![item("rename", s("a"))]), schema(vec![item("rename", s("b"))])];
    assert_eq!(parse_field(&twice, false).unwrap_err(), "Schema attribute rename: Multiple values not supported");

    let flag = vec![schema(vec![item("skip", s("f"))])];
    assert_eq!(
        parse_field(&flag, false).unwrap_err(),
        "Schema attribute skip: Error parsing value: expected boolean literal"
    );

    let no_text = vec![schema(vec![item("rename", MetaValue::Int(3))])];
    assert_eq!(
        parse_field(&no_text, false).unwrap_err(),
        "Schema attribute rename: Error parsing value: expected string literal"
    );

    let keyword = vec![schema(vec![item("as_schema", MetaValue::Bool(true))])];
    assert_eq!(
        parse_field(&keyword, false).unwrap_err(),
        "Schema attribute as_schema: Error parsing value: expected identifier, found keyword `true`"
    );

    let format = vec![schema(vec![item("format", s("int128"))])];
    assert_eq!(
        parse_field(&format, false).unwrap_err(),
        "Schema attribute format: Unknown value int128 for Format. Valid values include: ``, `double`, `enum`, \
         `float`, `int32`, and `int64`"
    );

    let ty = vec![schema(vec![item("r#type", s("Text"))])];
    assert_eq!(
        parse_field(&ty, false).unwrap_err(),
        "Schema attribute r#type: Unknown value Text for Type. Valid values include: `Array`, `Boolean`, \
         `Integer`, `Number`, `Object`, `String`, and `Unspecified`"
    );

    let path_name = vec![schema(vec![item("a::b", s("x"))])];
    assert_eq!(parse_field(&path_name, false).unwrap_err(), "expected `,`");
}

#[test]
fn counts_fit_in_i64() {
    let ok = vec![schema(vec![item("min_items", MetaValue::Int(2)), item("max_items", MetaValue::Int(5))])];
    let attr = parse_field(&ok, false).unwrap();
    assert_eq!(attr.min_items, Some(2));
    assert_eq!(attr.max_items, Some(5));

    let big = vec![schema(vec![item("max_items", MetaValue::Int(u64::MAX))])];
    assert_eq!(
        parse_field(&big, false).unwrap_err(),
        "Schema attribute max_items: number too large to fit in target type"
    );
}

#[test]
fn serde_fallback_rules() {
    let ignored = vec![serde(vec![item("rename", s("x")), item("skip", MetaValue::Absent)])];
    let attr = parse_field(&ignored, true).unwrap();
    assert_eq!(attr.rename, None);
    assert_eq!(attr.skip, None);

    let schema_first = vec![schema(vec![item("rename", s("mine"))]), serde(vec![item("rename", s("theirs"))])];
    assert_eq!(parse_field(&schema_first, false).unwrap().rename, Some("mine".to_string()));

    let after_flag = vec![serde(vec![item("default", MetaValue::Absent), item("rename", s("y"))])];
    assert_eq!(parse_field(&after_flag, false).unwrap().rename, Some("y".to_string()));

    let after_value = vec![serde(vec![item("default", s("make")), item("rename", s("y"))])];
    assert_eq!(parse_field(&after_value, false).unwrap().rename, None);

    let tuple = vec![serde(vec![item("rename", s("y"))])];
    assert_eq!(parse_tuple(&tuple, false).unwrap().rename, None);
}

#[test]
fn top_attributes() {
    let attrs = vec![schema(vec![
        item("description", s("A type")),
        item("rename_all_with", MetaValue::Path("misc::prettycase".to_string())),
        item("nullable", MetaValue::Absent),
    ])];
    let top = parse_top(&attrs).unwrap();
    assert_eq!(top.description, Some("A type".to_string()));
    assert_eq!(top.rename_all, None);
    assert_eq!(top.rename_all_with, Some("misc::prettycase".to_string()));
    assert_eq!(top.nullable, Some(true));
    assert_eq!(top.ignore_serde, None);

    let from_serde = vec![serde(vec![item("rename_all", s("camelCase"))])];
    assert_eq!(parse_top(&from_serde).unwrap().rename_all, Some(Case::Camel));

    let ignoring = vec![schema(vec![item("ignore_serde", MetaValue::Absent)]), serde(vec![item("rename_all", s("camelCase"))])];
    assert_eq!(parse_top(&ignoring).unwrap().rename_all, None);

    let unknown = vec![schema(vec![item("rename_all", s("Title Case"))])];
    assert_eq!(
        parse_top(&unknown).unwrap_err(),
        "Schema attribute rename_all: Unknown value Title Case for Case. Valid values include: `PascalCase`, \
         `SCREAMING-KEBAB-CASE`, `SCREAMING_SNAKE_CASE`, `UPPERCASE`, `camelCase`, `kebab-case`, `lowercase`, \
         and `snake_case`"
    );
}

#[test]
fn single_attribute_lookup() {
    let attrs = vec![schema(vec![item("nullable", MetaValue::Bool(false))]), serde(vec![item("skip", MetaValue::Absent)])];
    match SetAttr::new(&attrs).get_attr_fn("nullable", Kind::Flag) {
        Ok(Some(Got::Flag(b))) => assert!(!b),
        _ => panic!("nullable not read"),
    }
    match SetAttr::new(&attrs).switch_to_serde().get_attr_fn("skip", Kind::Flag) {
        Ok(Some(Got::Flag(b))) => assert!(b),
        _ => panic!("skip not read"),
    }
    assert!(SetAttr::new(&attrs).disallow(vec!["skip"]).is_disallowed("skip"));
    match take_attr_value(Kind::Lines, &Some(Got::Text("a".to_string())), &s("b")) {
        Ok(Got::Text(t)) => assert_eq!(t, "ab"),
        _ => panic!("lines not joined"),
    }
}

#[test]
fn attr_unread_attribute() {
    let attrs = vec![attr(
        "attr",
        vec![item("I_care_less", s("something")), item("what_I_want", s("seen only after"))],
    )];
    let looking = SetAttr::new(&attrs).owner("attr").finding();
    match looking.get_attr_fn("what_I_want", Kind::Text) {
        Ok(None) => {},
        _ => panic!("an unread value should end the attribute"),
    }
    let strict = SetAttr::new(&attrs).owner("attr");
    assert!(strict.get_attr_fn("what_I_want", Kind::Text).unwrap_err().starts_with("Unsupported schema attribute I_care_less"));
}

#[test]
fn other_owners_are_not_read() {
    let attrs = vec![
        attr("doc", vec![item("anything", s("at all")), item("a::b", MetaValue::Int(1))]),
        schema(vec![item("rename", s("kept"))]),
    ];
    assert_eq!(parse_field(&attrs, false).unwrap().rename, Some("kept".to_string()));
    let ignored = vec![serde(vec![item("rename", MetaValue::Absent)]), schema(vec![item("skip", MetaValue::Absent)])];
    assert_eq!(parse_field(&ignored, true).unwrap().skip, Some(true));
    assert!(parse_field(&ignored, false).is_err());
}

#[test]
fn field_level_ignore_serde() {
    let attrs = vec![schema(vec![item("ignore_serde", MetaValue::Absent)]), serde(vec![item("rename", s("x"))])];
    assert_eq!(parse_field(&attrs, false).unwrap().rename, None);
    let skipped = vec![serde(vec![item("skip", MetaValue::Absent)]), schema(vec![item("ignore_serde", s("true"))])];
    assert_eq!(parse_field(&skipped, false).unwrap().skip, None);
    let not_ignored = vec![schema(vec![item("ignore_serde", MetaValue::Bool(false))]), serde(vec![item("rename", s("x"))])];
    assert_eq!(parse_field(&not_ignored, false).unwrap().rename, Some("x".to_string()));
}
