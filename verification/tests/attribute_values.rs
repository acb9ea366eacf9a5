use google_ai_rs::attr::{
    format_possible_values, parse_case, prepare_rename_all, rename_item, required_flag, sort_strs, str_less,
    type_and_format, unknown_one_of_error, Format, RenameAll, Type, Value,
};
use google_ai_rs::case::Case;

#[test]
fn possible_values_are_sorted_and_listed() {
    let mut v = vec!["c", "a", "b"];
    assert_eq!(format_possible_values(&mut v, "and"), "`a`, `b`, and `c`");
    assert_eq!(v, vec!["a", "b", "c"]);
    let mut two = vec!["y", "x"];
    assert_eq!(format_possible_values(&mut two, "or"), "`x`, or `y`");
    let mut one = vec!["only"];
    assert_eq!(format_possible_values(&mut one, "and"), "`only`");
    let mut none: Vec<&str> = vec![];
    assert_eq!(format_possible_values(&mut none, "and"), "");
}

#[test]
fn string_order() {
    assert!(str_less("a", "b"));
    assert!(str_less("ab", "abc"));
    assert!(!str_less("abc", "ab"));
    assert!(!str_less("same", "same"));
    assert!(str_less("Z", "a"));
    let mut v = vec!["snake_case", "camelCase", "UPPERCASE", "kebab-case", "camelCase"];
    sort_strs(&mut v);
    assert_eq!(v, vec!["UPPERCASE", "camelCase", "camelCase", "kebab-case", "snake_case"]);
}

#[test]
fn unknown_value_message() {
    let mut valid = vec!["float", "double"];
    assert_eq!(
        unknown_one_of_error("int128", &mut valid, "Format"),
        "Unknown value int128 for Format. Valid values include: `double`, and `float`"
    );
    assert_eq!(parse_case("camelCase").unwrap(), Case::Camel);
    assert_eq!(parse_case("SCREAMING-KEBAB-CASE").unwrap(), Case::ScreamingKebab);
    assert_eq!(
        parse_case("sAwCaSe").unwrap_err(),
        "Unknown value sAwCaSe for Case. Valid values include: `PascalCase`, `SCREAMING-KEBAB-CASE`, \
         `SCREAMING_SNAKE_CASE`, `UPPERCASE`, `camelCase`, `kebab-case`, `lowercase`, and `snake_case`"
    );
}

#[test]
fn types_and_formats() {
    assert_eq!(Type::from_str("Number").unwrap(), Type::Number);
    assert_eq!(Type::from_str("number"), Err("Invalid type"));
    assert_eq!(Format::from_str("").unwrap(), Format::Empty);
    assert_eq!(Format::from_str("int128"), Err("Invalid format"));
    assert_eq!(Type::Integer.as_str(), "Integer");
    assert_eq!(Format::Int64.as_str(), "int64");
    assert!(Type::String.is_compatible_with(Format::Enum));
    assert!(!Type::String.is_compatible_with(Format::Float));
    assert!(Type::Boolean.is_compatible_with(Format::Empty));
    assert_eq!(type_and_format("Number", Some("float")).unwrap(), (Type::Number, Format::Float));
    assert_eq!(type_and_format("String", Some("nonsense")).unwrap(), (Type::String, Format::Empty));
    assert_eq!(type_and_format("Integer", None).unwrap(), (Type::Integer, Format::Empty));
    assert_eq!(
        type_and_format("Boolean", Some("double")).unwrap_err(),
        "format `double` not supported for SchemaType::Boolean"
    );
    assert_eq!(type_and_format("Bool", None).unwrap_err(), "Invalid type");
}

#[test]
fn required_and_renaming() {
    assert!(required_flag(None, None));
    assert!(!required_flag(Some(true), None));
    assert!(!required_flag(Some(false), None));
    assert!(required_flag(Some(true), Some(true)));
    assert!(!required_flag(None, Some(false)));

    assert_eq!(
        prepare_rename_all(Some(Case::Camel), Some("f"), false).unwrap_err(),
        "Schema attributes rename_all and rename_all_with can't be both set."
    );
    assert!(prepare_rename_all(None, None, true).unwrap().is_none());
    let fields = prepare_rename_all(Some(Case::Camel), None, false).unwrap().unwrap();
    assert_eq!(rename_item(Some(&fields), "field_one", None), Value::Raw("fieldOne".to_owned()));
    assert_eq!(rename_item(Some(&fields), "field_one", Some("RGB")), Value::Raw("RGB".to_owned()));
    let variants = prepare_rename_all(Some(Case::Snake), None, true).unwrap().unwrap();
    assert_eq!(rename_item(Some(&variants), "HTTPRequest", None), Value::Raw("http_request".to_owned()));
    let with = RenameAll::With("misc::prettycase".to_owned());
    assert_eq!(
        rename_item(Some(&with), "field", None),
        Value::ReCompute("misc::prettycase".to_owned(), "field".to_owned())
    );
    assert_eq!(rename_item(None, "field", None), Value::Raw("field".to_owned()));
}
