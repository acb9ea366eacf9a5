use google_ai_rs::case::{
    rename_all, rename_all_variants, snake_case, try_rename_all, try_rename_all_variants, Case, PascalCase,
};

#[test]
fn from_snake() {
    struct Test {
        title: &'static str,
        input: &'static str,
        wants: Vec<(Case, &'static str)>,
    }

    let tests = [
        Test {
            title: "leading delim",
            input: "__private",
            wants: vec![(Case::Camel, "private"), (Case::Pascal, "Private")],
        },
        Test {
            title: "normal snake_case",
            input: "hello_world",
            wants: vec![(Case::Camel, "helloWorld"), (Case::Pascal, "HelloWorld")],
        },
        Test {
            title: "`_` mayhem",
            input: "__foo__Bar__",
            wants: vec![(Case::Camel, "fooBar"), (Case::Pascal, "FooBar")],
        },
        Test {
            title: "alreadyCamel_alreadyCamel",
            input: "alreadyCamel_alreadyCamel",
            wants: vec![
                (Case::Camel, "alreadyCamelAlreadyCamel"),
                (Case::Pascal, "AlreadyCamelAlreadyCamel"),
            ],
        },
        Test {
            title: "alreadyCamel",
            input: "alreadyCamel",
            wants: vec![(Case::Camel, "alreadyCamel"), (Case::Pascal, "AlreadyCamel")],
        },
    ];

    for test in tests {
        println!("{}", test.title);
        for want in test.wants {
            match want {
                (Case::Camel, want) => {
                    assert_eq!(snake_case::to_camel_case(test.input), want)
                }
                (Case::Snake, want) => {
                    assert_eq!(snake_case::to_snake_case(test.input), want)
                }
                (Case::Pascal, want) => {
                    assert_eq!(snake_case::to_pascal_case(test.input), want)
                }
                _ => unreachable!(),
            }
        }
    }
}

#[test]
#[allow(non_snake_case)]
fn PascalCaseTokenize() {
    let tests = [
        ("HTTPRequest", vec!["HTTP", "Request"]),
        ("LiFE", vec!["Li", "FE"]),
        ("PipE", vec!["Pip", "E"]),
        ("NormalPascal", vec!["Normal", "Pascal"]),
        ("invalidPascal", vec!["invalid", "Pascal"]),
        ("very_invalid_pascal", vec!["very_invalid_pascal"]),
        (
            "NormalPascalLongerAJiGsAwTT",
            vec!["Normal", "Pascal", "Longer", "A", "Ji", "Gs", "Aw", "TT"],
        ),
    ];

    for test in tests {
        assert_eq!(
            PascalCase::tokenize(test.0).into_iter().collect::<Vec<_>>(),
            test.1
        )
    }
}

#[test]
#[allow(non_snake_case)]
fn from_PascalCase() {
    struct Test {
        title: &'static str,
        input: &'static str,
        wants: Vec<(Case, &'static str)>,
    }

    let tests = [
        Test {
            title: "consecutive capitals",
            input: "HTTPRequest",
            wants: vec![(Case::Snake, "http_request"), (Case::Camel, "httpRequest")],
        },
        Test {
            title: "consecutive capitals (1)",
            input: "MyHTTPRequest",
            wants: vec![(Case::Snake, "my_http_request")],
        },
        Test {
            title: "consecutive capitals (2)",
            input: "ABCdef",
            wants: vec![(Case::Snake, "ab_cdef")],
        },
        Test {
            title: "consecutive capitals (3)",
            input: "HTTPRequestAPI",
            wants: vec![
                (Case::Snake, "http_request_api"),
                (Case::Camel, "httpRequestApi"),
            ],
        },
        Test {
            title: "normal PascalCase",
            input: "HelloWorld",
            wants: vec![
                (Case::Snake, "hello_world"),
                (Case::Camel, "helloWorld"),
                (Case::Kebab, "hello-world"),
            ],
        },
    ];

    for test in tests {
        println!("{}", test.title);
        for want in test.wants {
            match want {
                (Case::Camel, want) => {
                    assert_eq!(PascalCase::to_camel_case(test.input), want)
                }
                (Case::Snake, want) => {
                    assert_eq!(PascalCase::to_snake_case(test.input), want)
                }
                (Case::Pascal, want) => {
                    assert_eq!(PascalCase::to_pascal_case(test.input), want)
                }
                (Case::Kebab, want) => {
                    assert_eq!(PascalCase::to_kebab_case(test.input), want)
                }
                _ => unreachable!(),
            }
        }
    }
}

#[test]
fn pascal_case_beyond_ascii() {
    assert_eq!(PascalCase::tokenize("naïveWord"), vec!["naïve", "Word"]);
    assert_eq!(PascalCase::to_snake_case("naïveWord"), "naïve_word");
    assert_eq!(PascalCase::SCREAMING_SNAKE_CASE("naïveWord"), "NAÏVE_WORD");
    assert_eq!(PascalCase::SCREAMING_KEBAB_CASE("HelloWorld"), "HELLO-WORLD");
    assert_eq!(snake_case::SCREAMING_SNAKE_CASE("straße_x"), "STRASSE_X");
    assert_eq!(snake_case::to_kebab_case("a_b__c"), "a-b--c");
}

#[test]
fn renaming_by_convention() {
    assert_eq!(rename_all(Case::Camel, "hello_world"), "helloWorld");
    assert_eq!(rename_all(Case::Upper, "hello_world"), "HELLO_WORLD");
    assert_eq!(rename_all(Case::Lower, "Hello_World"), "hello_world");
    assert_eq!(rename_all(Case::ScreamingKebab, "hello_world"), "HELLO-WORLD");
    assert_eq!(rename_all_variants(Case::Kebab, "HTTPRequest"), "http-request");
    assert_eq!(rename_all_variants(Case::Pascal, "HTTPRequest"), "HTTPRequest");
    assert_eq!(rename_all_variants(Case::ScreamingSnake, "MyHTTPRequest"), "MY_HTTP_REQUEST");
    assert_eq!(Case::from_name("kebab-case"), Some(Case::Kebab));
    assert_eq!(Case::Kebab.as_str(), "kebab-case");
    assert_eq!(Case::from_name("Kebab"), None);
}

#[test]
fn checked_renaming_refuses_what_cannot_be_cut() {
    assert_eq!(PascalCase::try_tokenize("naïveWord"), Some(vec!["naïve", "Word"]));
    assert!(PascalCase::is_tokenizable("HTTPRequest"));
    assert!(PascalCase::is_camel_safe("HelloWorld"));
    assert!(!PascalCase::is_camel_safe("FooÉtat"));
    assert_eq!(try_rename_all(Case::Camel, "hello_world"), Some("helloWorld".to_owned()));
    assert_eq!(try_rename_all(Case::Camel, "a_éb"), None);
    assert_eq!(try_rename_all(Case::Snake, "a_éb"), Some("a_éb".to_owned()));
    assert_eq!(try_rename_all_variants(Case::Kebab, "HTTPRequest"), Some("http-request".to_owned()));
    assert_eq!(try_rename_all_variants(Case::Camel, "FooÉtat"), None);
}
