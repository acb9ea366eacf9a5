use google_ai_rs::content::{CodeExecutionResult, ExecutableCode, FileData, FunctionResponse};
use google_ai_rs::render::describe_invalid_content;
use google_ai_rs::content::{
    candidates_bytes, Blob, Candidate, Content, Data, FunctionCall, GenerateContentResponse, IntoContents,
    IntoParts, Part, TryIntoContents,
};
use google_ai_rs::error::Error;

fn response_of(contents: Vec<Option<Content>>) -> GenerateContentResponse {
    GenerateContentResponse {
        candidates: contents
            .into_iter()
            .map(|content| Candidate {
                index: None,
                content,
                finish_reason: 0,
                safety_ratings: vec![],
                citation_metadata: None,
                token_count: 0,
                grounding_attributions: vec![],
            })
            .collect(),
        prompt_feedback: None,
        usage_metadata: None,
        model_version: String::new(),
    }
}

fn call(name: &str) -> Part {
    Part {
        data: Some(Data::FunctionCall(FunctionCall {
            id: String::new(),
            name: name.to_owned(),
            args: None,
        })),
    }
}

#[test]
fn part_text_accessors() {
    let p = Part::text("hello");
    assert_eq!(p.to_text(), "hello");
    assert_eq!(p.into_text(), "hello");
    let b = Part::blob("image/png", vec![1, 2]);
    assert_eq!(b.to_text(), "");
    assert_eq!(b.into_text(), "");
}

#[test]
fn content_roles() {
    assert_eq!(Content::new("hi").role, "user");
    assert_eq!(Content::user("hi").role, "user");
    assert_eq!(Content::model("hi").role, "model");
    assert_eq!(Content::model(("a", "b")).parts, vec![Part::text("a"), Part::text("b")]);
}

#[test]
fn parts_of_tuples_and_vectors() {
    let parts = ("a", Part::blob("x/y", vec![7]), String::from("c")).into_parts();
    assert_eq!(parts, vec![Part::text("a"), Part::blob("x/y", vec![7]), Part::text("c")]);
    let parts = vec!["a", "b"].into_parts();
    assert_eq!(parts, vec![Part::text("a"), Part::text("b")]);
    let blob = Blob { mime_type: "a/b".to_owned(), data: vec![9] };
    assert_eq!(blob.into_parts(), vec![Part::blob("a/b", vec![9])]);
}

#[test]
fn response_text_joins_text_parts() {
    let r = response_of(vec![
        Some(Content::model(vec![Part::text("ab"), Part::blob("x/y", vec![1])])),
        None,
        Some(Content::model("cd")),
    ]);
    assert_eq!(r.to_text(), "abcd");
    assert_eq!(r.text(), "abcd");
}

#[test]
fn response_bytes_join_text_and_inline_data() {
    let r = response_of(vec![
        Some(Content::model(vec![Part::text("ab"), Part::blob("x/y", vec![1, 2])])),
        Some(Content::model("é")),
    ]);
    assert_eq!(r.to_bytes(), vec![b'a', b'b', 1, 2, 0xc3, 0xa9]);
    assert_eq!(r.try_to_bytes().unwrap(), vec![b'a', b'b', 1, 2, 0xc3, 0xa9]);
    assert_eq!(r.into_bytes(), vec![b'a', b'b', 1, 2, 0xc3, 0xa9]);
}

#[test]
fn response_bytes_refuse_other_parts() {
    let r = response_of(vec![Some(Content::model(vec![Part::text("ab"), call("f")]))]);
    match r.try_to_bytes() {
        Err(Error::InvalidContent(m)) => {
            assert!(m.starts_with("InvalidContent encountered  Some("));
            assert!(m.contains("FunctionCall"));
        }
        other => panic!("unexpected {other:?}"),
    }
    assert!(r.to_bytes().is_empty());
    assert!(matches!(r.try_into_bytes(), Err(Error::InvalidContent(_))));
}

#[test]
fn content_and_candidate_bytes() {
    let c = Content::model(vec![Part::text("a"), Part::blob("x/y", vec![5])]);
    assert_eq!(c.try_to_bytes().unwrap(), vec![b'a', 5]);
    let bad = Content::model(vec![Part { data: None }]);
    assert!(matches!(bad.try_to_bytes(), Err(Error::InvalidContent(_))));
    let r = response_of(vec![Some(Content::model("x")), None, Some(Content::model("y"))]);
    assert_eq!(candidates_bytes(&r.candidates).unwrap(), b"xy".to_vec());
}

#[test]
fn function_calls_of_candidate() {
    let c = Candidate {
        index: Some(0),
        content: Some(Content::model(vec![call("f"), Part::text("t"), call("g")])),
        finish_reason: 0,
        safety_ratings: vec![],
        citation_metadata: None,
        token_count: 0,
        grounding_attributions: vec![],
    };
    let calls = c.function_calls().unwrap();
    assert_eq!(calls.len(), 2);
    assert_eq!(calls[0].name, "f");
    assert_eq!(calls[1].name, "g");
    let empty = Candidate { content: None, ..c };
    assert!(empty.function_calls().is_none());
}

#[test]
fn cached_content_for_model() {
    let cc = "You are a helpful assistant".into_cached_content_for("gemini-1.0-pro");
    assert_eq!(cc.model.as_deref(), Some("models/gemini-1.0-pro"));
    assert_eq!(cc.contents, vec![Content::user("You are a helpful assistant")]);
    assert!(cc.name.is_none());
    let cc = vec![Content::model("x")].try_into_cached_content_for("tunedModels/t").unwrap();
    assert_eq!(cc.model.as_deref(), Some("tunedModels/t"));
    assert_eq!(cc.contents, vec![Content::model("x")]);
}

#[test]
fn contents_conversions() {
    assert_eq!("q".into_contents(), vec![Content::user("q")]);
    assert_eq!(vec![Content::model("a")].try_into_contents().unwrap(), vec![Content::model("a")]);
}

#[test]
fn bytes_with_a_mapping_of_parts() {
    let upper = |d: Option<Data>| -> Result<Vec<u8>, Error> {
        match d {
            Some(Data::Text(t)) => Ok(t.to_uppercase().into_bytes()),
            Some(Data::InlineData(b)) => Ok(b.data),
            other => Err(Error::InvalidContent(format!("cannot map {other:?}"))),
        }
    };
    let response = response_of(vec![
        Some(Content::model(("ab", Part::blob("x/y", vec![1, 2])))),
        None,
        Some(Content::model("c")),
    ]);
    assert_eq!(response.try_into_bytes_with(upper).unwrap(), vec![b'A', b'B', 1, 2, b'C']);

    let stops = response_of(vec![Some(Content::model(vec![Part::text("a"), call("f"), Part::text("b")]))]);
    match stops.try_into_bytes_with(upper) {
        Err(Error::InvalidContent(m)) => assert!(m.starts_with("cannot map Some(FunctionCall")),
        other => panic!("unexpected {other:?}"),
    }

    assert!(response_of(vec![]).try_into_bytes_with(upper).unwrap().is_empty());
}

#[test]
fn invalid_content_message_is_the_pretty_debug_text() {
    let cases = vec![
        None,
        Some(Data::Text("say \"hi\"\n\ttab é".to_owned())),
        Some(Data::InlineData(Blob { mime_type: "a/b".to_owned(), data: vec![] })),
        Some(Data::InlineData(Blob { mime_type: "a/b".to_owned(), data: vec![0, 7, 255] })),
        Some(Data::FunctionCall(FunctionCall { id: "1".to_owned(), name: "f".to_owned(), args: None })),
        Some(Data::FunctionCall(FunctionCall {
            id: String::new(),
            name: "g".to_owned(),
            args: Some("{\"a\":1}".to_owned()),
        })),
        Some(Data::FunctionResponse(FunctionResponse {
            id: "2".to_owned(),
            name: "h".to_owned(),
            response: Some("ok".to_owned()),
        })),
        Some(Data::FileData(FileData { mime_type: "x/y".to_owned(), file_uri: "gs://b/o".to_owned() })),
        Some(Data::ExecutableCode(ExecutableCode { language: -3, code: "print(1)\n".to_owned() })),
        Some(Data::CodeExecutionResult(CodeExecutionResult { outcome: 2147483647, output: "".to_owned() })),
    ];
    for d in cases {
        assert_eq!(describe_invalid_content(&d), format!("InvalidContent encountered  {d:#?}"));
    }
}
