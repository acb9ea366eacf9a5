use google_ai_rs::content::{
    candidate_contents, Candidate, Content, Data, GenerateContentResponse, Part, TryFromCandidates, TryFromContents,
};
use google_ai_rs::error::{Error, ServiceError};
use google_ai_rs::genai::TypedResponse;

struct TextLength(usize);

impl TryFromContents for TextLength {
    fn try_from_contents(contents: &Vec<Content>) -> Result<Self, Error> {
        let text = contents
            .iter()
            .flat_map(|c| c.parts.iter())
            .find_map(|p| match p {
                Part { data: Some(Data::Text(text)) } => Some(text),
                _ => None,
            })
            .ok_or(Error::Service(ServiceError::InvalidResponse("Empty response".into())))?;
        Ok(TextLength(text.len()))
    }
}

fn candidate(content: Option<Content>) -> Candidate {
    Candidate {
        index: None,
        content,
        finish_reason: 0,
        safety_ratings: vec![],
        citation_metadata: None,
        token_count: 0,
        grounding_attributions: vec![],
    }
}

fn response(contents: Vec<Option<Content>>) -> GenerateContentResponse {
    GenerateContentResponse {
        candidates: contents.into_iter().map(candidate).collect(),
        prompt_feedback: None,
        usage_metadata: None,
        model_version: "v1".to_owned(),
    }
}

#[test]
fn contents_of_candidates_that_have_one() {
    let cs = vec![candidate(None), candidate(Some(Content::model("a"))), candidate(Some(Content::model("bc")))];
    assert_eq!(candidate_contents(&cs), vec![Content::model("a"), Content::model("bc")]);
}

#[test]
fn user_reader_sees_the_contents() {
    let cs = vec![candidate(None), candidate(Some(Content::model("four")))];
    assert_eq!(TextLength::try_from_candidates(&cs).unwrap().0, 4);
    match TextLength::try_from_candidates(&[candidate(None)]) {
        Err(Error::Service(ServiceError::InvalidResponse(m))) => assert_eq!(m, "Empty response"),
        _ => panic!("expected the reader's error"),
    }
}

#[test]
fn typed_response_keeps_the_answer() {
    let typed: TypedResponse<TextLength> =
        TypedResponse::from_response(response(vec![Some(Content::model("hello"))])).unwrap();
    assert_eq!(typed.t.0, 5);
    assert_eq!(typed.raw.model_version, "v1");
    assert_eq!(typed.raw.candidates.len(), 1);
    assert!(TypedResponse::<TextLength>::from_response(response(vec![])).is_err());
}
