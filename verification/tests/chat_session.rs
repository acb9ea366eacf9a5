use google_ai_rs::chat::{merge_content, merge_parts, ResponseStream};
use google_ai_rs::content::{Candidate, CitationMetadata, CitationSource, Content, GenerateContentResponse, Part};
use google_ai_rs::error::{Error, ServiceError};
use google_ai_rs::genai::GenerativeModel;

fn answer(texts: &[&str]) -> GenerateContentResponse {
    GenerateContentResponse {
        candidates: texts
            .iter()
            .enumerate()
            .map(|(i, t)| Candidate {
                index: Some(i as i32),
                content: Some(Content::user(*t)),
                finish_reason: 1,
                safety_ratings: vec![],
                citation_metadata: None,
                token_count: 0,
                grounding_attributions: vec![],
            })
            .collect(),
        prompt_feedback: None,
        usage_metadata: None,
        model_version: String::new(),
    }
}

#[test]
fn session_keeps_history() {
    let model = GenerativeModel::new("gemini-pro");
    let mut chat = model.start_chat();
    assert_eq!(chat.model().full_name(), "models/gemini-pro");

    let sent = chat.prepare_message("Name the 5 most popular puppy breeds.");
    assert_eq!(sent, vec![Content::user("Name the 5 most popular puppy breeds.")]);
    let r = chat.record_response(answer(&["Labrador", "Poodle"])).unwrap();
    assert_eq!(r.candidates.len(), 2);
    assert_eq!(chat.history.len(), 2);
    assert_eq!(chat.history[1], Content::model("Labrador"));

    let sent = chat.prepare_message("Which is best?");
    assert_eq!(sent.len(), 3);
    chat.record_response(answer(&["Labrador"])).unwrap();
    assert_eq!(chat.history.len(), 4);
    assert_eq!(chat.history[3].role, "model");
}

#[test]
fn session_refuses_answer_without_candidates() {
    let model = GenerativeModel::new("gemini-pro");
    let mut chat = model.start_chat();
    chat.prepare_message("hello");
    match chat.record_response(answer(&[])) {
        Err(Error::Service(ServiceError::InvalidResponse(m))) => assert_eq!(m, "No valid candidates"),
        other => panic!("unexpected {other:?}"),
    }
    assert_eq!(chat.history.len(), 1);

    let mut no_content = answer(&["x"]);
    no_content.candidates[0].content = None;
    assert!(chat.add_best_candidate_to_history(&no_content.candidates).is_none());
    assert_eq!(chat.history.len(), 1);
}

#[test]
fn stream_adds_merged_answer_at_end() {
    let model = GenerativeModel::new("gemini-pro");
    let mut chat = model.start_chat();
    chat.prepare_message("Are you hungry?");
    let mut stream = ResponseStream::new();
    assert!(!stream.is_complete());
    assert!(stream.next(&mut chat, Some(answer(&["Ye"]))).is_some());
    assert!(stream.next(&mut chat, Some(answer(&["s!"]))).is_some());
    assert_eq!(chat.history.len(), 1);
    assert!(stream.next(&mut chat, None).is_none());
    assert!(stream.is_complete());
    assert_eq!(chat.history.len(), 2);
    assert_eq!(chat.history[1], Content::model("Yes!"));
    assert!(stream.next(&mut chat, Some(answer(&["more"]))).is_none());
    assert_eq!(chat.history.len(), 2);
}

#[test]
fn merging_in_chunks_equals_merging_at_once() {
    let a = vec![Part::text("a"), Part::blob("x/y", vec![]), Part::text("b")];
    let b = vec![Part::text("c"), Part::text(""), Part::blob("z/w", vec![1])];
    let chunked = merge_parts(merge_parts(vec![], a.clone()), b.clone());
    let mut all = a.clone();
    all.extend(b.clone());
    assert_eq!(chunked, merge_parts(vec![], all));
    assert_eq!(merge_parts(a.clone(), b), chunked);
    let once = merge_parts(vec![], a);
    assert_eq!(merge_parts(vec![], once.clone()), once);
}

#[test]
fn merge_drops_empty_text() {
    assert_eq!(merge_parts(vec![Part::text("")], vec![Part::text("")]), vec![]);
    let merged = merge_content(Content::model("a"), Content::user("b"));
    assert_eq!(merged, Content::model("ab"));
}

#[test]
fn merge_candidate_appends_citations() {
    let src = |uri: &str| CitationSource {
        start_index: Some(0),
        end_index: Some(1),
        uri: Some(uri.to_owned()),
        license: None,
    };
    let mut merged = vec![Candidate {
        index: Some(0),
        content: None,
        finish_reason: 0,
        safety_ratings: vec![],
        citation_metadata: Some(CitationMetadata { citation_sources: vec![src("a")] }),
        token_count: 3,
        grounding_attributions: vec![],
    }];
    let chunk = vec![Candidate {
        index: Some(0),
        content: Some(Content::model("t")),
        finish_reason: 2,
        safety_ratings: vec![],
        citation_metadata: Some(CitationMetadata { citation_sources: vec![src("b")] }),
        token_count: 9,
        grounding_attributions: vec![],
    }];
    google_ai_rs::chat::merge_candidates(&mut merged, &chunk);
    assert_eq!(merged[0].content, Some(Content::model("t")));
    assert_eq!(merged[0].finish_reason, 2);
    assert_eq!(merged[0].token_count, 3);
    assert_eq!(
        merged[0].citation_metadata,
        Some(CitationMetadata { citation_sources: vec![src("a"), src("b")] })
    );
}
