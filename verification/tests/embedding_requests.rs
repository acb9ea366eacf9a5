use google_ai_rs::content::Content;
use google_ai_rs::embedding::{check_embedding_count, Model};
use google_ai_rs::error::{Error, ServiceError};
use google_ai_rs::proto::TaskType;

#[test]
fn title_makes_a_retrieval_document() {
    let m = Model::new("embedding-001").task_type(TaskType::RetrievalQuery);
    assert_eq!(m.name(), "models/embedding-001");
    let r = m.build_request("", Content::user("cheddar cheese"));
    assert_eq!(r.model, "models/embedding-001");
    assert_eq!(r.task_type, Some(TaskType::RetrievalQuery.value()));
    assert_eq!(r.title, None);
    assert_eq!(r.content, Some(Content::user("cheddar cheese")));
    let r = m.build_request("Cheese Report", Content::user("I love cheddar cheese."));
    assert_eq!(r.task_type, Some(TaskType::RetrievalDocument.value()));
    assert_eq!(r.title.as_deref(), Some("Cheese Report"));
    let plain = Model::new("embedding-001");
    assert_eq!(plain.embed_content_request("", "x").unwrap().task_type, None);
}

#[test]
fn batch_collects_requests() {
    let m = Model::new("embedding-001");
    let batch = m
        .new_batch()
        .add_content("cheddar cheese")
        .add_content_with_title("Cheese Report", "I love cheddar cheese.");
    assert_eq!(batch.len(), 2);
    let req = batch.into_request();
    assert_eq!(req.model, "models/embedding-001");
    assert_eq!(req.requests[0].title, None);
    assert_eq!(req.requests[1].title.as_deref(), Some("Cheese Report"));
    assert_eq!(req.requests[1].task_type, Some(TaskType::RetrievalDocument.value()));
    let b = m.embed_batch(vec!["First", "Second", "Third"]).unwrap();
    assert_eq!(b.len(), 3);
}

#[test]
fn embedding_count_must_match() {
    assert!(check_embedding_count(2, 2).is_ok());
    match check_embedding_count(2, 1) {
        Err(Error::Service(ServiceError::InvalidResponse(m))) => assert_eq!(m, "Expected 2 embeddings, got 1"),
        other => panic!("unexpected {other:?}"),
    }
    match check_embedding_count(1234567, 0) {
        Err(Error::Service(ServiceError::InvalidResponse(m))) => {
            assert_eq!(m, "Expected 1234567 embeddings, got 0")
        }
        other => panic!("unexpected {other:?}"),
    }
}
