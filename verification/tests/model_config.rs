use google_ai_rs::content::Content;
use google_ai_rs::error::Error;
use google_ai_rs::genai::{CachedContent, GenerationConfig, GenerativeModel, SafetySetting, TypedModel};
use google_ai_rs::proto::cached_content::Expiration;
use google_ai_rs::proto::safety_setting::HarmBlockThreshold;
use google_ai_rs::proto::{Duration, HarmCategory, Timestamp, Type};
use google_ai_rs::schema::{AsSchema, Schema};

#[test]
fn model_names() {
    let mut m = GenerativeModel::new("gemini-pro");
    assert_eq!(m.full_name(), "models/gemini-pro");
    assert!(!m.is_tuned());
    m.change_model("tunedModels/mine");
    assert_eq!(m.full_name(), "tunedModels/mine");
    assert!(m.is_tuned());
    let m = m.to_model("gemini-1.5-flash");
    assert_eq!(m.full_name(), "models/gemini-1.5-flash");
}

#[test]
fn generation_settings() {
    let mut m = GenerativeModel::new("g").candidate_count(2).max_output_tokens(100).top_k(5);
    let c = m.generation_config.as_ref().unwrap();
    assert_eq!(c.candidate_count, Some(2));
    assert_eq!(c.max_output_tokens, Some(100));
    assert_eq!(c.top_k, Some(5));
    m.set_top_k(7);
    m.set_candidate_count(1);
    m.set_max_output_tokens(3);
    let c = m.generation_config.as_ref().unwrap();
    assert_eq!((c.top_k, c.candidate_count, c.max_output_tokens), (Some(7), Some(1), Some(3)));
}

#[test]
fn response_schema_sets_json_unless_format_given() {
    let m = GenerativeModel::new("g").as_response_schema::<Vec<String>>();
    let c = m.generation_config.as_ref().unwrap();
    assert_eq!(c.response_mime_type, "application/json");
    assert_eq!(c.response_schema, Some(Vec::<String>::as_schema()));

    let m = GenerativeModel::new("g")
        .with_response_format("text/x.enum")
        .with_response_schema(Schema::new(Type::String));
    assert_eq!(m.generation_config.as_ref().unwrap().response_mime_type, "text/x.enum");
}

#[test]
fn cached_content_needs_a_name() {
    let unnamed = CachedContent::for_model("gemini-pro", vec![Content::user("x")]);
    match GenerativeModel::new("g").with_cached_content(&unnamed) {
        Err(Error::InvalidArgument(m)) => assert_eq!(m, "cached content name is empty"),
        other => panic!("unexpected {other:?}"),
    }
    let named = CachedContent { name: Some("cachedContents/abc".to_owned()), ..unnamed };
    let m = GenerativeModel::new("g").with_cached_content(&named).unwrap();
    assert_eq!(m.cached_content.as_deref(), Some("cachedContents/abc"));
}

#[test]
fn cached_content_field_mask() {
    let mut c = CachedContent::for_model("m", vec![]);
    assert_eq!(c.field_mask().paths, vec![String::new()]);
    c.expiration = Some(Expiration::Ttl(Duration { seconds: 60, nanos: 0 }));
    assert_eq!(c.field_mask().paths, vec!["ttl".to_owned()]);
    c.expiration = Some(Expiration::ExpireTime(Timestamp { seconds: 1, nanos: 0 }));
    assert_eq!(c.field_mask().paths, vec!["expire_time".to_owned()]);
}

#[test]
fn request_carries_model_settings() {
    let setting = SafetySetting::new()
        .harm_category(HarmCategory::Harassment)
        .harm_threshold(HarmBlockThreshold::BlockOnlyHigh);
    let m = GenerativeModel::new("gemini-pro")
        .with_system_instruction("Be brief")
        .safety_settings(vec![setting])
        .generation_config(GenerationConfig::default());
    let copy = m.with_cloned_instruction("Be long");
    assert_eq!(copy.system_instruction, Some(Content::user("Be long")));
    let count = m.count_tokens_request("hi").unwrap();
    assert_eq!(count.model, "models/gemini-pro");
    assert!(count.contents.is_empty());
    let req = m.build_request(("What is", "a swallow?")).unwrap();
    assert_eq!(req.model, "models/gemini-pro");
    assert_eq!(req.contents, vec![Content::user(("What is", "a swallow?"))]);
    assert_eq!(req.system_instruction, Some(Content::user("Be brief")));
    assert!(req.tools.is_empty());
    assert_eq!(req.safety_settings, vec![setting]);
    assert_eq!(req.safety_settings[0].category, HarmCategory::Harassment.value());
    assert_eq!(req.safety_settings[0].threshold, HarmBlockThreshold::BlockOnlyHigh.value());
    assert_eq!(count.generate_content_request.unwrap().contents, vec![Content::user("hi")]);
}

#[test]
fn typed_model_has_schema_of_type() {
    let t = TypedModel::<Vec<bool>>::new("gemini-pro");
    let inner = t.into_inner();
    assert_eq!(inner.full_name(), "models/gemini-pro");
    assert_eq!(
        inner.generation_config.as_ref().unwrap().response_schema,
        Some(Vec::<bool>::as_schema())
    );
    let t = GenerativeModel::new("x").to_typed::<String>();
    assert_eq!(t.inner().generation_config.as_ref().unwrap().response_schema, Some(String::as_schema()));
}
