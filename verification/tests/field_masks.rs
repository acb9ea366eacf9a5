use google_ai_rs::genai::TunedModelFields;
use google_ai_rs::proto::tuned_model::SourceModel;
use google_ai_rs::proto::TunedModelSource;

fn fields() -> TunedModelFields {
    TunedModelFields {
        display_name: String::new(),
        description: String::new(),
        reader_project_numbers: Vec::new(),
        has_temperature: false,
        has_top_p: false,
        has_tuning_task: false,
        source_model: None,
    }
}

#[test]
fn tuned_model_mask_of_nothing_set() {
    assert!(fields().field_mask().paths.is_empty());
}

#[test]
fn tuned_model_mask_in_field_order() {
    let f = TunedModelFields {
        display_name: "Name".to_string(),
        description: "About".to_string(),
        reader_project_numbers: vec![42],
        has_temperature: true,
        has_top_p: true,
        has_tuning_task: true,
        source_model: Some(SourceModel::TunedModelSource(TunedModelSource {
            tuned_model: "tunedModels/a".to_string(),
            base_model: "models/b".to_string(),
        })),
    };
    assert_eq!(
        f.field_mask().paths,
        vec![
            "display_name", "description", "reader_project_numbers", "temperature", "top_p", "tuning_task",
            "tuned_model_source",
        ]
    );
}

#[test]
fn tuned_model_mask_skips_base_model_source() {
    let f = TunedModelFields {
        description: "About".to_string(),
        has_top_p: true,
        source_model: Some(SourceModel::BaseModel("models/b".to_string())),
        ..fields()
    };
    assert_eq!(f.field_mask().paths, vec!["description", "top_p"]);
}
