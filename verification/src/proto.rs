//! Protocol types shared by the service messages.
pub mod attribution_source_id;
pub mod cached_content;
pub mod chunk;
pub mod chunk_data;
pub mod code_execution_result;
pub mod condition;
pub mod content_filter;
pub mod dataset;
pub mod dynamic_retrieval_config;
pub mod executable_code;
pub mod file;
pub mod function_calling_config;
pub mod generate_answer_request;
pub mod generate_answer_response;
pub mod generate_content_response;
pub mod generation_config;
pub mod grounding_chunk;
pub mod safety_rating;
pub mod safety_setting;
pub mod tuned_model;
pub mod tuning_example;
pub mod voice_config;

use vstd::prelude::*;
use crate::text::str_eq;

verus! {

/// Identifier for the source contributing to an attribution.
#[derive(Debug, PartialEq, Eq)]
pub struct AttributionSourceId {
    /// The source: an inline passage or a chunk fetched via Semantic
    /// Retriever.
    pub source: Option<attribution_source_id::Source>,
}

/// An attribution source, as values: an inline passage (its id and part
/// index) or a retrieved chunk (its source and chunk names).
pub enum SourceV {
    Passage(Seq<char>, i32),
    Chunk(Seq<char>, Seq<char>),
}

impl View for AttributionSourceId {
    type V = Option<SourceV>;

    open spec fn view(&self) -> Option<SourceV> {
        match self.source {
            Some(attribution_source_id::Source::GroundingPassage(p)) => Some(SourceV::Passage(p.passage_id@, p.part_index)),
            Some(attribution_source_id::Source::SemanticRetrieverChunk(c)) => Some(SourceV::Chunk(c.source@, c.chunk@)),
            None => None,
        }
    }
}

impl Clone for AttributionSourceId {
    fn clone(&self) -> (r: Self)
        ensures
            r@ == self@,
    {
        let source = match &self.source {
            Some(attribution_source_id::Source::GroundingPassage(p)) => Some(
                attribution_source_id::Source::GroundingPassage(attribution_source_id::GroundingPassageId {
                    passage_id: p.passage_id.clone(),
                    part_index: p.part_index,
                }),
            ),
            Some(attribution_source_id::Source::SemanticRetrieverChunk(c)) => Some(
                attribution_source_id::Source::SemanticRetrieverChunk(attribution_source_id::SemanticRetrieverChunk {
                    source: c.source.clone(),
                    chunk: c.chunk.clone(),
                }),
            ),
            None => None,
        };
        AttributionSourceId { source }
    }
}

/// A point in time, counted from the Unix epoch.
#[derive(Clone, Copy, Debug, PartialEq, Eq)]
pub struct Timestamp {
    /// Seconds since the epoch.
    pub seconds: i64,
    /// Non-negative fractions of a second at nanosecond resolution.
    pub nanos: i32,
}

/// A signed, fixed-length span of time.
#[derive(Clone, Copy, Debug, PartialEq, Eq)]
pub struct Duration {
    /// Seconds of the span.
    pub seconds: i64,
    /// Fractions of a second at nanosecond resolution.
    pub nanos: i32,
}

/// A single example for tuning.
#[derive(Clone, Debug, PartialEq, Eq)]
pub struct TuningExample {
    /// The expected model output.
    pub output: String,
    /// The input to the model for this example.
    pub model_input: Option<tuning_example::ModelInput>,
}

/// A set of tuning examples.
#[derive(Clone, Debug, PartialEq, Eq)]
pub struct TuningExamples {
    /// The examples.
    pub examples: Vec<TuningExample>,
}

/// Metadata for a video `File`.
#[derive(Clone, Copy, Debug, PartialEq, Eq)]
pub struct VideoMetadata {
    /// Duration of the video.
    pub video_duration: Option<Duration>,
}

/// Tuned model as a source for training a new model.
#[derive(Clone, Debug, PartialEq, Eq)]
pub struct TunedModelSource {
    /// The name of the `TunedModel` to use as the starting point.
    pub tuned_model: String,
    /// The name of the base `Model` this `TunedModel` was tuned from.
    pub base_model: String,
}

/// The configuration for the prebuilt speaker to use.
#[derive(Clone, Debug, PartialEq, Eq)]
pub struct PrebuiltVoiceConfig {
    /// The name of the preset voice to use.
    pub voice_name: Option<String>,
}

/// Safety rating for a piece of content.
#[derive(Clone, Copy, Debug, PartialEq, Eq, Structural)]
pub struct SafetyRating {
    /// The category for this rating.
    pub category: i32,
    /// The probability of harm for this content.
    pub probability: i32,
    /// Was this content blocked because of this rating?
    pub blocked: bool,
}

/// Type contains the list of OpenAPI data types.
#[derive(Clone, Copy, Debug, PartialEq, Eq, Structural, Hash)]
pub enum Type {
    /// Not specified, should not be used.
    Unspecified,
    /// String type.
    String,
    /// Number type.
    Number,
    /// Integer type.
    Integer,
    /// Boolean type.
    Boolean,
    /// Array type.
    Array,
    /// Object type.
    Object,
}

impl Type {
    /// The field name of this value in the protocol definition.
    pub open spec fn name_spec(self) -> Seq<char> {
        match self {
            Type::Unspecified => "TYPE_UNSPECIFIED"@,
            Type::String => "STRING"@,
            Type::Number => "NUMBER"@,
            Type::Integer => "INTEGER"@,
            Type::Boolean => "BOOLEAN"@,
            Type::Array => "ARRAY"@,
            Type::Object => "OBJECT"@,
        }
    }

    /// The number of this value on the wire.
    pub open spec fn number(self) -> i32 {
        match self {
            Type::Unspecified => 0,
            Type::String => 1,
            Type::Number => 2,
            Type::Integer => 3,
            Type::Boolean => 4,
            Type::Array => 5,
            Type::Object => 6,
        }
    }

    /// String value of the enum field names used in the ProtoBuf definition.
    pub fn as_str_name(&self) -> (r: &'static str)
        ensures
            r@ == self.name_spec(),
    {
        match self {
            Type::Unspecified => "TYPE_UNSPECIFIED",
            Type::String => "STRING",
            Type::Number => "NUMBER",
            Type::Integer => "INTEGER",
            Type::Boolean => "BOOLEAN",
            Type::Array => "ARRAY",
            Type::Object => "OBJECT",
        }
    }

    /// Creates an enum from field names used in the ProtoBuf definition.
    pub fn from_str_name(value: &str) -> (r: Option<Self>)
        ensures
            r matches Some(e) ==> e.name_spec() == value@,
            r is None ==> forall|e: Self| #[trigger] e.name_spec() != value@,
    {
        if str_eq(value, "TYPE_UNSPECIFIED") {
            Some(Type::Unspecified)
        } else if str_eq(value, "STRING") {
            Some(Type::String)
        } else if str_eq(value, "NUMBER") {
            Some(Type::Number)
        } else if str_eq(value, "INTEGER") {
            Some(Type::Integer)
        } else if str_eq(value, "BOOLEAN") {
            Some(Type::Boolean)
        } else if str_eq(value, "ARRAY") {
            Some(Type::Array)
        } else if str_eq(value, "OBJECT") {
            Some(Type::Object)
        } else {
            None
        }
    }

    /// The number of this value on the wire.
    pub fn value(self) -> (r: i32)
        ensures
            r == self.number(),
    {
        match self {
            Type::Unspecified => 0,
            Type::String => 1,
            Type::Number => 2,
            Type::Integer => 3,
            Type::Boolean => 4,
            Type::Array => 5,
            Type::Object => 6,
        }
    }

    /// The value with the given wire number, if there is one.
    pub fn from_i32(v: i32) -> (r: Option<Self>)
        ensures
            r matches Some(e) ==> e.number() == v,
            r is None ==> forall|e: Self| #[trigger] e.number() != v,
    {
        match v {
            0 => Some(Type::Unspecified),
            1 => Some(Type::String),
            2 => Some(Type::Number),
            3 => Some(Type::Integer),
            4 => Some(Type::Boolean),
            5 => Some(Type::Array),
            6 => Some(Type::Object),
            _ => None,
        }
    }
}

/// The category of a rating.
#[derive(Clone, Copy, Debug, PartialEq, Eq, Structural, Hash)]
pub enum HarmCategory {
    /// Category is unspecified.
    Unspecified,
    /// Negative or harmful comments targeting identity and/or protected attribute.
    Derogatory,
    /// Content that is rude, disrespectful, or profane.
    Toxicity,
    /// Describes scenarios depicting violence against an individual or group.
    Violence,
    /// Contains references to sexual acts or other lewd content.
    Sexual,
    /// Promotes unchecked medical advice.
    Medical,
    /// Dangerous content that promotes, facilitates, or encourages harmful acts.
    Dangerous,
    /// Harassment content.
    Harassment,
    /// Hate speech and content.
    HateSpeech,
    /// Sexually explicit content.
    SexuallyExplicit,
    /// Dangerous content.
    DangerousContent,
    /// Content that may be used to harm civic integrity.
    CivicIntegrity,
}

impl HarmCategory {
    /// The field name of this value in the protocol definition.
    pub open spec fn name_spec(self) -> Seq<char> {
        match self {
            HarmCategory::Unspecified => "HARM_CATEGORY_UNSPECIFIED"@,
            HarmCategory::Derogatory => "HARM_CATEGORY_DEROGATORY"@,
            HarmCategory::Toxicity => "HARM_CATEGORY_TOXICITY"@,
            HarmCategory::Violence => "HARM_CATEGORY_VIOLENCE"@,
            HarmCategory::Sexual => "HARM_CATEGORY_SEXUAL"@,
            HarmCategory::Medical => "HARM_CATEGORY_MEDICAL"@,
            HarmCategory::Dangerous => "HARM_CATEGORY_DANGEROUS"@,
            HarmCategory::Harassment => "HARM_CATEGORY_HARASSMENT"@,
            HarmCategory::HateSpeech => "HARM_CATEGORY_HATE_SPEECH"@,
            HarmCategory::SexuallyExplicit => "HARM_CATEGORY_SEXUALLY_EXPLICIT"@,
            HarmCategory::DangerousContent => "HARM_CATEGORY_DANGEROUS_CONTENT"@,
            HarmCategory::CivicIntegrity => "HARM_CATEGORY_CIVIC_INTEGRITY"@,
        }
    }

    /// The number of this value on the wire.
    pub open spec fn number(self) -> i32 {
        match self {
            HarmCategory::Unspecified => 0,
            HarmCategory::Derogatory => 1,
            HarmCategory::Toxicity => 2,
            HarmCategory::Violence => 3,
            HarmCategory::Sexual => 4,
            HarmCategory::Medical => 5,
            HarmCategory::Dangerous => 6,
            HarmCategory::Harassment => 7,
            HarmCategory::HateSpeech => 8,
            HarmCategory::SexuallyExplicit => 9,
            HarmCategory::DangerousContent => 10,
            HarmCategory::CivicIntegrity => 11,
        }
    }

    /// String value of the enum field names used in the ProtoBuf definition.
    pub fn as_str_name(&self) -> (r: &'static str)
        ensures
            r@ == self.name_spec(),
    {
        match self {
            HarmCategory::Unspecified => "HARM_CATEGORY_UNSPECIFIED",
            HarmCategory::Derogatory => "HARM_CATEGORY_DEROGATORY",
            HarmCategory::Toxicity => "HARM_CATEGORY_TOXICITY",
            HarmCategory::Violence => "HARM_CATEGORY_VIOLENCE",
            HarmCategory::Sexual => "HARM_CATEGORY_SEXUAL",
            HarmCategory::Medical => "HARM_CATEGORY_MEDICAL",
            HarmCategory::Dangerous => "HARM_CATEGORY_DANGEROUS",
            HarmCategory::Harassment => "HARM_CATEGORY_HARASSMENT",
            HarmCategory::HateSpeech => "HARM_CATEGORY_HATE_SPEECH",
            HarmCategory::SexuallyExplicit => "HARM_CATEGORY_SEXUALLY_EXPLICIT",
            HarmCategory::DangerousContent => "HARM_CATEGORY_DANGEROUS_CONTENT",
            HarmCategory::CivicIntegrity => "HARM_CATEGORY_CIVIC_INTEGRITY",
        }
    }

    /// Creates an enum from field names used in the ProtoBuf definition.
    pub fn from_str_name(value: &str) -> (r: Option<Self>)
        ensures
            r matches Some(e) ==> e.name_spec() == value@,
            r is None ==> forall|e: Self| #[trigger] e.name_spec() != value@,
    {
        if str_eq(value, "HARM_CATEGORY_UNSPECIFIED") {
            Some(HarmCategory::Unspecified)
        } else if str_eq(value, "HARM_CATEGORY_DEROGATORY") {
            Some(HarmCategory::Derogatory)
        } else if str_eq(value, "HARM_CATEGORY_TOXICITY") {
            Some(HarmCategory::Toxicity)
        } else if str_eq(value, "HARM_CATEGORY_VIOLENCE") {
            Some(HarmCategory::Violence)
        } else if str_eq(value, "HARM_CATEGORY_SEXUAL") {
            Some(HarmCategory::Sexual)
        } else if str_eq(value, "HARM_CATEGORY_MEDICAL") {
            Some(HarmCategory::Medical)
        } else if str_eq(value, "HARM_CATEGORY_DANGEROUS") {
            Some(HarmCategory::Dangerous)
        } else if str_eq(value, "HARM_CATEGORY_HARASSMENT") {
            Some(HarmCategory::Harassment)
        } else if str_eq(value, "HARM_CATEGORY_HATE_SPEECH") {
            Some(HarmCategory::HateSpeech)
        } else if str_eq(value, "HARM_CATEGORY_SEXUALLY_EXPLICIT") {
            Some(HarmCategory::SexuallyExplicit)
        } else if str_eq(value, "HARM_CATEGORY_DANGEROUS_CONTENT") {
            Some(HarmCategory::DangerousContent)
        } else if str_eq(value, "HARM_CATEGORY_CIVIC_INTEGRITY") {
            Some(HarmCategory::CivicIntegrity)
        } else {
            None
        }
    }

    /// The number of this value on the wire.
    pub fn value(self) -> (r: i32)
        ensures
            r == self.number(),
    {
        match self {
            HarmCategory::Unspecified => 0,
            HarmCategory::Derogatory => 1,
            HarmCategory::Toxicity => 2,
            HarmCategory::Violence => 3,
            HarmCategory::Sexual => 4,
            HarmCategory::Medical => 5,
            HarmCategory::Dangerous => 6,
            HarmCategory::Harassment => 7,
            HarmCategory::HateSpeech => 8,
            HarmCategory::SexuallyExplicit => 9,
            HarmCategory::DangerousContent => 10,
            HarmCategory::CivicIntegrity => 11,
        }
    }

    /// The value with the given wire number, if there is one.
    pub fn from_i32(v: i32) -> (r: Option<Self>)
        ensures
            r matches Some(e) ==> e.number() == v,
            r is None ==> forall|e: Self| #[trigger] e.number() != v,
    {
        match v {
            0 => Some(HarmCategory::Unspecified),
            1 => Some(HarmCategory::Derogatory),
            2 => Some(HarmCategory::Toxicity),
            3 => Some(HarmCategory::Violence),
            4 => Some(HarmCategory::Sexual),
            5 => Some(HarmCategory::Medical),
            6 => Some(HarmCategory::Dangerous),
            7 => Some(HarmCategory::Harassment),
            8 => Some(HarmCategory::HateSpeech),
            9 => Some(HarmCategory::SexuallyExplicit),
            10 => Some(HarmCategory::DangerousContent),
            11 => Some(HarmCategory::CivicIntegrity),
            _ => None,
        }
    }
}

/// Type of task for which the embedding will be used.
#[derive(Clone, Copy, Debug, PartialEq, Eq, Structural, Hash)]
pub enum TaskType {
    /// Unset value, which will default to one of the other enum values.
    Unspecified,
    /// Specifies the given text is a query in a search/retrieval setting.
    RetrievalQuery,
    /// Specifies the given text is a document from the corpus being searched.
    RetrievalDocument,
    /// Specifies the given text will be used for STS.
    SemanticSimilarity,
    /// Specifies that the given text will be classified.
    Classification,
    /// Specifies that the embeddings will be used for clustering.
    Clustering,
    /// Specifies that the given text will be used for question answering.
    QuestionAnswering,
    /// Specifies that the given text will be used for fact verification.
    FactVerification,
}

impl TaskType {
    /// The field name of this value in the protocol definition.
    pub open spec fn name_spec(self) -> Seq<char> {
        match self {
            TaskType::Unspecified => "TASK_TYPE_UNSPECIFIED"@,
            TaskType::RetrievalQuery => "RETRIEVAL_QUERY"@,
            TaskType::RetrievalDocument => "RETRIEVAL_DOCUMENT"@,
            TaskType::SemanticSimilarity => "SEMANTIC_SIMILARITY"@,
            TaskType::Classification => "CLASSIFICATION"@,
            TaskType::Clustering => "CLUSTERING"@,
            TaskType::QuestionAnswering => "QUESTION_ANSWERING"@,
            TaskType::FactVerification => "FACT_VERIFICATION"@,
        }
    }

    /// The number of this value on the wire.
    pub open spec fn number(self) -> i32 {
        match self {
            TaskType::Unspecified => 0,
            TaskType::RetrievalQuery => 1,
            TaskType::RetrievalDocument => 2,
            TaskType::SemanticSimilarity => 3,
            TaskType::Classification => 4,
            TaskType::Clustering => 5,
            TaskType::QuestionAnswering => 6,
            TaskType::FactVerification => 7,
        }
    }

    /// String value of the enum field names used in the ProtoBuf definition.
    pub fn as_str_name(&self) -> (r: &'static str)
        ensures
            r@ == self.name_spec(),
    {
        match self {
            TaskType::Unspecified => "TASK_TYPE_UNSPECIFIED",
            TaskType::RetrievalQuery => "RETRIEVAL_QUERY",
            TaskType::RetrievalDocument => "RETRIEVAL_DOCUMENT",
            TaskType::SemanticSimilarity => "SEMANTIC_SIMILARITY",
            TaskType::Classification => "CLASSIFICATION",
            TaskType::Clustering => "CLUSTERING",
            TaskType::QuestionAnswering => "QUESTION_ANSWERING",
            TaskType::FactVerification => "FACT_VERIFICATION",
        }
    }

    /// Creates an enum from field names used in the ProtoBuf definition.
    pub fn from_str_name(value: &str) -> (r: Option<Self>)
        ensures
            r matches Some(e) ==> e.name_spec() == value@,
            r is None ==> forall|e: Self| #[trigger] e.name_spec() != value@,
    {
        if str_eq(value, "TASK_TYPE_UNSPECIFIED") {
            Some(TaskType::Unspecified)
        } else if str_eq(value, "RETRIEVAL_QUERY") {
            Some(TaskType::RetrievalQuery)
        } else if str_eq(value, "RETRIEVAL_DOCUMENT") {
            Some(TaskType::RetrievalDocument)
        } else if str_eq(value, "SEMANTIC_SIMILARITY") {
            Some(TaskType::SemanticSimilarity)
        } else if str_eq(value, "CLASSIFICATION") {
            Some(TaskType::Classification)
        } else if str_eq(value, "CLUSTERING") {
            Some(TaskType::Clustering)
        } else if str_eq(value, "QUESTION_ANSWERING") {
            Some(TaskType::QuestionAnswering)
        } else if str_eq(value, "FACT_VERIFICATION") {
            Some(TaskType::FactVerification)
        } else {
            None
        }
    }

    /// The number of this value on the wire.
    pub fn value(self) -> (r: i32)
        ensures
            r == self.number(),
    {
        match self {
            TaskType::Unspecified => 0,
            TaskType::RetrievalQuery => 1,
            TaskType::RetrievalDocument => 2,
            TaskType::SemanticSimilarity => 3,
            TaskType::Classification => 4,
            TaskType::Clustering => 5,
            TaskType::QuestionAnswering => 6,
            TaskType::FactVerification => 7,
        }
    }

    /// The value with the given wire number, if there is one.
    pub fn from_i32(v: i32) -> (r: Option<Self>)
        ensures
            r matches Some(e) ==> e.number() == v,
            r is None ==> forall|e: Self| #[trigger] e.number() != v,
    {
        match v {
            0 => Some(TaskType::Unspecified),
            1 => Some(TaskType::RetrievalQuery),
            2 => Some(TaskType::RetrievalDocument),
            3 => Some(TaskType::SemanticSimilarity),
            4 => Some(TaskType::Classification),
            5 => Some(TaskType::Clustering),
            6 => Some(TaskType::QuestionAnswering),
            7 => Some(TaskType::FactVerification),
            _ => None,
        }
    }
}

} // verus!
