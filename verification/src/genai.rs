//! Generative models: their configuration and the requests built from it.
use vstd::prelude::*;
use crate::content::{
    clone_contents, contents_view, opt_content, opt_str, clone_opt_string, Content, ContentV,
    Candidate, GenerateContentResponse, TryFromCandidates, TryIntoContents,
};
use crate::error::Error;
use crate::proto::{HarmCategory, Timestamp};
use crate::proto::safety_setting::HarmBlockThreshold;
use crate::proto::cached_content::{Expiration, UsageMetadata as CacheUsageMetadata};
use crate::proto::tuned_model::SourceModel;
use crate::schema::{clone_schema, schema_view, AsSchema, Schema, SchemaV};
use crate::schema::{clone_strings, strings_view};
use crate::text::starts_with;
use crate::{full_model_name, full_model_name_spec};

verus! {

/// Structured representation of a function declaration.
#[derive(Debug, PartialEq)]
pub struct FunctionDeclaration {
    /// The name of the function.
    pub name: String,
    /// A brief description of the function.
    pub description: String,
    /// The parameters to this function, as an object schema.
    pub parameters: Option<Schema>,
    /// The output of this function, as a schema.
    pub response: Option<Schema>,
}

/// Tool that executes code generated by the model.
#[derive(Debug, PartialEq, Eq, Clone, Copy)]
pub struct CodeExecution {}

/// Tool that searches the web for grounding.
#[derive(Debug, PartialEq, Eq, Clone, Copy)]
pub struct GoogleSearch {}

/// Tool details that the model may use to generate a response.
#[derive(Debug, PartialEq)]
pub struct Tool {
    /// Functions available to the model.
    pub function_declarations: Vec<FunctionDeclaration>,
    /// Enables the model to execute code as part of generation.
    pub code_execution: Option<CodeExecution>,
    /// Enables web search for grounding.
    pub google_search: Option<GoogleSearch>,
}

/// Configuration for specifying function calling behavior.
#[derive(Debug, PartialEq)]
pub struct FunctionCallingConfig {
    /// The mode in which function calling should execute.
    pub mode: i32,
    /// Function names that limit the functions the model will call.
    pub allowed_function_names: Vec<String>,
}

/// The tool configuration containing parameters for specifying tool use.
#[derive(Debug, PartialEq)]
pub struct ToolConfig {
    /// Function calling config.
    pub function_calling_config: Option<FunctionCallingConfig>,
}

/// Safety setting, affecting the safety-blocking behavior.
#[derive(Debug, PartialEq, Eq, Clone, Copy, Structural)]
pub struct SafetySetting {
    /// The category for this setting.
    pub category: i32,
    /// Controls the probability threshold at which harm is blocked.
    pub threshold: i32,
}

/// Configuration options for model generation and outputs. The sampling
/// temperature and top-p are kept by the caller.
#[derive(Debug, PartialEq)]
pub struct GenerationConfig {
    /// Number of generated responses to return.
    pub candidate_count: Option<i32>,
    /// Character sequences that stop output generation.
    pub stop_sequences: Vec<String>,
    /// The maximum number of tokens to include in a response candidate.
    pub max_output_tokens: Option<i32>,
    /// The maximum number of tokens to consider when sampling.
    pub top_k: Option<i32>,
    /// Output response MIME type of the generated candidate text.
    pub response_mime_type: String,
    /// Output schema of the generated candidate text.
    pub response_schema: Option<Schema>,
    /// Seed used in decoding.
    pub seed: Option<i32>,
    /// If true, export the logprobs results in response.
    pub response_logprobs: Option<bool>,
    /// Number of top logprobs to return.
    pub logprobs: Option<i32>,
}

/// What a function declaration holds, as values: name, description,
/// parameters and response.
pub type FunctionDeclarationV = (Seq<char>, Seq<char>, Option<SchemaV>, Option<SchemaV>);

/// The view of an optional schema.
pub open spec fn opt_schema(s: Option<Schema>) -> Option<SchemaV> {
    match s {
        Some(s) => Some(schema_view(s)),
        None => None,
    }
}

/// What a function declaration holds, as values.
pub open spec fn declaration_view(d: FunctionDeclaration) -> FunctionDeclarationV {
    (d.name@, d.description@, opt_schema(d.parameters), opt_schema(d.response))
}

/// What a tool holds, as values.
pub struct ToolV {
    pub function_declarations: Seq<FunctionDeclarationV>,
    pub code_execution: Option<CodeExecution>,
    pub google_search: Option<GoogleSearch>,
}

/// What a tool holds, as values.
pub open spec fn tool_view(t: Tool) -> ToolV {
    ToolV {
        function_declarations: t.function_declarations@.map_values(|d: FunctionDeclaration| declaration_view(d)),
        code_execution: t.code_execution,
        google_search: t.google_search,
    }
}

/// The views of a list of tools.
pub open spec fn tools_view(ts: Seq<Tool>) -> Seq<ToolV> {
    ts.map_values(|t: Tool| tool_view(t))
}

/// What a tool configuration holds, as values: the function calling mode
/// and allowed function names, if set.
pub open spec fn tool_config_view(c: ToolConfig) -> Option<(i32, Seq<Seq<char>>)> {
    match c.function_calling_config {
        Some(f) => Some((f.mode, strings_view(f.allowed_function_names@))),
        None => None,
    }
}

/// What a generation configuration holds, as values.
pub struct GenerationConfigV {
    pub candidate_count: Option<i32>,
    pub stop_sequences: Seq<Seq<char>>,
    pub max_output_tokens: Option<i32>,
    pub top_k: Option<i32>,
    pub response_mime_type: Seq<char>,
    pub response_schema: Option<SchemaV>,
    pub seed: Option<i32>,
    pub response_logprobs: Option<bool>,
    pub logprobs: Option<i32>,
}

/// What a generation configuration holds, as values.
pub open spec fn config_view(c: GenerationConfig) -> GenerationConfigV {
    GenerationConfigV {
        candidate_count: c.candidate_count,
        stop_sequences: strings_view(c.stop_sequences@),
        max_output_tokens: c.max_output_tokens,
        top_k: c.top_k,
        response_mime_type: c.response_mime_type@,
        response_schema: opt_schema(c.response_schema),
        seed: c.seed,
        response_logprobs: c.response_logprobs,
        logprobs: c.logprobs,
    }
}

/// The generation configuration with nothing set.
pub open spec fn default_config() -> GenerationConfigV {
    GenerationConfigV {
        candidate_count: None,
        stop_sequences: seq![],
        max_output_tokens: None,
        top_k: None,
        response_mime_type: seq![],
        response_schema: None,
        seed: None,
        response_logprobs: None,
        logprobs: None,
    }
}

impl Default for GenerationConfig {
    fn default() -> (r: GenerationConfig)
        ensures
            config_view(r) == default_config(),
    {
        let r = GenerationConfig {
            candidate_count: None,
            stop_sequences: Vec::new(),
            max_output_tokens: None,
            top_k: None,
            response_mime_type: String::new(),
            response_schema: None,
            seed: None,
            response_logprobs: None,
            logprobs: None,
        };
        assert(strings_view(r.stop_sequences@) =~= Seq::<Seq<char>>::empty());
        r
    }
}

/// A copy of an optional schema.
pub fn clone_opt_schema(s: &Option<Schema>) -> (r: Option<Schema>)
    ensures
        opt_schema(r) == opt_schema(*s),
{
    match s {
        Some(s) => Some(clone_schema(s)),
        None => None,
    }
}

impl Clone for GenerationConfig {
    fn clone(&self) -> (r: Self)
        ensures
            config_view(r) == config_view(*self),
    {
        GenerationConfig {
            candidate_count: self.candidate_count,
            stop_sequences: clone_strings(&self.stop_sequences),
            max_output_tokens: self.max_output_tokens,
            top_k: self.top_k,
            response_mime_type: self.response_mime_type.clone(),
            response_schema: clone_opt_schema(&self.response_schema),
            seed: self.seed,
            response_logprobs: self.response_logprobs,
            logprobs: self.logprobs,
        }
    }
}

impl Clone for FunctionDeclaration {
    fn clone(&self) -> (r: Self)
        ensures
            declaration_view(r) == declaration_view(*self),
    {
        FunctionDeclaration {
            name: self.name.clone(),
            description: self.description.clone(),
            parameters: clone_opt_schema(&self.parameters),
            response: clone_opt_schema(&self.response),
        }
    }
}

impl Clone for Tool {
    fn clone(&self) -> (r: Self)
        ensures
            tool_view(r) == tool_view(*self),
    {
        let mut ds: Vec<FunctionDeclaration> = Vec::new();
        let mut i: usize = 0;
        while i < self.function_declarations.len()
            invariant
                i <= self.function_declarations.len(),
                ds@.map_values(|d: FunctionDeclaration| declaration_view(d))
                    == self.function_declarations@.take(i as int).map_values(|d: FunctionDeclaration| declaration_view(d)),
            decreases self.function_declarations.len() - i,
        {
            let d = self.function_declarations[i].clone();
            let ghost before = ds@;
            ds.push(d);
            assert(ds@.map_values(|d: FunctionDeclaration| declaration_view(d))
                =~= before.map_values(|d: FunctionDeclaration| declaration_view(d)).push(declaration_view(d)));
            assert(self.function_declarations@.take(i + 1).map_values(|d: FunctionDeclaration| declaration_view(d))
                =~= self.function_declarations@.take(i as int).map_values(|d: FunctionDeclaration| declaration_view(d))
                    .push(declaration_view(self.function_declarations@[i as int])));
            i = i + 1;
        }
        assert(self.function_declarations@.take(i as int) =~= self.function_declarations@);
        Tool { function_declarations: ds, code_execution: self.code_execution, google_search: self.google_search }
    }
}

/// A copy of a list of tools.
pub fn clone_tools(ts: &Vec<Tool>) -> (r: Vec<Tool>)
    ensures
        tools_view(r@) == tools_view(ts@),
{
    let mut r: Vec<Tool> = Vec::new();
    let mut i: usize = 0;
    while i < ts.len()
        invariant
            i <= ts.len(),
            tools_view(r@) == tools_view(ts@.take(i as int)),
        decreases ts.len() - i,
    {
        let t = ts[i].clone();
        let ghost before = r@;
        r.push(t);
        assert(tools_view(r@) =~= tools_view(before).push(tool_view(t)));
        assert(tools_view(ts@.take(i + 1)) =~= tools_view(ts@.take(i as int)).push(tool_view(ts@[i as int])));
        i = i + 1;
    }
    assert(ts@.take(i as int) =~= ts@);
    r
}

impl Clone for ToolConfig {
    fn clone(&self) -> (r: Self)
        ensures
            tool_config_view(r) == tool_config_view(*self),
    {
        match &self.function_calling_config {
            Some(f) => ToolConfig {
                function_calling_config: Some(FunctionCallingConfig {
                    mode: f.mode,
                    allowed_function_names: clone_strings(&f.allowed_function_names),
                }),
            },
            None => ToolConfig { function_calling_config: None },
        }
    }
}

/// A copy of a list of safety settings.
pub fn clone_settings(v: &Vec<SafetySetting>) -> (r: Vec<SafetySetting>)
    ensures
        r@ == v@,
{
    let mut r: Vec<SafetySetting> = Vec::new();
    let mut i: usize = 0;
    while i < v.len()
        invariant
            i <= v.len(),
            r@ == v@.take(i as int),
        decreases v.len() - i,
    {
        r.push(v[i]);
        assert(r@ =~= v@.take(i + 1));
        i = i + 1;
    }
    assert(v@.take(i as int) =~= v@);
    r
}

impl SafetySetting {
    /// Creates a new safety setting with default values.
    pub fn new() -> (r: SafetySetting)
        ensures
            r == (SafetySetting { category: 0, threshold: 0 }),
    {
        SafetySetting { category: 0, threshold: 0 }
    }

    /// Sets the category for this setting.
    pub fn harm_category(self, category: HarmCategory) -> (r: SafetySetting)
        ensures
            r == (SafetySetting { category: category.number(), ..self }),
    {
        SafetySetting { category: category.value(), threshold: self.threshold }
    }

    /// Controls the probability threshold at which harm is blocked.
    pub fn harm_threshold(self, threshold: HarmBlockThreshold) -> (r: SafetySetting)
        ensures
            r == (SafetySetting { threshold: threshold.number(), ..self }),
    {
        SafetySetting { category: self.category, threshold: threshold.value() }
    }
}

/// Configured interface for a specific generative AI model. The client
/// that sends requests is held by the caller.
#[derive(Debug)]
pub struct GenerativeModel {
    /// Fully qualified model name (e.g., "models/gemini-1.0-pro").
    model_name: String,
    /// System prompt guiding model behavior.
    pub system_instruction: Option<Content>,
    /// Available functions/tools the model can use.
    pub tools: Option<Vec<Tool>>,
    /// Configuration for tool usage.
    pub tool_config: Option<ToolConfig>,
    /// Content safety filters.
    pub safety_settings: Option<Vec<SafetySetting>>,
    /// Generation parameters (top-k, candidate count, response format, ...).
    pub generation_config: Option<GenerationConfig>,
    /// Full name of the cached content to use as context.
    pub cached_content: Option<String>,
}

/// What a model's configuration holds, as values.
pub struct ModelV {
    pub name: Seq<char>,
    pub system_instruction: Option<ContentV>,
    pub tools: Option<Seq<ToolV>>,
    pub tool_config: Option<Option<(i32, Seq<Seq<char>>)>>,
    pub safety_settings: Option<Seq<SafetySetting>>,
    pub generation_config: Option<GenerationConfigV>,
    pub cached_content: Option<Seq<char>>,
}

/// The view of an optional generation configuration.
pub open spec fn opt_config(c: Option<GenerationConfig>) -> Option<GenerationConfigV> {
    match c {
        Some(c) => Some(config_view(c)),
        None => None,
    }
}

/// The generation configuration of a model, or the default one if it has
/// none; setters fill this in before changing one field.
pub open spec fn config_or_default(c: Option<GenerationConfigV>) -> GenerationConfigV {
    match c {
        Some(c) => c,
        None => default_config(),
    }
}

impl View for GenerativeModel {
    type V = ModelV;

    closed spec fn view(&self) -> ModelV {
        ModelV {
            name: self.model_name@,
            system_instruction: opt_content(self.system_instruction),
            tools: match self.tools {
                Some(ts) => Some(tools_view(ts@)),
                None => None,
            },
            tool_config: match self.tool_config {
                Some(c) => Some(tool_config_view(c)),
                None => None,
            },
            safety_settings: match self.safety_settings {
                Some(s) => Some(s@),
                None => None,
            },
            generation_config: opt_config(self.generation_config),
            cached_content: opt_str(self.cached_content),
        }
    }
}

/// The configuration of a new model: its full name and nothing else.
pub open spec fn new_model_spec(name: Seq<char>) -> ModelV {
    ModelV {
        name: full_model_name_spec(name),
        system_instruction: None,
        tools: None,
        tool_config: None,
        safety_settings: None,
        generation_config: None,
        cached_content: None,
    }
}

/// The generation configuration after a response schema is set: the schema,
/// and the JSON MIME type unless one is set already.
pub open spec fn with_schema_config(c: GenerationConfigV, schema: SchemaV) -> GenerationConfigV {
    GenerationConfigV {
        response_mime_type: if c.response_mime_type.len() == 0 {
            "application/json"@
        } else {
            c.response_mime_type
        },
        response_schema: Some(schema),
        ..c
    }
}

/// Request to generate a completion from the model.
#[derive(Debug)]
pub struct GenerateContentRequest {
    /// The name of the `Model` to use for generating the completion.
    pub model: String,
    /// The content of the current conversation with the model.
    pub contents: Vec<Content>,
    /// Developer set system instruction(s).
    pub system_instruction: Option<Content>,
    /// Tools the model may use.
    pub tools: Vec<Tool>,
    /// Tool configuration for any tools.
    pub tool_config: Option<ToolConfig>,
    /// Safety settings for blocking unsafe content.
    pub safety_settings: Vec<SafetySetting>,
    /// Configuration options for model generation and outputs.
    pub generation_config: Option<GenerationConfig>,
    /// The name of the cached content to use as context.
    pub cached_content: Option<String>,
}

/// What a request holds, as values.
pub struct RequestV {
    pub model: Seq<char>,
    pub contents: Seq<ContentV>,
    pub system_instruction: Option<ContentV>,
    pub tools: Seq<ToolV>,
    pub tool_config: Option<Option<(i32, Seq<Seq<char>>)>>,
    pub safety_settings: Seq<SafetySetting>,
    pub generation_config: Option<GenerationConfigV>,
    pub cached_content: Option<Seq<char>>,
}

/// What a request holds, as values.
pub open spec fn request_view(r: GenerateContentRequest) -> RequestV {
    RequestV {
        model: r.model@,
        contents: contents_view(r.contents@),
        system_instruction: opt_content(r.system_instruction),
        tools: tools_view(r.tools@),
        tool_config: match r.tool_config {
            Some(c) => Some(tool_config_view(c)),
            None => None,
        },
        safety_settings: r.safety_settings@,
        generation_config: opt_config(r.generation_config),
        cached_content: opt_str(r.cached_content),
    }
}

/// The request a model sends for the given contents: the model's settings,
/// with missing tools and safety settings sent as empty lists.
pub open spec fn request_spec(m: ModelV, contents: Seq<ContentV>) -> RequestV {
    RequestV {
        model: m.name,
        contents,
        system_instruction: m.system_instruction,
        tools: match m.tools {
            Some(ts) => ts,
            None => seq![],
        },
        tool_config: m.tool_config,
        safety_settings: match m.safety_settings {
            Some(s) => s,
            None => seq![],
        },
        generation_config: m.generation_config,
        cached_content: m.cached_content,
    }
}

/// Counts the number of tokens in the request.
#[derive(Debug)]
pub struct CountTokensRequest {
    /// The model's resource name.
    pub model: String,
    /// Input given to the model as a prompt (unused when a request is given).
    pub contents: Vec<Content>,
    /// The overall input given to the model.
    pub generate_content_request: Option<GenerateContentRequest>,
}

/// Content that has been preprocessed and can be used in subsequent
/// requests to the generative service.
#[derive(Debug)]
pub struct CachedContent {
    /// The resource name referring to the cached content.
    pub name: Option<String>,
    /// The user-generated meaningful display name of the cached content.
    pub display_name: Option<String>,
    /// The name of the `Model` to use for cached content.
    pub model: Option<String>,
    /// Developer set system instruction.
    pub system_instruction: Option<Content>,
    /// The content to cache.
    pub contents: Vec<Content>,
    /// A list of `Tools` the model may use to generate the next response.
    pub tools: Vec<Tool>,
    /// Tool config.
    pub tool_config: Option<ToolConfig>,
    /// Creation time of the cache entry.
    pub create_time: Option<Timestamp>,
    /// When the cache entry was last updated in UTC time.
    pub update_time: Option<Timestamp>,
    /// Metadata on the usage of the cached content.
    pub usage_metadata: Option<CacheUsageMetadata>,
    /// Specifies when this resource will expire.
    pub expiration: Option<Expiration>,
}

/// What a cached content holds, as values.
pub struct CachedContentV {
    pub name: Option<Seq<char>>,
    pub display_name: Option<Seq<char>>,
    pub model: Option<Seq<char>>,
    pub system_instruction: Option<ContentV>,
    pub contents: Seq<ContentV>,
    pub tools: Seq<ToolV>,
    pub tool_config: Option<Option<(i32, Seq<Seq<char>>)>>,
    pub create_time: Option<Timestamp>,
    pub update_time: Option<Timestamp>,
    pub usage_metadata: Option<CacheUsageMetadata>,
    pub expiration: Option<Expiration>,
}

impl View for CachedContent {
    type V = CachedContentV;

    open spec fn view(&self) -> CachedContentV {
        CachedContentV {
            name: opt_str(self.name),
            display_name: opt_str(self.display_name),
            model: opt_str(self.model),
            system_instruction: opt_content(self.system_instruction),
            contents: contents_view(self.contents@),
            tools: tools_view(self.tools@),
            tool_config: match self.tool_config {
                Some(c) => Some(tool_config_view(c)),
                None => None,
            },
            create_time: self.create_time,
            update_time: self.update_time,
            usage_metadata: self.usage_metadata,
            expiration: self.expiration,
        }
    }
}

impl Clone for CachedContent {
    fn clone(&self) -> (r: Self)
        ensures
            r@ == self@,
    {
        CachedContent {
            name: clone_opt_string(&self.name),
            display_name: clone_opt_string(&self.display_name),
            model: clone_opt_string(&self.model),
            system_instruction: match &self.system_instruction {
                Some(c) => Some(c.clone()),
                None => None,
            },
            contents: clone_contents(&self.contents),
            tools: clone_tools(&self.tools),
            tool_config: match &self.tool_config {
                Some(c) => Some(c.clone()),
                None => None,
            },
            create_time: self.create_time,
            update_time: self.update_time,
            usage_metadata: self.usage_metadata,
            expiration: self.expiration,
        }
    }
}

/// Whether `c` is the cached content for model `model_name` (as given by
/// the caller) holding `contents`, with nothing else set.
pub open spec fn is_cached_for(c: CachedContent, model_name: Seq<char>, contents: Seq<ContentV>) -> bool {
    &&& opt_str(c.model) == Some(full_model_name_spec(model_name))
    &&& contents_view(c.contents@) == contents
    &&& c.name is None
    &&& c.display_name is None
    &&& c.system_instruction is None
    &&& c.tools@.len() == 0
    &&& c.tool_config is None
    &&& c.create_time is None
    &&& c.update_time is None
    &&& c.usage_metadata is None
    &&& c.expiration is None
}

/// Specifies fields to update in a cached content.
#[derive(Debug, Clone, Copy, PartialEq, Eq, Structural)]
pub enum CachedContentFieldToUpdate {
    /// Update the absolute expiration timestamp.
    ExpireTime,
    /// Update the time-to-live duration (relative to current time).
    Ttl,
}

/// The fields of a resource that an update changes.
#[derive(Debug, PartialEq, Eq)]
pub struct FieldMask {
    /// The names of the fields.
    pub paths: Vec<String>,
}

/// The name of the field that an update of a cached content changes: that
/// of its expiration, if it has one, else the empty name.
pub open spec fn expiration_field(e: Option<Expiration>) -> Seq<char> {
    match e {
        Some(Expiration::ExpireTime(_)) => "expire_time"@,
        Some(Expiration::Ttl(_)) => "ttl"@,
        None => ""@,
    }
}

impl CachedContent {
    /// A cached content for the given model holding the given contents, with
    /// nothing else set.
    pub fn for_model(model_name: &str, contents: Vec<Content>) -> (r: CachedContent)
        ensures
            is_cached_for(r, model_name@, contents_view(contents@)),
    {
        CachedContent {
            name: None,
            display_name: None,
            model: Some(full_model_name(model_name)),
            system_instruction: None,
            contents,
            tools: Vec::new(),
            tool_config: None,
            create_time: None,
            update_time: None,
            usage_metadata: None,
            expiration: None,
        }
    }

    /// The fields that an update of this cached content changes: one path,
    /// naming how its expiration is given.
    pub fn field_mask(&self) -> (r: FieldMask)
        ensures
            r.paths@.len() == 1,
            r.paths@[0]@ == expiration_field(self.expiration),
    {
        let path = match self.expiration {
            Some(Expiration::ExpireTime(_)) => "expire_time".to_owned(),
            Some(Expiration::Ttl(_)) => "ttl".to_owned(),
            None => "".to_owned(),
        };
        let mut paths: Vec<String> = Vec::new();
        paths.push(path);
        FieldMask { paths }
    }
}


/// What deciding the fields of a tuned-model update reads of the model: its
/// name for display, description and readers, whether each optional
/// setting (temperature, top-p, tuning task) is given, and what it was tuned
/// from. The settings themselves hold numbers with a fraction, which an
/// update sends as they are and which the decision does not read.
pub struct TunedModelFields {
    pub display_name: String,
    pub description: String,
    pub reader_project_numbers: Vec<i64>,
    pub has_temperature: bool,
    pub has_top_p: bool,
    pub has_tuning_task: bool,
    pub source_model: Option<SourceModel>,
}

/// The fields an update of a tuned model changes, in this order: the texts
/// and readers that are not empty, the settings that are given, and the
/// source when it is another tuned model.
pub open spec fn tuned_field_paths(f: TunedModelFields) -> Seq<Seq<char>> {
    (if f.display_name@.len() > 0 { seq!["display_name"@] } else { Seq::empty() })
        + (if f.description@.len() > 0 { seq!["description"@] } else { Seq::empty() })
        + (if f.reader_project_numbers@.len() > 0 { seq!["reader_project_numbers"@] } else { Seq::empty() })
        + (if f.has_temperature { seq!["temperature"@] } else { Seq::empty() })
        + (if f.has_top_p { seq!["top_p"@] } else { Seq::empty() })
        + (if f.has_tuning_task { seq!["tuning_task"@] } else { Seq::empty() })
        + (if f.source_model matches Some(SourceModel::TunedModelSource(_)) {
            seq!["tuned_model_source"@]
        } else {
            Seq::empty()
        })
}

/// Appends `name` when `cond` holds.
fn push_field_if(paths: &mut Vec<String>, cond: bool, name: &str)
    ensures
        strings_view(final(paths)@) == strings_view(old(paths)@) + (if cond { seq![name@] } else { Seq::empty() }),
{
    let ghost before = paths@;
    if cond {
        paths.push(name.to_owned());
        assert(strings_view(paths@) =~= strings_view(before) + seq![name@]);
    } else {
        assert(strings_view(paths@) =~= strings_view(before) + Seq::<Seq<char>>::empty());
    }
}

impl TunedModelFields {
    /// The fields that an update of this tuned model changes.
    pub fn field_mask(&self) -> (r: FieldMask)
        ensures
            strings_view(r.paths@) == tuned_field_paths(*self),
    {
        let mut paths: Vec<String> = Vec::new();
        assert(strings_view(paths@) =~= Seq::<Seq<char>>::empty());
        push_field_if(&mut paths, !self.display_name.as_str().is_empty(), "display_name");
        push_field_if(&mut paths, !self.description.as_str().is_empty(), "description");
        push_field_if(&mut paths, self.reader_project_numbers.len() > 0, "reader_project_numbers");
        push_field_if(&mut paths, self.has_temperature, "temperature");
        push_field_if(&mut paths, self.has_top_p, "top_p");
        push_field_if(&mut paths, self.has_tuning_task, "tuning_task");
        let tuned_source = match &self.source_model {
            Some(SourceModel::TunedModelSource(_)) => true,
            _ => false,
        };
        push_field_if(&mut paths, tuned_source, "tuned_model_source");
        assert(strings_view(paths@) =~= tuned_field_paths(*self));
        FieldMask { paths }
    }
}


impl Clone for GenerativeModel {
    fn clone(&self) -> (r: Self)
        ensures
            r@ == self@,
    {
        GenerativeModel {
            model_name: self.model_name.clone(),
            system_instruction: match &self.system_instruction {
                Some(c) => Some(c.clone()),
                None => None,
            },
            tools: match &self.tools {
                Some(ts) => Some(clone_tools(ts)),
                None => None,
            },
            tool_config: match &self.tool_config {
                Some(c) => Some(c.clone()),
                None => None,
            },
            safety_settings: match &self.safety_settings {
                Some(v) => Some(clone_settings(v)),
                None => None,
            },
            generation_config: match &self.generation_config {
                Some(c) => Some(c.clone()),
                None => None,
            },
            cached_content: clone_opt_string(&self.cached_content),
        }
    }
}

impl GenerativeModel {
    /// Creates a new model interface with default configuration; names
    /// without a `/` are put under `models/`. To access a tuned model
    /// named NAME, pass "tunedModels/NAME".
    pub fn new(name: &str) -> (r: GenerativeModel)
        ensures
            r@ == new_model_spec(name@),
    {
        GenerativeModel {
            model_name: full_model_name(name),
            system_instruction: None,
            tools: None,
            tool_config: None,
            safety_settings: None,
            generation_config: None,
            cached_content: None,
        }
    }

    /// Changes the model identifier for this instance in place.
    pub fn change_model(&mut self, to: &str)
        ensures
            final(self)@ == (ModelV { name: full_model_name_spec(to@), ..old(self)@ }),
    {
        self.model_name = full_model_name(to);
    }

    /// Returns the full identifier of the model, including any `models/` prefix.
    pub fn full_name(&self) -> (r: &str)
        ensures
            r@ == self@.name,
    {
        self.model_name.as_str()
    }

    /// Whether the model is a tuned model (its name starts with `tunedModels`);
    /// information about it is then fetched as a tuned model.
    pub fn is_tuned(&self) -> (r: bool)
        ensures
            r == ("tunedModels"@.len() <= self@.name.len()
                && self@.name.take("tunedModels"@.len() as int) == "tunedModels"@),
    {
        starts_with(self.model_name.as_str(), "tunedModels")
    }

    /// Sets system-level behavior instructions.
    pub fn with_system_instruction<I: crate::content::IntoContent>(self, instruction: I) -> (r: GenerativeModel)
        ensures
            r@ == (ModelV { system_instruction: Some(instruction.content_spec()), ..self@ }),
    {
        let mut m = self;
        m.system_instruction = Some(instruction.into_content());
        m
    }

    /// Changes the model identifier, returning the modified instance.
    pub fn to_model(self, to: &str) -> (r: GenerativeModel)
        ensures
            r@ == (ModelV { name: full_model_name_spec(to@), ..self@ }),
    {
        let mut m = self;
        m.change_model(to);
        m
    }

    /// Sets cached content for persisted context; a cached content without
    /// a name is refused.
    pub fn with_cached_content(self, c: &CachedContent) -> (r: Result<GenerativeModel, Error>)
        ensures
            match c.name {
                Some(n) => r matches Ok(m) && m@ == (ModelV { cached_content: Some(n@), ..self@ }),
                None => r matches Err(Error::InvalidArgument(msg)) && msg@ == "cached content name is empty"@,
            },
    {
        match &c.name {
            Some(n) => {
                let mut m = self;
                m.cached_content = Some(n.clone());
                Ok(m)
            },
            None => Err(Error::InvalidArgument("cached content name is empty".to_owned())),
        }
    }

    /// Specifies the expected response format (e.g., "application/json").
    pub fn with_response_format(self, mime_type: &str) -> (r: GenerativeModel)
        ensures
            r@ == (ModelV {
                generation_config: Some(GenerationConfigV {
                    response_mime_type: mime_type@,
                    ..config_or_default(self@.generation_config)
                }),
                ..self@
            }),
    {
        let mut m = self;
        let mut c = match m.generation_config.take() {
            Some(c) => c,
            None => GenerationConfig::default(),
        };
        c.response_mime_type = mime_type.to_owned();
        m.generation_config = Some(c);
        m
    }

    /// Configures the model to respond with a schema matching the type `T`.
    pub fn as_response_schema<T: AsSchema>(self) -> (r: GenerativeModel)
        ensures
            r@ == (ModelV {
                generation_config: Some(with_schema_config(config_or_default(self@.generation_config), T::schema_spec())),
                ..self@
            }),
    {
        self.with_response_schema(T::as_schema())
    }

    /// Sets the response schema; the response format becomes JSON unless one
    /// is set already.
    pub fn with_response_schema(self, schema: Schema) -> (r: GenerativeModel)
        ensures
            r@ == (ModelV {
                generation_config: Some(with_schema_config(config_or_default(self@.generation_config), schema_view(schema))),
                ..self@
            }),
    {
        let mut m = self;
        let mut c = match m.generation_config.take() {
            Some(c) => c,
            None => GenerationConfig::default(),
        };
        if c.response_mime_type.as_str().is_empty() {
            c.response_mime_type = "application/json".to_owned();
        }
        c.response_schema = Some(schema);
        m.generation_config = Some(c);
        m
    }

    /// Sets the tools the model may use.
    pub fn tools(self, tools: Vec<Tool>) -> (r: GenerativeModel)
        ensures
            r@ == (ModelV { tools: Some(tools_view(tools@)), ..self@ }),
    {
        let mut m = self;
        m.tools = Some(tools);
        m
    }

    /// Configures how the model uses tools.
    pub fn tool_config(self, tool_config: ToolConfig) -> (r: GenerativeModel)
        ensures
            r@ == (ModelV { tool_config: Some(tool_config_view(tool_config)), ..self@ }),
    {
        let mut m = self;
        m.tool_config = Some(tool_config);
        m
    }

    /// Applies content safety filters to the model.
    pub fn safety_settings(self, safety_settings: Vec<SafetySetting>) -> (r: GenerativeModel)
        ensures
            r@ == (ModelV { safety_settings: Some(safety_settings@), ..self@ }),
    {
        let mut m = self;
        m.safety_settings = Some(safety_settings);
        m
    }

    /// Sets the generation parameters of the model.
    pub fn generation_config(self, generation_config: GenerationConfig) -> (r: GenerativeModel)
        ensures
            r@ == (ModelV { generation_config: Some(config_view(generation_config)), ..self@ }),
    {
        let mut m = self;
        m.generation_config = Some(generation_config);
        m
    }

    /// Creates a copy with new system instructions.
    pub fn with_cloned_instruction<I: crate::content::IntoContent>(&self, instruction: I) -> (r: GenerativeModel)
        ensures
            r@ == (ModelV { system_instruction: Some(instruction.content_spec()), ..self@ }),
    {
        let mut m = self.clone();
        m.system_instruction = Some(instruction.into_content());
        m
    }

    /// Sets the number of candidates to generate.
    pub fn candidate_count(self, x: i32) -> (r: GenerativeModel)
        ensures
            r@ == (ModelV {
                generation_config: Some(GenerationConfigV { candidate_count: Some(x), ..config_or_default(self@.generation_config) }),
                ..self@
            }),
    {
        let mut m = self;
        m.set_candidate_count(x);
        m
    }

    /// Sets the maximum number of output tokens.
    pub fn max_output_tokens(self, x: i32) -> (r: GenerativeModel)
        ensures
            r@ == (ModelV {
                generation_config: Some(GenerationConfigV { max_output_tokens: Some(x), ..config_or_default(self@.generation_config) }),
                ..self@
            }),
    {
        let mut m = self;
        m.set_max_output_tokens(x);
        m
    }

    /// Sets the top-k sampling parameter.
    pub fn top_k(self, x: i32) -> (r: GenerativeModel)
        ensures
            r@ == (ModelV {
                generation_config: Some(GenerationConfigV { top_k: Some(x), ..config_or_default(self@.generation_config) }),
                ..self@
            }),
    {
        let mut m = self;
        m.set_top_k(x);
        m
    }

    /// Sets the number of candidates to generate.
    pub fn set_candidate_count(&mut self, x: i32)
        ensures
            final(self)@ == (ModelV {
                generation_config: Some(GenerationConfigV { candidate_count: Some(x), ..config_or_default(old(self)@.generation_config) }),
                ..old(self)@
            }),
    {
        let mut c = match self.generation_config.take() {
            Some(c) => c,
            None => GenerationConfig::default(),
        };
        c.candidate_count = Some(x);
        self.generation_config = Some(c);
    }

    /// Sets the maximum number of output tokens.
    pub fn set_max_output_tokens(&mut self, x: i32)
        ensures
            final(self)@ == (ModelV {
                generation_config: Some(GenerationConfigV { max_output_tokens: Some(x), ..config_or_default(old(self)@.generation_config) }),
                ..old(self)@
            }),
    {
        let mut c = match self.generation_config.take() {
            Some(c) => c,
            None => GenerationConfig::default(),
        };
        c.max_output_tokens = Some(x);
        self.generation_config = Some(c);
    }

    /// Sets the top-k sampling parameter.
    pub fn set_top_k(&mut self, x: i32)
        ensures
            final(self)@ == (ModelV {
                generation_config: Some(GenerationConfigV { top_k: Some(x), ..config_or_default(old(self)@.generation_config) }),
                ..old(self)@
            }),
    {
        let mut c = match self.generation_config.take() {
            Some(c) => c,
            None => GenerationConfig::default(),
        };
        c.top_k = Some(x);
        self.generation_config = Some(c);
    }

    /// The request that generates a completion of `contents` with this
    /// model's settings.
    pub fn build_request<T: TryIntoContents>(self, contents: T) -> (r: Result<GenerateContentRequest, Error>)
        ensures
            match contents.try_contents_spec() {
                Some(cs) => r matches Ok(q) && request_view(q) == request_spec(self@, cs),
                None => r is Err,
            },
    {
        let contents = match contents.try_into_contents() {
            Ok(c) => c,
            Err(e) => return Err(e),
        };
        let tools = match self.tools {
            Some(ts) => ts,
            None => Vec::new(),
        };
        let safety_settings = match self.safety_settings {
            Some(s) => s,
            None => Vec::new(),
        };
        let r = GenerateContentRequest {
            model: self.model_name,
            contents,
            system_instruction: self.system_instruction,
            tools,
            tool_config: self.tool_config,
            safety_settings,
            generation_config: self.generation_config,
            cached_content: self.cached_content,
        };
        assert(tools_view(r.tools@) == match self@.tools { Some(ts) => ts, None => Seq::<ToolV>::empty() });
        Ok(r)
    }

    /// The request that counts the tokens of `contents` with this model's
    /// settings: the model's name and the full generation request.
    pub fn count_tokens_request<T: TryIntoContents>(&self, contents: T) -> (r: Result<CountTokensRequest, Error>)
        ensures
            match contents.try_contents_spec() {
                Some(cs) => r matches Ok(c) && {
                    &&& c.model@ == self@.name
                    &&& c.contents@.len() == 0
                    &&& c.generate_content_request matches Some(q) && request_view(q) == request_spec(self@, cs)
                },
                None => r is Err,
            },
    {
        let name = self.model_name.clone();
        match self.clone().build_request(contents) {
            Ok(request) => Ok(CountTokensRequest { model: name, contents: Vec::new(), generate_content_request: Some(request) }),
            Err(e) => Err(e),
        }
    }
}


/// A model whose answers are of type `T`: its response schema is that of
/// `T`, so that answers can be parsed into it.
pub struct TypedModel<T> {
    inner: GenerativeModel,
    _marker: core::marker::PhantomData<T>,
}

impl<T: AsSchema> TypedModel<T> {
    /// The configuration of the underlying model.
    pub closed spec fn inner_view(&self) -> ModelV {
        self.inner@
    }

    /// Creates a new typed model configured to return responses of type `T`.
    pub fn new(name: &str) -> (r: TypedModel<T>)
        ensures
            r.inner_view() == (ModelV {
                generation_config: Some(with_schema_config(default_config(), T::schema_spec())),
                ..new_model_spec(name@)
            }),
    {
        let inner = GenerativeModel::new(name).as_response_schema::<T>();
        TypedModel { inner, _marker: core::marker::PhantomData }
    }

    /// A typed model made from a model: its response schema becomes that of
    /// `T`.
    pub fn from_model(value: GenerativeModel) -> (r: TypedModel<T>)
        ensures
            r.inner_view() == (ModelV {
                generation_config: Some(with_schema_config(config_or_default(value@.generation_config), T::schema_spec())),
                ..value@
            }),
    {
        TypedModel { inner: value.as_response_schema::<T>(), _marker: core::marker::PhantomData }
    }

    /// The underlying model, which keeps the response schema of `T`.
    pub fn inner(&self) -> (r: &GenerativeModel)
        ensures
            r@ == self.inner_view(),
    {
        &self.inner
    }

    /// Consumes the `TypedModel`, returning the underlying `GenerativeModel`.
    pub fn into_inner(self) -> (r: GenerativeModel)
        ensures
            r@ == self.inner_view(),
    {
        self.inner
    }
}

impl GenerativeModel {
    /// Converts the model into one whose answers are of type `T`.
    pub fn to_typed<T: AsSchema>(self) -> (r: TypedModel<T>)
        ensures
            r.inner_view() == (ModelV {
                generation_config: Some(with_schema_config(config_or_default(self@.generation_config), T::schema_spec())),
                ..self@
            }),
    {
        TypedModel::from_model(self)
    }
}

/// Container for typed responses with raw API data.
pub struct TypedResponse<T> {
    /// Parsed content of type `T`.
    pub t: T,
    /// Raw API response structure.
    pub raw: GenerateContentResponse,
}

impl<T: TryFromCandidates> TypedResponse<T> {
    /// Reads the value of type `T` from an answer's candidates, keeping the
    /// answer beside it.
    ///
    /// # Errors
    /// That of reading `T` from the candidates.
    pub fn from_response(raw: GenerateContentResponse) -> (r: Result<TypedResponse<T>, Error>)
        ensures
            exists|read: Result<T, Error>, cs: &[Candidate]| {
                &&& cs@ == raw.candidates@
                &&& #[trigger] call_ensures(T::try_from_candidates, (cs,), read)
                &&& match read {
                    Ok(t) => r matches Ok(tr) && tr.t == t && tr.raw == raw,
                    Err(e) => r == Err::<TypedResponse<T>, Error>(e),
                }
            },
    {
        let cs = raw.candidates.as_slice();
        let read = T::try_from_candidates(cs);
        assert(call_ensures(T::try_from_candidates, (cs,), read));
        match read {
            Ok(t) => Ok(TypedResponse { t, raw }),
            Err(e) => Err(e),
        }
    }
}

} // verus!
