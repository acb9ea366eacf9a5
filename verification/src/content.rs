//! Request and response content: parts, contents, candidates and responses.
use vstd::prelude::*;
use crate::error::Error;
use crate::proto::{AttributionSourceId, SafetyRating, SourceV};
use crate::proto::generate_content_response::{PromptFeedback, UsageMetadata};
use crate::genai::{is_cached_for, CachedContent};
use crate::text::push_str;
use crate::render::{describe_invalid_content, invalid_content_message};

verus! {

/// Raw media bytes.
#[derive(Debug, PartialEq, Eq)]
pub struct Blob {
    /// The IANA standard MIME type of the source data.
    pub mime_type: String,
    /// Raw bytes for media formats.
    pub data: Vec<u8>,
}

/// URI based data.
#[derive(Debug, PartialEq, Eq)]
pub struct FileData {
    /// The IANA standard MIME type of the source data.
    pub mime_type: String,
    /// URI of the file.
    pub file_uri: String,
}

/// A predicted function call returned from the model.
#[derive(Debug, PartialEq, Eq)]
pub struct FunctionCall {
    /// The unique id of the function call.
    pub id: String,
    /// The name of the function to call.
    pub name: String,
    /// The function parameters and values, as a JSON object.
    pub args: Option<String>,
}

/// The result output from a function call.
#[derive(Debug, PartialEq, Eq)]
pub struct FunctionResponse {
    /// The id of the function call this response is for.
    pub id: String,
    /// The name of the function that was called.
    pub name: String,
    /// The function response, as a JSON object.
    pub response: Option<String>,
}

/// Code generated by the model that is meant to be executed.
#[derive(Debug, PartialEq, Eq)]
pub struct ExecutableCode {
    /// Programming language of the `code`.
    pub language: i32,
    /// The code to be executed.
    pub code: String,
}

/// Result of executing the `ExecutableCode`.
#[derive(Debug, PartialEq, Eq)]
pub struct CodeExecutionResult {
    /// Outcome of the code execution.
    pub outcome: i32,
    /// Output of the code execution.
    pub output: String,
}

/// The data of a part.
#[derive(Debug, PartialEq, Eq)]
pub enum Data {
    /// Inline text.
    Text(String),
    /// Inline media bytes.
    InlineData(Blob),
    /// A predicted function call.
    FunctionCall(FunctionCall),
    /// The result output of a function call.
    FunctionResponse(FunctionResponse),
    /// URI based data.
    FileData(FileData),
    /// Code generated by the model that is meant to be executed.
    ExecutableCode(ExecutableCode),
    /// Result of executing the `ExecutableCode`.
    CodeExecutionResult(CodeExecutionResult),
}

/// A datatype containing media that is part of a multi-part `Content` message.
#[derive(Debug, PartialEq, Eq)]
pub struct Part {
    /// The data of the part, if any.
    pub data: Option<Data>,
}

/// The base structured datatype containing multi-part content of a message.
#[derive(Debug, PartialEq, Eq)]
pub struct Content {
    /// Ordered parts that constitute a single message.
    pub parts: Vec<Part>,
    /// The producer of the content: "user" or "model".
    pub role: String,
}

/// What a part holds, as values.
pub enum DataV {
    Text(Seq<char>),
    /// MIME type and bytes.
    InlineData(Seq<char>, Seq<u8>),
    /// Id, name and arguments.
    FunctionCall(Seq<char>, Seq<char>, Option<Seq<char>>),
    /// Id, name and response.
    FunctionResponse(Seq<char>, Seq<char>, Option<Seq<char>>),
    /// MIME type and URI.
    FileData(Seq<char>, Seq<char>),
    /// Language and code.
    ExecutableCode(i32, Seq<char>),
    /// Outcome and output.
    CodeExecutionResult(i32, Seq<char>),
}

/// What a content holds, as values.
pub struct ContentV {
    pub role: Seq<char>,
    pub parts: Seq<Option<DataV>>,
}

/// The view of an optional string.
pub open spec fn opt_str(o: Option<String>) -> Option<Seq<char>> {
    match o {
        Some(s) => Some(s@),
        None => None,
    }
}

impl View for FunctionCall {
    type V = (Seq<char>, Seq<char>, Option<Seq<char>>);

    open spec fn view(&self) -> Self::V {
        (self.id@, self.name@, opt_str(self.args))
    }
}

impl View for Data {
    type V = DataV;

    open spec fn view(&self) -> DataV {
        match self {
            Data::Text(t) => DataV::Text(t@),
            Data::InlineData(b) => DataV::InlineData(b.mime_type@, b.data@),
            Data::FunctionCall(f) => DataV::FunctionCall(f.id@, f.name@, opt_str(f.args)),
            Data::FunctionResponse(f) => DataV::FunctionResponse(f.id@, f.name@, opt_str(f.response)),
            Data::FileData(f) => DataV::FileData(f.mime_type@, f.file_uri@),
            Data::ExecutableCode(c) => DataV::ExecutableCode(c.language, c.code@),
            Data::CodeExecutionResult(c) => DataV::CodeExecutionResult(c.outcome, c.output@),
        }
    }
}

impl View for Part {
    type V = Option<DataV>;

    open spec fn view(&self) -> Option<DataV> {
        match self.data {
            Some(d) => Some(d@),
            None => None,
        }
    }
}

/// The views of a sequence of parts.
pub open spec fn parts_view(ps: Seq<Part>) -> Seq<Option<DataV>> {
    ps.map_values(|p: Part| p@)
}

impl View for Content {
    type V = ContentV;

    open spec fn view(&self) -> ContentV {
        ContentV { role: self.role@, parts: parts_view(self.parts@) }
    }
}

/// The views of a sequence of contents.
pub open spec fn contents_view(cs: Seq<Content>) -> Seq<ContentV> {
    cs.map_values(|c: Content| c@)
}

/// A copy of an optional string.
pub fn clone_opt_string(o: &Option<String>) -> (r: Option<String>)
    ensures
        opt_str(r) == opt_str(*o),
{
    match o {
        Some(s) => Some(s.clone()),
        None => None,
    }
}

/// A copy of a byte vector.
pub fn clone_bytes(v: &Vec<u8>) -> (r: Vec<u8>)
    ensures
        r@ == v@,
{
    let r = v.clone();
    assert(r@ =~= v@);
    r
}

impl Clone for FunctionCall {
    fn clone(&self) -> (r: Self)
        ensures
            r@ == self@,
    {
        FunctionCall { id: self.id.clone(), name: self.name.clone(), args: clone_opt_string(&self.args) }
    }
}

impl Clone for Data {
    fn clone(&self) -> (r: Self)
        ensures
            r@ == self@,
    {
        match self {
            Data::Text(t) => Data::Text(t.clone()),
            Data::InlineData(b) => Data::InlineData(
                Blob { mime_type: b.mime_type.clone(), data: clone_bytes(&b.data) },
            ),
            Data::FunctionCall(f) => Data::FunctionCall(f.clone()),
            Data::FunctionResponse(f) => Data::FunctionResponse(
                FunctionResponse {
                    id: f.id.clone(),
                    name: f.name.clone(),
                    response: clone_opt_string(&f.response),
                },
            ),
            Data::FileData(f) => Data::FileData(
                FileData { mime_type: f.mime_type.clone(), file_uri: f.file_uri.clone() },
            ),
            Data::ExecutableCode(c) => Data::ExecutableCode(
                ExecutableCode { language: c.language, code: c.code.clone() },
            ),
            Data::CodeExecutionResult(c) => Data::CodeExecutionResult(
                CodeExecutionResult { outcome: c.outcome, output: c.output.clone() },
            ),
        }
    }
}

impl Clone for Part {
    fn clone(&self) -> (r: Self)
        ensures
            r@ == self@,
    {
        match &self.data {
            Some(d) => Part { data: Some(d.clone()) },
            None => Part { data: None },
        }
    }
}

/// A copy of a sequence of parts.
pub fn clone_parts(ps: &Vec<Part>) -> (r: Vec<Part>)
    ensures
        parts_view(r@) == parts_view(ps@),
{
    let mut r: Vec<Part> = Vec::new();
    let mut i: usize = 0;
    while i < ps.len()
        invariant
            i <= ps.len(),
            parts_view(r@) == parts_view(ps@.take(i as int)),
        decreases ps.len() - i,
    {
        let p = ps[i].clone();
        let ghost old_r = r@;
        r.push(p);
        assert(parts_view(r@) =~= parts_view(old_r).push(p@));
        assert(parts_view(ps@.take(i + 1)) =~= parts_view(ps@.take(i as int)).push(ps@[i as int]@));
        i = i + 1;
    }
    assert(ps@.take(i as int) =~= ps@);
    r
}

impl Clone for Content {
    fn clone(&self) -> (r: Self)
        ensures
            r@ == self@,
    {
        Content { parts: clone_parts(&self.parts), role: self.role.clone() }
    }
}

/// A copy of a sequence of contents.
pub fn clone_contents(cs: &Vec<Content>) -> (r: Vec<Content>)
    ensures
        contents_view(r@) == contents_view(cs@),
{
    let mut r: Vec<Content> = Vec::new();
    let mut i: usize = 0;
    while i < cs.len()
        invariant
            i <= cs.len(),
            contents_view(r@) == contents_view(cs@.take(i as int)),
        decreases cs.len() - i,
    {
        let c = cs[i].clone();
        let ghost old_r = r@;
        r.push(c);
        assert(contents_view(r@) =~= contents_view(old_r).push(c@));
        assert(contents_view(cs@.take(i + 1)) =~= contents_view(cs@.take(i as int)).push(cs@[i as int]@));
        i = i + 1;
    }
    assert(cs@.take(i as int) =~= cs@);
    r
}

/// The text a part holds; empty for any other part.
pub open spec fn part_text(p: Option<DataV>) -> Seq<char> {
    match p {
        Some(DataV::Text(t)) => t,
        _ => seq![],
    }
}

impl Part {
    /// Creates a text content part.
    pub fn text(text: &str) -> (r: Part)
        ensures
            r@ == Some(DataV::Text(text@)),
    {
        Part { data: Some(Data::Text(text.to_owned())) }
    }

    /// Extracts the text in a part.
    pub fn to_text(&self) -> (r: &str)
        ensures
            r@ == part_text(self@),
    {
        match &self.data {
            Some(Data::Text(text)) => text.as_str(),
            _ => {
                proof {
                    reveal_strlit("");
                }
                ""
            },
        }
    }

    /// Extracts the text in a part and consumes it.
    pub fn into_text(self) -> (r: String)
        ensures
            r@ == part_text(self@),
    {
        match self.data {
            Some(Data::Text(text)) => text,
            _ => String::new(),
        }
    }

    /// Creates a binary blob part.
    pub fn blob(mime_type: &str, data: Vec<u8>) -> (r: Part)
        ensures
            r@ == Some(DataV::InlineData(mime_type@, data@)),
    {
        Part { data: Some(Data::InlineData(Blob { mime_type: mime_type.to_owned(), data })) }
    }

    /// Creates a file reference part.
    pub fn file_data(mime_type: &str, uri: &str) -> (r: Part)
        ensures
            r@ == Some(DataV::FileData(mime_type@, uri@)),
    {
        Part {
            data: Some(Data::FileData(FileData { mime_type: mime_type.to_owned(), file_uri: uri.to_owned() })),
        }
    }
}


/// Types that can be turned into content parts.
///
/// Implemented for `&str` and `String` (a text part), `Part`, `Blob`,
/// `FileData` and `FunctionCall` (one part each), vectors of such values
/// (their parts in order) and pairs and triples of them.
pub trait IntoParts: Sized {
    /// The parts this value becomes.
    spec fn parts_spec(&self) -> Seq<Option<DataV>>;

    /// Converts the value into parts.
    fn into_parts(self) -> (r: Vec<Part>)
        ensures
            parts_view(r@) == self.parts_spec(),
    ;
}

impl<'a> IntoParts for &'a str {
    open spec fn parts_spec(&self) -> Seq<Option<DataV>> {
        seq![Some(DataV::Text((*self)@))]
    }

    fn into_parts(self) -> (r: Vec<Part>) {
        let mut v: Vec<Part> = Vec::new();
        v.push(Part::text(self));
        assert(parts_view(v@) =~= self.parts_spec());
        v
    }
}

impl IntoParts for String {
    open spec fn parts_spec(&self) -> Seq<Option<DataV>> {
        seq![Some(DataV::Text(self@))]
    }

    fn into_parts(self) -> (r: Vec<Part>) {
        let mut v: Vec<Part> = Vec::new();
        v.push(Part { data: Some(Data::Text(self)) });
        assert(parts_view(v@) =~= self.parts_spec());
        v
    }
}

impl IntoParts for Part {
    open spec fn parts_spec(&self) -> Seq<Option<DataV>> {
        seq![self@]
    }

    fn into_parts(self) -> (r: Vec<Part>) {
        let ghost me = self@;
        let mut v: Vec<Part> = Vec::new();
        v.push(self);
        assert(parts_view(v@) =~= seq![me]);
        v
    }
}

impl IntoParts for Blob {
    open spec fn parts_spec(&self) -> Seq<Option<DataV>> {
        seq![Some(DataV::InlineData(self.mime_type@, self.data@))]
    }

    fn into_parts(self) -> (r: Vec<Part>) {
        let ghost spec_parts = self.parts_spec();
        let mut v: Vec<Part> = Vec::new();
        v.push(Part { data: Some(Data::InlineData(self)) });
        assert(parts_view(v@) =~= spec_parts);
        v
    }
}

impl IntoParts for FileData {
    open spec fn parts_spec(&self) -> Seq<Option<DataV>> {
        seq![Some(DataV::FileData(self.mime_type@, self.file_uri@))]
    }

    fn into_parts(self) -> (r: Vec<Part>) {
        let ghost spec_parts = self.parts_spec();
        let mut v: Vec<Part> = Vec::new();
        v.push(Part { data: Some(Data::FileData(self)) });
        assert(parts_view(v@) =~= spec_parts);
        v
    }
}

impl IntoParts for FunctionCall {
    open spec fn parts_spec(&self) -> Seq<Option<DataV>> {
        seq![Some(DataV::FunctionCall(self.id@, self.name@, opt_str(self.args)))]
    }

    fn into_parts(self) -> (r: Vec<Part>) {
        let ghost spec_parts = self.parts_spec();
        let mut v: Vec<Part> = Vec::new();
        v.push(Part { data: Some(Data::FunctionCall(self)) });
        assert(parts_view(v@) =~= spec_parts);
        v
    }
}

/// The parts of the items of a sequence, in order.
pub open spec fn flatten_parts<T: IntoParts>(items: Seq<T>) -> Seq<Option<DataV>>
    decreases items.len(),
{
    if items.len() == 0 {
        seq![]
    } else {
        flatten_parts(items.drop_last()) + items.last().parts_spec()
    }
}

/// Moves the parts of `more` to the end of `out`.
pub fn append_parts(out: &mut Vec<Part>, more: Vec<Part>)
    ensures
        parts_view(final(out)@) == parts_view(old(out)@) + parts_view(more@),
{
    let mut more = more;
    let ghost before = out@;
    let ghost m = more@;
    out.append(&mut more);
    assert(parts_view(out@) =~= parts_view(before) + parts_view(m));
}

impl<T: IntoParts> IntoParts for Vec<T> {
    open spec fn parts_spec(&self) -> Seq<Option<DataV>> {
        flatten_parts(self@)
    }

    fn into_parts(self) -> (r: Vec<Part>) {
        let ghost items = self@;
        let mut out: Vec<Part> = Vec::new();
        for item in it: self
            invariant
                it.seq() == items,
                parts_view(out@) == flatten_parts(items.take(it.index() as int)),
        {
            let ghost k = it.index();
            let ghost item_spec = item.parts_spec();
            assert(items[k as int] == item);
            let more = item.into_parts();
            append_parts(&mut out, more);
            assert(items.take(k + 1).drop_last() =~= items.take(k as int));
        }
        assert(items.take(items.len() as int) =~= items);
        out
    }
}

impl<A: IntoParts, B: IntoParts> IntoParts for (A, B) {
    open spec fn parts_spec(&self) -> Seq<Option<DataV>> {
        self.0.parts_spec() + self.1.parts_spec()
    }

    fn into_parts(self) -> (r: Vec<Part>) {
        let (a, b) = self;
        let mut out = a.into_parts();
        append_parts(&mut out, b.into_parts());
        out
    }
}

impl<A: IntoParts, B: IntoParts, C: IntoParts> IntoParts for (A, B, C) {
    open spec fn parts_spec(&self) -> Seq<Option<DataV>> {
        self.0.parts_spec() + self.1.parts_spec() + self.2.parts_spec()
    }

    fn into_parts(self) -> (r: Vec<Part>) {
        let (a, b, c) = self;
        let mut out = a.into_parts();
        append_parts(&mut out, b.into_parts());
        append_parts(&mut out, c.into_parts());
        out
    }
}

impl Content {
    /// The text and inline data parts of this content, as bytes; an error
    /// names the first part that is neither.
    pub fn try_to_bytes(&self) -> (r: Result<Vec<u8>, Error>)
        ensures
            match parts_bytes(self@.parts) {
                Ok(b) => r matches Ok(v) && v@ == b,
                Err(p) => r matches Err(Error::InvalidContent(m)) && m@ == invalid_content_message(p),
            },
    {
        let ghost ps = parts_view(self.parts@);
        let mut out: Vec<u8> = Vec::new();
        let mut j: usize = 0;
        while j < self.parts.len()
            invariant
                j <= self.parts.len(),
                ps == parts_view(self.parts@),
                parts_bytes(ps.take(j as int)) == Ok::<Seq<u8>, Option<DataV>>(out@),
            decreases self.parts.len() - j,
        {
            let ghost prefix = ps.take(j + 1);
            assert(prefix.drop_last() =~= ps.take(j as int));
            assert(prefix.last() == self.parts@[j as int]@);
            match &self.parts[j].data {
                Some(Data::Text(t)) => {
                    extend_bytes(&mut out, t.as_str().as_bytes());
                },
                Some(Data::InlineData(b)) => {
                    extend_bytes(&mut out, b.data.as_slice());
                },
                other => {
                    let msg = describe_invalid_content(other);
                    proof {
                        assert(ps =~= prefix + ps.skip(j + 1));
                        lemma_parts_bytes_err(prefix, ps.skip(j + 1));
                    }
                    return Err(Error::InvalidContent(msg));
                },
            }
            j = j + 1;
        }
        assert(ps.take(j as int) =~= ps);
        Ok(out)
    }

    /// Creates new `Content` with the role set to "user".
    pub fn new<I: IntoParts>(parts: I) -> (r: Content)
        ensures
            r@ == (ContentV { role: "user"@, parts: parts.parts_spec() }),
    {
        Self::user(parts)
    }

    /// Creates new `Content` explicitly assigning it the "user" role.
    pub fn user<I: IntoParts>(parts: I) -> (r: Content)
        ensures
            r@ == (ContentV { role: "user"@, parts: parts.parts_spec() }),
    {
        Content { role: "user".to_owned(), parts: parts.into_parts() }
    }

    /// Creates new `Content` explicitly assigning it the "model" role.
    pub fn model<I: IntoParts>(parts: I) -> (r: Content)
        ensures
            r@ == (ContentV { role: "model"@, parts: parts.parts_spec() }),
    {
        Content { role: "model".to_owned(), parts: parts.into_parts() }
    }
}


/// Types that can be turned into one content: a `Content` itself, or
/// anything that can be turned into parts (which become a user content).
pub trait IntoContent: Sized {
    /// The content this value becomes.
    spec fn content_spec(&self) -> ContentV;

    /// Converts the value into a content.
    fn into_content(self) -> (r: Content)
        ensures
            r@ == self.content_spec(),
    ;
}

impl IntoContent for Content {
    open spec fn content_spec(&self) -> ContentV {
        self@
    }

    fn into_content(self) -> (r: Content) {
        self
    }
}

impl<T: IntoParts> IntoContent for T {
    open spec fn content_spec(&self) -> ContentV {
        ContentV { role: "user"@, parts: self.parts_spec() }
    }

    fn into_content(self) -> (r: Content) {
        Content::new(self)
    }
}

/// Types that can be turned into a list of contents: a vector of contents
/// is taken as it is, any single content becomes a list of one.
pub trait IntoContents: Sized {
    /// The contents this value becomes.
    spec fn contents_spec(&self) -> Seq<ContentV>;

    /// Converts the value into contents.
    fn into_contents(self) -> (r: Vec<Content>)
        ensures
            contents_view(r@) == self.contents_spec(),
    ;

    /// Create cached content targeting a specific model.
    fn into_cached_content_for(self, model_name: &str) -> (r: CachedContent)
        ensures
            is_cached_for(r, model_name@, self.contents_spec()),
    {
        CachedContent::for_model(model_name, self.into_contents())
    }
}

impl IntoContents for Vec<Content> {
    open spec fn contents_spec(&self) -> Seq<ContentV> {
        contents_view(self@)
    }

    fn into_contents(self) -> (r: Vec<Content>) {
        self
    }
}

impl<T: IntoContent> IntoContents for T {
    open spec fn contents_spec(&self) -> Seq<ContentV> {
        seq![self.content_spec()]
    }

    fn into_contents(self) -> (r: Vec<Content>) {
        let c = self.into_content();
        let ghost cv = c@;
        let mut v: Vec<Content> = Vec::new();
        v.push(c);
        assert(contents_view(v@) =~= seq![cv]);
        v
    }
}

/// Fallible conversion to multiple contents, for inputs that are checked
/// first; anything that converts into contents converts without error.
pub trait TryIntoContents: Sized {
    /// The contents this value becomes, or `None` when it is refused.
    spec fn try_contents_spec(&self) -> Option<Seq<ContentV>>;

    /// Convert to content items, validating input if needed.
    fn try_into_contents(self) -> (r: Result<Vec<Content>, Error>)
        ensures
            match self.try_contents_spec() {
                Some(cs) => r matches Ok(v) && contents_view(v@) == cs,
                None => r is Err,
            },
    ;

    /// Create cached content targeting a specific model, from the contents
    /// if the conversion succeeds.
    fn try_into_cached_content_for(self, model_name: &str) -> (r: Result<CachedContent, Error>)
        ensures
            match self.try_contents_spec() {
                Some(cs) => r matches Ok(c) && is_cached_for(c, model_name@, cs),
                None => r is Err,
            },
    {
        match self.try_into_contents() {
            Ok(contents) => Ok(CachedContent::for_model(model_name, contents)),
            Err(e) => Err(e),
        }
    }
}

impl<T: IntoContents> TryIntoContents for T {
    open spec fn try_contents_spec(&self) -> Option<Seq<ContentV>> {
        Some(self.contents_spec())
    }

    fn try_into_contents(self) -> (r: Result<Vec<Content>, Error>) {
        Ok(self.into_contents())
    }
}

/// Fallible conversion to a single content, for inputs that are checked
/// first; anything that converts into a content converts without error.
pub trait TryIntoContent: Sized {
    /// The content this value becomes, or `None` when it is refused.
    spec fn try_content_spec(&self) -> Option<ContentV>;

    /// Convert to a content item with validation.
    fn try_into_content(self) -> (r: Result<Content, Error>)
        ensures
            match self.try_content_spec() {
                Some(c) => r matches Ok(x) && x@ == c,
                None => r is Err,
            },
    ;
}

impl<T: IntoContent> TryIntoContent for T {
    open spec fn try_content_spec(&self) -> Option<ContentV> {
        Some(self.content_spec())
    }

    fn try_into_content(self) -> (r: Result<Content, Error>) {
        Ok(self.into_content())
    }
}

/// A citation to a source for a portion of a specific response.
#[derive(Debug, PartialEq, Eq)]
pub struct CitationSource {
    /// Start of segment of the response that is attributed to this source.
    pub start_index: Option<i32>,
    /// End of the attributed segment, exclusive.
    pub end_index: Option<i32>,
    /// URI that is attributed as a source for a portion of the text.
    pub uri: Option<String>,
    /// License for the GitHub project that is attributed as a source for segment.
    pub license: Option<String>,
}

/// A collection of source attributions for a piece of content.
#[derive(Debug, PartialEq, Eq)]
pub struct CitationMetadata {
    /// Citations to sources for a specific response.
    pub citation_sources: Vec<CitationSource>,
}

impl View for CitationSource {
    type V = (Option<i32>, Option<i32>, Option<Seq<char>>, Option<Seq<char>>);

    open spec fn view(&self) -> Self::V {
        (self.start_index, self.end_index, opt_str(self.uri), opt_str(self.license))
    }
}

/// The views of a sequence of citation sources.
pub open spec fn sources_view(cs: Seq<CitationSource>) -> Seq<(Option<i32>, Option<i32>, Option<Seq<char>>, Option<Seq<char>>)> {
    cs.map_values(|c: CitationSource| c@)
}

impl Clone for CitationSource {
    fn clone(&self) -> (r: Self)
        ensures
            r@ == self@,
    {
        CitationSource {
            start_index: self.start_index,
            end_index: self.end_index,
            uri: clone_opt_string(&self.uri),
            license: clone_opt_string(&self.license),
        }
    }
}

/// Appends copies of `more` to `out`.
pub fn extend_sources(out: &mut Vec<CitationSource>, more: &Vec<CitationSource>)
    ensures
        sources_view(final(out)@) == sources_view(old(out)@) + sources_view(more@),
{
    let ghost start = sources_view(out@);
    let mut i: usize = 0;
    while i < more.len()
        invariant
            i <= more.len(),
            sources_view(out@) == start + sources_view(more@.take(i as int)),
        decreases more.len() - i,
    {
        let c = more[i].clone();
        let ghost old_out = out@;
        out.push(c);
        assert(sources_view(out@) =~= sources_view(old_out).push(c@));
        assert(sources_view(more@.take(i + 1)) =~= sources_view(more@.take(i as int)).push(more@[i as int]@));
        i = i + 1;
    }
    assert(more@.take(i as int) =~= more@);
}

impl Clone for CitationMetadata {
    fn clone(&self) -> (r: Self)
        ensures
            sources_view(r.citation_sources@) == sources_view(self.citation_sources@),
    {
        let mut v: Vec<CitationSource> = Vec::new();
        extend_sources(&mut v, &self.citation_sources);
        assert(sources_view(Seq::<CitationSource>::empty()) + sources_view(self.citation_sources@)
            =~= sources_view(self.citation_sources@));
        CitationMetadata { citation_sources: v }
    }
}

/// A response candidate generated from the model.
#[derive(Debug, PartialEq, Eq)]
pub struct Candidate {
    /// Index of the candidate in the list of response candidates.
    pub index: Option<i32>,
    /// Generated content returned from the model.
    pub content: Option<Content>,
    /// The reason why the model stopped generating tokens.
    pub finish_reason: i32,
    /// List of ratings for the safety of a response candidate.
    pub safety_ratings: Vec<SafetyRating>,
    /// Citation information for model-generated candidate.
    pub citation_metadata: Option<CitationMetadata>,
    /// Token count for this candidate.
    pub token_count: i32,
    /// Attribution information for sources that contributed to a grounded
    /// answer.
    pub grounding_attributions: Vec<GroundingAttribution>,
}

/// What a candidate holds, as values.
pub struct CandidateV {
    pub index: Option<i32>,
    pub content: Option<ContentV>,
    pub finish_reason: i32,
    pub safety_ratings: Seq<SafetyRating>,
    pub citations: Option<Seq<(Option<i32>, Option<i32>, Option<Seq<char>>, Option<Seq<char>>)>>,
    pub token_count: i32,
    pub grounding: Seq<(Option<Option<SourceV>>, Option<ContentV>)>,
}

/// Attribution for a source that contributed to an answer.
#[derive(Debug, PartialEq, Eq)]
pub struct GroundingAttribution {
    /// Identifier for the source contributing to this attribution.
    pub source_id: Option<AttributionSourceId>,
    /// Grounding source content that makes up this attribution.
    pub content: Option<Content>,
}

impl View for GroundingAttribution {
    type V = (Option<Option<SourceV>>, Option<ContentV>);

    open spec fn view(&self) -> (Option<Option<SourceV>>, Option<ContentV>) {
        (
            match self.source_id {
                Some(s) => Some(s@),
                None => None,
            },
            opt_content(self.content),
        )
    }
}

impl Clone for GroundingAttribution {
    fn clone(&self) -> (r: Self)
        ensures
            r@ == self@,
    {
        let source_id = match &self.source_id {
            Some(s) => Some(s.clone()),
            None => None,
        };
        let content = match &self.content {
            Some(c) => Some(c.clone()),
            None => None,
        };
        GroundingAttribution { source_id, content }
    }
}

/// The views of a sequence of grounding attributions.
pub open spec fn attributions_view(v: Seq<GroundingAttribution>) -> Seq<(Option<Option<SourceV>>, Option<ContentV>)> {
    v.map_values(|a: GroundingAttribution| a@)
}

/// A copy of a vector of grounding attributions.
pub fn clone_attributions(v: &Vec<GroundingAttribution>) -> (r: Vec<GroundingAttribution>)
    ensures
        attributions_view(r@) == attributions_view(v@),
{
    let mut r: Vec<GroundingAttribution> = Vec::new();
    let mut i: usize = 0;
    while i < v.len()
        invariant
            i <= v.len(),
            r@.len() == i,
            attributions_view(r@) == attributions_view(v@.take(i as int)),
        decreases v.len() - i,
    {
        let a = v[i].clone();
        let ghost prev = r@;
        let ghost copied = a;
        assert(copied@ == v@[i as int]@);
        r.push(a);
        assert(r@ == prev.push(copied));
        assert forall|k: int| 0 <= k < i + 1 implies #[trigger] attributions_view(r@)[k] == attributions_view(v@.take(i + 1))[k] by {
            if k < i {
                assert(attributions_view(prev)[k] == attributions_view(v@.take(i as int))[k]);
                assert(r@[k] == prev[k]);
            } else {
                assert(r@[k] == copied);
                assert(v@.take(i + 1)[k] == v@[i as int]);
            }
        }
        assert(attributions_view(r@) =~= attributions_view(v@.take(i + 1)));
        i = i + 1;
    }
    assert(v@.take(i as int) =~= v@);
    r
}

/// The view of an optional content.
pub open spec fn opt_content(c: Option<Content>) -> Option<ContentV> {
    match c {
        Some(c) => Some(c@),
        None => None,
    }
}

/// The view of optional citation metadata.
pub open spec fn opt_citations(c: Option<CitationMetadata>) -> Option<Seq<(Option<i32>, Option<i32>, Option<Seq<char>>, Option<Seq<char>>)>> {
    match c {
        Some(c) => Some(sources_view(c.citation_sources@)),
        None => None,
    }
}

impl View for Candidate {
    type V = CandidateV;

    open spec fn view(&self) -> CandidateV {
        CandidateV {
            index: self.index,
            content: opt_content(self.content),
            finish_reason: self.finish_reason,
            safety_ratings: self.safety_ratings@,
            citations: opt_citations(self.citation_metadata),
            token_count: self.token_count,
            grounding: attributions_view(self.grounding_attributions@),
        }
    }
}

/// The views of a sequence of candidates.
pub open spec fn candidates_view(cs: Seq<Candidate>) -> Seq<CandidateV> {
    cs.map_values(|c: Candidate| c@)
}

/// A copy of a vector of safety ratings.
pub fn clone_ratings(v: &Vec<SafetyRating>) -> (r: Vec<SafetyRating>)
    ensures
        r@ == v@,
{
    let mut r: Vec<SafetyRating> = Vec::new();
    let mut i: usize = 0;
    while i < v.len()
        invariant
            i <= v.len(),
            r@ == v@.take(i as int),
        decreases v.len() - i,
    {
        r.push(v[i]);
        assert(r@ =~= v@.take(i + 1));
        i = i + 1;
    }
    assert(v@.take(i as int) =~= v@);
    r
}

impl Clone for Candidate {
    fn clone(&self) -> (r: Self)
        ensures
            r@ == self@,
    {
        let content = match &self.content {
            Some(c) => Some(c.clone()),
            None => None,
        };
        let citation_metadata = match &self.citation_metadata {
            Some(c) => Some(c.clone()),
            None => None,
        };
        Candidate {
            index: self.index,
            content,
            finish_reason: self.finish_reason,
            safety_ratings: clone_ratings(&self.safety_ratings),
            citation_metadata,
            token_count: self.token_count,
            grounding_attributions: clone_attributions(&self.grounding_attributions),
        }
    }
}

/// The function calls among a content's parts, in order.
pub open spec fn function_calls_of(ps: Seq<Option<DataV>>) -> Seq<(Seq<char>, Seq<char>, Option<Seq<char>>)>
    decreases ps.len(),
{
    if ps.len() == 0 {
        seq![]
    } else {
        function_calls_of(ps.drop_last()) + match ps.last() {
            Some(DataV::FunctionCall(id, name, args)) => seq![(id, name, args)],
            _ => seq![],
        }
    }
}

/// The views of a sequence of function calls.
pub open spec fn calls_view(fs: Seq<FunctionCall>) -> Seq<(Seq<char>, Seq<char>, Option<Seq<char>>)> {
    fs.map_values(|f: FunctionCall| f@)
}

impl Candidate {
    /// Returns all the `FunctionCall` parts in the candidate: `None` when the
    /// candidate has no content.
    pub fn function_calls(&self) -> (r: Option<Vec<FunctionCall>>)
        ensures
            match self@.content {
                Some(c) => r matches Some(fs) && calls_view(fs@) == function_calls_of(c.parts),
                None => r is None,
            },
    {
        match &self.content {
            Some(content) => {
                let ghost ps = parts_view(content.parts@);
                let mut out: Vec<FunctionCall> = Vec::new();
                let mut i: usize = 0;
                while i < content.parts.len()
                    invariant
                        i <= content.parts.len(),
                        ps == parts_view(content.parts@),
                        calls_view(out@) == function_calls_of(ps.take(i as int)),
                    decreases content.parts.len() - i,
                {
                    let ghost old_out = out@;
                    assert(ps.take(i + 1).drop_last() =~= ps.take(i as int));
                    assert(ps.take(i + 1).last() == content.parts@[i as int]@);
                    match &content.parts[i].data {
                        Some(Data::FunctionCall(fc)) => {
                            let f = fc.clone();
                            out.push(f);
                            assert(calls_view(out@) =~= calls_view(old_out).push(f@));
                        },
                        _ => {
                            assert(calls_view(out@) =~= calls_view(old_out) + Seq::<(Seq<char>, Seq<char>, Option<Seq<char>>)>::empty());
                        },
                    }
                    i = i + 1;
                }
                assert(ps.take(i as int) =~= ps);
                Some(out)
            },
            None => None,
        }
    }
}


/// Response from the model supporting multiple candidate responses.
#[derive(Debug, PartialEq, Eq)]
pub struct GenerateContentResponse {
    /// Candidate responses from the model.
    pub candidates: Vec<Candidate>,
    /// Returns the prompt's feedback related to the content filters.
    pub prompt_feedback: Option<PromptFeedback>,
    /// Metadata on the generation requests' token usage.
    pub usage_metadata: Option<UsageMetadata>,
    /// The model version used to generate the response.
    pub model_version: String,
}

/// Generation response containing model output and metadata.
pub type Response = GenerateContentResponse;

/// The parts of an optional content; none when there is no content.
pub open spec fn content_parts(c: Option<ContentV>) -> Seq<Option<DataV>> {
    match c {
        Some(c) => c.parts,
        None => seq![],
    }
}

/// The parts of all candidates that have content, candidate by candidate.
pub open spec fn response_parts(cs: Seq<CandidateV>) -> Seq<Option<DataV>>
    decreases cs.len(),
{
    if cs.len() == 0 {
        seq![]
    } else {
        response_parts(cs.drop_last()) + content_parts(cs.last().content)
    }
}

/// The text of the text parts, concatenated; other parts add nothing.
pub open spec fn parts_text(ps: Seq<Option<DataV>>) -> Seq<char>
    decreases ps.len(),
{
    if ps.len() == 0 {
        seq![]
    } else {
        parts_text(ps.drop_last()) + part_text(ps.last())
    }
}

/// The bytes of a part: the UTF-8 encoding of text, the bytes of inline
/// data; other parts have none.
pub open spec fn part_bytes(p: Option<DataV>) -> Option<Seq<u8>> {
    match p {
        Some(DataV::Text(t)) => Some(vstd::utf8::encode_utf8(t)),
        Some(DataV::InlineData(_, d)) => Some(d),
        _ => None,
    }
}

/// The bytes of the parts, concatenated, or the first part that has none.
pub open spec fn parts_bytes(ps: Seq<Option<DataV>>) -> Result<Seq<u8>, Option<DataV>>
    decreases ps.len(),
{
    if ps.len() == 0 {
        Ok(seq![])
    } else {
        match parts_bytes(ps.drop_last()) {
            Err(p) => Err(p),
            Ok(b) => match part_bytes(ps.last()) {
                Some(x) => Ok(b + x),
                None => Err(ps.last()),
            },
        }
    }
}

/// Once a prefix of parts has a part without bytes, so has any extension.
pub proof fn lemma_parts_bytes_err(ps: Seq<Option<DataV>>, rest: Seq<Option<DataV>>)
    requires
        parts_bytes(ps) is Err,
    ensures
        parts_bytes(ps + rest) == parts_bytes(ps),
    decreases rest.len(),
{
    if rest.len() == 0 {
        assert(ps + rest =~= ps);
    } else {
        lemma_parts_bytes_err(ps, rest.drop_last());
        assert((ps + rest).drop_last() =~= ps + rest.drop_last());
    }
}

/// The text of a response: the text parts of all candidates, concatenated.
pub open spec fn response_text(r: GenerateContentResponse) -> Seq<char> {
    parts_text(response_parts(candidates_view(r.candidates@)))
}

/// The bytes of a response: text and inline data of all candidates,
/// concatenated, or the first part that is neither.
pub open spec fn response_bytes(r: GenerateContentResponse) -> Result<Seq<u8>, Option<DataV>> {
    parts_bytes(response_parts(candidates_view(r.candidates@)))
}

/// Appends bytes to a byte vector.
pub fn extend_bytes(out: &mut Vec<u8>, b: &[u8])
    ensures
        final(out)@ == old(out)@ + b@,
{
    let ghost start = out@;
    let mut i: usize = 0;
    while i < b.len()
        invariant
            i <= b@.len(),
            out@ == start + b@.take(i as int),
        decreases b@.len() - i,
    {
        out.push(b[i]);
        assert(b@.take(i + 1) =~= b@.take(i as int).push(b@[i as int]));
        assert(out@ =~= start + b@.take(i + 1));
        i = i + 1;
    }
    assert(b@.take(i as int) =~= b@);
}

/// A part without bytes among the parts of candidate `i` decides the bytes
/// of all the candidates.
proof fn lemma_bad_part_decides(cs: Seq<CandidateV>, i: int, ps: Seq<Option<DataV>>, j: int)
    requires
        0 <= i < cs.len(),
        response_parts(cs.take(i + 1)) == response_parts(cs.take(i)) + ps,
        0 <= j < ps.len(),
        parts_bytes(response_parts(cs.take(i)) + ps.take(j + 1)) is Err,
    ensures
        parts_bytes(response_parts(cs)) == parts_bytes(response_parts(cs.take(i)) + ps.take(j + 1)),
{
    let before = response_parts(cs.take(i));
    let prefix = before + ps.take(j + 1);
    lemma_response_parts_prefix(cs, i + 1);
    let tail = ps.skip(j + 1) + response_parts(cs.skip(i + 1));
    assert(response_parts(cs) =~= prefix + tail) by {
        assert(ps =~= ps.take(j + 1) + ps.skip(j + 1));
    }
    lemma_parts_bytes_err(prefix, tail);
}

/// The text and inline data parts of the candidates that have content, as
/// bytes; an error names the first part that is neither.
#[verifier::rlimit(50)]
#[verifier::spinoff_prover]
pub fn candidates_bytes(candidates: &[Candidate]) -> (r: Result<Vec<u8>, Error>)
    ensures
        match parts_bytes(response_parts(candidates_view(candidates@))) {
            Ok(b) => r matches Ok(v) && v@ == b,
            Err(p) => r matches Err(Error::InvalidContent(m)) && m@ == invalid_content_message(p),
        },
{
    let ghost cs = candidates_view(candidates@);
    let mut out: Vec<u8> = Vec::new();
    let mut i: usize = 0;
    while i < candidates.len()
        invariant
            i <= candidates.len(),
            cs == candidates_view(candidates@),
            parts_bytes(response_parts(cs.take(i as int))) == Ok::<Seq<u8>, Option<DataV>>(out@),
        decreases candidates.len() - i,
    {
        let ghost before = response_parts(cs.take(i as int));
        assert(cs.take(i + 1).drop_last() =~= cs.take(i as int));
        assert(cs.take(i + 1).last() == candidates@[i as int]@);
        match &candidates[i].content {
            Some(content) => {
                let ghost ps = parts_view(content.parts@);
                let mut j: usize = 0;
                while j < content.parts.len()
                    invariant
                        i < candidates.len(),
                        cs == candidates_view(candidates@),
                        before == response_parts(cs.take(i as int)),
                        response_parts(cs.take(i + 1)) == before + ps,
                        j <= content.parts.len(),
                        ps == parts_view(content.parts@),
                        parts_bytes(before + ps.take(j as int)) == Ok::<Seq<u8>, Option<DataV>>(out@),
                    decreases content.parts.len() - j,
                {
                    let ghost prefix = before + ps.take(j + 1);
                    assert(prefix.drop_last() =~= before + ps.take(j as int));
                    assert(prefix.last() == content.parts@[j as int]@);
                    match &content.parts[j].data {
                        Some(Data::Text(t)) => {
                            extend_bytes(&mut out, t.as_str().as_bytes());
                        },
                        Some(Data::InlineData(b)) => {
                            extend_bytes(&mut out, b.data.as_slice());
                        },
                        other => {
                            let msg = describe_invalid_content(other);
                            proof {
                                assert(parts_bytes(prefix) == Err::<Seq<u8>, Option<DataV>>(prefix.last()));
                                lemma_bad_part_decides(cs, i as int, ps, j as int);
                            }
                            return Err(Error::InvalidContent(msg));
                        },
                    }
                    j = j + 1;
                }
                assert(ps.take(j as int) =~= ps);
            },
            None => {
                assert(before + Seq::<Option<DataV>>::empty() =~= before);
            },
        }
        i = i + 1;
    }
    assert(cs.take(i as int) =~= cs);
    Ok(out)
}

/// The contents of the candidates that have one, in order.
pub open spec fn present_contents(cs: Seq<CandidateV>) -> Seq<ContentV>
    decreases cs.len(),
{
    if cs.len() == 0 {
        seq![]
    } else {
        present_contents(cs.drop_last()) + match cs.last().content {
            Some(c) => seq![c],
            None => Seq::<ContentV>::empty(),
        }
    }
}

/// Copies of the contents of the candidates that have one, in order.
pub fn candidate_contents(candidates: &[Candidate]) -> (r: Vec<Content>)
    ensures
        contents_view(r@) == present_contents(candidates_view(candidates@)),
{
    let ghost cs = candidates_view(candidates@);
    let mut out: Vec<Content> = Vec::new();
    let mut i: usize = 0;
    while i < candidates.len()
        invariant
            i <= candidates.len(),
            cs == candidates_view(candidates@),
            contents_view(out@) == present_contents(cs.take(i as int)),
        decreases candidates.len() - i,
    {
        let ghost prev = out@;
        assert(cs.take(i + 1).drop_last() =~= cs.take(i as int));
        assert(cs.take(i + 1).last() == candidates@[i as int]@);
        match &candidates[i].content {
            Some(c) => {
                let copy = c.clone();
                out.push(copy);
                assert(contents_view(out@) =~= contents_view(prev).push(c@));
            },
            None => {
                assert(contents_view(out@) =~= contents_view(prev) + Seq::<ContentV>::empty());
            },
        }
        i = i + 1;
    }
    assert(cs.take(i as int) =~= cs);
    out
}

/// A value that can be read from the contents of an answer's candidates;
/// users implement it for the types they read answers into.
pub trait TryFromContents: Sized {
    /// Reads the value from the contents, in order.
    fn try_from_contents(contents: &Vec<Content>) -> Result<Self, Error>;
}

/// A value that can be read from an answer's candidates.
pub trait TryFromCandidates: Sized {
    /// Reads the value from the candidates.
    fn try_from_candidates(candidates: &[Candidate]) -> Result<Self, Error>;
}

impl<T: TryFromContents> TryFromCandidates for T {
    /// Reads the value from the contents of the candidates that have one.
    fn try_from_candidates(candidates: &[Candidate]) -> (r: Result<T, Error>)
        ensures
            exists|contents: Vec<Content>|
                contents_view(contents@) == present_contents(candidates_view(candidates@))
                    && #[trigger] call_ensures(T::try_from_contents, (&contents,), r),
    {
        let contents = candidate_contents(candidates);
        let r = T::try_from_contents(&contents);
        assert(call_ensures(T::try_from_contents, (&contents,), r));
        r
    }
}

/// The view of the data of a part.
pub open spec fn data_view(d: Option<Data>) -> Option<DataV> {
    match d {
        Some(x) => Some(x@),
        None => None,
    }
}

/// The views of a sequence of part data.
pub open spec fn data_views(ds: Seq<Option<Data>>) -> Seq<Option<DataV>> {
    ds.map_values(|d: Option<Data>| data_view(d))
}

/// The data of the parts of all candidates that have content, in order,
/// copied.
pub fn candidates_part_data(candidates: &[Candidate]) -> (r: Vec<Option<Data>>)
    ensures
        data_views(r@) == response_parts(candidates_view(candidates@)),
{
    let ghost cs = candidates_view(candidates@);
    let mut out: Vec<Option<Data>> = Vec::new();
    let mut i: usize = 0;
    while i < candidates.len()
        invariant
            i <= candidates.len(),
            cs == candidates_view(candidates@),
            data_views(out@) == response_parts(cs.take(i as int)),
        decreases candidates.len() - i,
    {
        let ghost before = response_parts(cs.take(i as int));
        assert(cs.take(i + 1).drop_last() =~= cs.take(i as int));
        assert(cs.take(i + 1).last() == candidates@[i as int]@);
        match &candidates[i].content {
            Some(content) => {
                let ghost ps = parts_view(content.parts@);
                let mut j: usize = 0;
                while j < content.parts.len()
                    invariant
                        j <= content.parts.len(),
                        ps == parts_view(content.parts@),
                        data_views(out@) == before + ps.take(j as int),
                    decreases content.parts.len() - j,
                {
                    let ghost prev = out@;
                    let p = content.parts[j].clone();
                    assert(data_view(p.data) == ps[j as int]);
                    out.push(p.data);
                    assert(data_views(out@) =~= data_views(prev).push(ps[j as int]));
                    assert(ps.take(j + 1) =~= ps.take(j as int).push(ps[j as int]));
                    j = j + 1;
                }
                assert(ps.take(j as int) =~= ps);
            },
            None => {
                assert(before + Seq::<Option<DataV>>::empty() =~= before);
            },
        }
        i = i + 1;
    }
    assert(cs.take(i as int) =~= cs);
    out
}

/// The bytes of a list of byte vectors, joined.
pub open spec fn joined_bytes(outs: Seq<Vec<u8>>) -> Seq<u8>
    decreases outs.len(),
{
    if outs.len() == 0 {
        seq![]
    } else {
        joined_bytes(outs.drop_last()) + outs.last()@
    }
}

/// `m` was applied, in order, to the first `n` part data `ds` (to copies
/// `ins` of them) and gave the bytes `outs` for each.
pub open spec fn mapped_parts<F: Fn(Option<Data>) -> Result<Vec<u8>, Error>>(
    m: F,
    ds: Seq<Option<DataV>>,
    ins: Seq<Option<Data>>,
    outs: Seq<Vec<u8>>,
    n: int,
) -> bool {
    &&& 0 <= n <= ds.len()
    &&& ins.len() == n
    &&& outs.len() == n
    &&& forall|i: int| 0 <= i < n ==> data_view(#[trigger] ins[i]) == ds[i]
        && m.ensures((ins[i],), Ok::<Vec<u8>, Error>(outs[i]))
}

impl GenerateContentResponse {
    /// The bytes that `m` gives for the data of each part of each candidate
    /// that has content, in order, joined; the first error `m` gives ends
    /// the reading and is returned.
    pub fn try_into_bytes_with<F: Fn(Option<Data>) -> Result<Vec<u8>, Error>>(self, m: F) -> (r: Result<Vec<u8>, Error>)
        requires
            forall|d: Option<Data>| #[trigger] m.requires((d,)),
        ensures
            ({
                let ds = response_parts(candidates_view(self.candidates@));
                match r {
                    Ok(bytes) => exists|ins: Seq<Option<Data>>, outs: Seq<Vec<u8>>|
                        #[trigger] mapped_parts(m, ds, ins, outs, ds.len() as int) && bytes@ == joined_bytes(outs),
                    Err(e) => exists|ins: Seq<Option<Data>>, outs: Seq<Vec<u8>>, d: Option<Data>|
                        #[trigger] mapped_parts(m, ds, ins, outs, ins.len() as int) && ins.len() < ds.len()
                            && data_view(d) == ds[ins.len() as int]
                            && #[trigger] m.ensures((d,), Err::<Vec<u8>, Error>(e)),
                }
            }),
    {
        let ghost ds = response_parts(candidates_view(self.candidates@));
        let data = candidates_part_data(self.candidates.as_slice());
        let mut out: Vec<u8> = Vec::new();
        let ghost mut ins: Seq<Option<Data>> = Seq::empty();
        let ghost mut outs: Seq<Vec<u8>> = Seq::empty();
        let mut k: usize = 0;
        while k < data.len()
            invariant
                ds == response_parts(candidates_view(self.candidates@)),
                data_views(data@) == ds,
                forall|d: Option<Data>| #[trigger] m.requires((d,)),
                k <= data@.len(),
                mapped_parts(m, ds, ins, outs, k as int),
                out@ == joined_bytes(outs),
            decreases data@.len() - k,
        {
            let d = match &data[k] {
                Some(x) => Some(x.clone()),
                None => None,
            };
            assert(data_view(d) == data_views(data@)[k as int]);
            let ghost dg = d;
            match m(d) {
                Ok(b) => {
                    proof {
                        let o = outs;
                        ins = ins.push(d);
                        outs = outs.push(b);
                        assert(outs.drop_last() =~= o);
                    }
                    extend_bytes(&mut out, b.as_slice());
                },
                Err(e) => {
                    assert(mapped_parts(m, ds, ins, outs, ins.len() as int) && ins.len() < ds.len()
                        && data_view(dg) == ds[ins.len() as int] && m.ensures((dg,), Err::<Vec<u8>, Error>(e)));
                    return Err(e);
                },
            }
            k = k + 1;
        }
        Ok(out)
    }

    /// The text parts of all candidates, concatenated, without consuming
    /// the response.
    pub fn to_text(&self) -> (r: String)
        ensures
            r@ == response_text(*self),
    {
        let ghost cs = candidates_view(self.candidates@);
        let mut out = String::new();
        let mut i: usize = 0;
        while i < self.candidates.len()
            invariant
                i <= self.candidates.len(),
                cs == candidates_view(self.candidates@),
                out@ == parts_text(response_parts(cs.take(i as int))),
            decreases self.candidates.len() - i,
        {
            let ghost before = response_parts(cs.take(i as int));
            assert(cs.take(i + 1).drop_last() =~= cs.take(i as int));
            assert(cs.take(i + 1).last() == self.candidates@[i as int]@);
            match &self.candidates[i].content {
                Some(content) => {
                    let ghost ps = parts_view(content.parts@);
                    let mut j: usize = 0;
                    while j < content.parts.len()
                        invariant
                            j <= content.parts.len(),
                            ps == parts_view(content.parts@),
                            out@ == parts_text(before + ps.take(j as int)),
                        decreases content.parts.len() - j,
                    {
                        assert((before + ps.take(j + 1)).drop_last() =~= before + ps.take(j as int));
                        assert((before + ps.take(j + 1)).last() == content.parts@[j as int]@);
                        push_str(&mut out, content.parts[j].to_text());
                        j = j + 1;
                    }
                    assert(ps.take(j as int) =~= ps);
                },
                None => {
                    assert(before + Seq::<Option<DataV>>::empty() =~= before);
                    assert(before + Seq::<Option<DataV>>::empty().take(0) =~= before);
                },
            }
            i = i + 1;
        }
        assert(cs.take(i as int) =~= cs);
        out
    }

    /// The text parts of all candidates, concatenated.
    pub fn text(self) -> (r: String)
        ensures
            r@ == response_text(self),
    {
        self.to_text()
    }

    /// The text and inline data parts of all candidates, as bytes, without
    /// consuming the response; an error names the first part that is neither.
    pub fn try_to_bytes(&self) -> (r: Result<Vec<u8>, Error>)
        ensures
            match response_bytes(*self) {
                Ok(b) => r matches Ok(v) && v@ == b,
                Err(p) => r matches Err(Error::InvalidContent(m)) && m@ == invalid_content_message(p),
            },
    {
        candidates_bytes(self.candidates.as_slice())
    }

    /// The text and inline data parts of all candidates, as bytes; an error
    /// names the first part that is neither.
    pub fn try_into_bytes(self) -> (r: Result<Vec<u8>, Error>)
        ensures
            match response_bytes(self) {
                Ok(b) => r matches Ok(v) && v@ == b,
                Err(p) => r matches Err(Error::InvalidContent(m)) && m@ == invalid_content_message(p),
            },
    {
        self.try_to_bytes()
    }

    /// The text and inline data parts of all candidates, as bytes, without
    /// consuming the response; empty when some part is neither.
    pub fn to_bytes(&self) -> (r: Vec<u8>)
        ensures
            match response_bytes(*self) {
                Ok(b) => r@ == b,
                Err(_) => r@.len() == 0,
            },
    {
        match self.try_to_bytes() {
            Ok(v) => v,
            Err(_) => Vec::new(),
        }
    }

    /// The text and inline data parts of all candidates, as bytes; empty
    /// when some part is neither.
    pub fn into_bytes(self) -> (r: Vec<u8>)
        ensures
            match response_bytes(self) {
                Ok(b) => r@ == b,
                Err(_) => r@.len() == 0,
            },
    {
        self.to_bytes()
    }
}

/// The parts of a list of candidates split after the `k`-th candidate.
pub proof fn lemma_response_parts_prefix(cs: Seq<CandidateV>, k: int)
    requires
        0 <= k <= cs.len(),
    ensures
        response_parts(cs) == response_parts(cs.take(k)) + response_parts(cs.skip(k)),
    decreases cs.len() - k,
{
    if k == cs.len() {
        assert(cs.take(k) =~= cs);
        assert(cs.skip(k) =~= Seq::<CandidateV>::empty());
        assert(response_parts(cs) + Seq::<Option<DataV>>::empty() =~= response_parts(cs));
    } else {
        lemma_response_parts_prefix(cs, k + 1);
        let a = cs.take(k);
        let b = cs.skip(k);
        assert(cs.take(k + 1).drop_last() =~= a);
        assert(cs.take(k + 1).last() == cs[k]);
        lemma_response_parts_prepend(cs[k], cs.skip(k + 1));
        assert(seq![cs[k]] + cs.skip(k + 1) =~= b);
    }
}

/// Putting a candidate in front of a list puts its parts in front.
pub proof fn lemma_response_parts_prepend(c: CandidateV, cs: Seq<CandidateV>)
    ensures
        response_parts(seq![c] + cs) == content_parts(c.content) + response_parts(cs),
    decreases cs.len(),
{
    if cs.len() == 0 {
        assert(seq![c] + cs =~= seq![c]);
        assert(seq![c].drop_last() =~= Seq::<CandidateV>::empty());
        assert(seq![c].last() == c);
        assert(response_parts(Seq::<CandidateV>::empty()) == Seq::<Option<DataV>>::empty());
        assert(response_parts(seq![c]) == response_parts(seq![c].drop_last()) + content_parts(c.content));
        assert(Seq::<Option<DataV>>::empty() + content_parts(c.content) =~= content_parts(c.content));
        assert(content_parts(c.content) + Seq::<Option<DataV>>::empty() =~= content_parts(c.content));
    } else {
        lemma_response_parts_prepend(c, cs.drop_last());
        assert((seq![c] + cs).drop_last() =~= seq![c] + cs.drop_last());
        assert((seq![c] + cs).last() == cs.last());
        assert(content_parts(c.content) + response_parts(cs.drop_last()) + content_parts(cs.last().content)
            =~= content_parts(c.content) + (response_parts(cs.drop_last()) + content_parts(cs.last().content)));
    }
}

} // verus!
