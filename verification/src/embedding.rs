//! Embedding requests: single contents and batches, with the task type that
//! a title implies.
use vstd::prelude::*;
use crate::content::{opt_content, opt_str, Content, ContentV, IntoContent, TryIntoContent};
use crate::error::{Error, ServiceError};
use crate::proto::TaskType;
use crate::text::{decimal, push_decimal, push_str};
use crate::{full_model_name, full_model_name_spec};

verus! {

/// Request containing the `Content` for the model to embed.
#[derive(Debug)]
pub struct EmbedContentRequest {
    /// The model's resource name.
    pub model: String,
    /// The content to embed.
    pub content: Option<Content>,
    /// The task type for which the embeddings will be used, as its number.
    pub task_type: Option<i32>,
    /// An optional title for the text (retrieval documents only).
    pub title: Option<String>,
    /// Optional reduced dimension for the output embedding.
    pub output_dimensionality: Option<i32>,
}

/// Batch request to get embeddings from the model for a list of prompts.
#[derive(Debug)]
pub struct BatchEmbedContentsRequest {
    /// The model's resource name.
    pub model: String,
    /// Embed requests for the batch.
    pub requests: Vec<EmbedContentRequest>,
}

/// What an embedding request holds, as values.
pub struct EmbedRequestV {
    pub model: Seq<char>,
    pub content: Option<ContentV>,
    pub task_type: Option<i32>,
    pub title: Option<Seq<char>>,
    pub output_dimensionality: Option<i32>,
}

impl View for EmbedContentRequest {
    type V = EmbedRequestV;

    open spec fn view(&self) -> EmbedRequestV {
        EmbedRequestV {
            model: self.model@,
            content: opt_content(self.content),
            task_type: self.task_type,
            title: opt_str(self.title),
            output_dimensionality: self.output_dimensionality,
        }
    }
}

/// The views of a list of embedding requests.
pub open spec fn embed_requests_view(rs: Seq<EmbedContentRequest>) -> Seq<EmbedRequestV> {
    rs.map_values(|r: EmbedContentRequest| r@)
}

/// The request that embeds `content` with model `name`: a non-empty title is
/// sent and makes the task a retrieval document, overriding the model's task
/// type; an empty title is not sent.
pub open spec fn embed_request_spec(name: Seq<char>, task: Option<TaskType>, title: Seq<char>, content: ContentV) -> EmbedRequestV {
    EmbedRequestV {
        model: name,
        content: Some(content),
        task_type: if title.len() > 0 {
            Some(TaskType::RetrievalDocument.number())
        } else {
            match task {
                Some(t) => Some(t.number()),
                None => None,
            }
        },
        title: if title.len() > 0 { Some(title) } else { None },
        output_dimensionality: None,
    }
}

/// A client-side handle of an embedding model; the client that sends the
/// requests is held by the caller.
#[derive(Debug)]
pub struct Model {
    /// Fully qualified model name (e.g., "models/embedding-001").
    name: String,
    /// Optional task type specification for embedding generation.
    pub task_type: Option<TaskType>,
}

impl Model {
    /// The task type the embeddings are optimized for, if any.
    pub closed spec fn task_view(&self) -> Option<TaskType> {
        self.task_type
    }

    /// The model's full resource name.
    pub closed spec fn name_view(&self) -> Seq<char> {
        self.name@
    }

    /// Creates a new model handle; the name is made a full resource name.
    pub fn new(name: &str) -> (r: Model)
        ensures
            r.name_view() == full_model_name_spec(name@),
            r.task_view() is None,
    {
        Model { name: full_model_name(name), task_type: None }
    }

    /// The model's full resource name.
    pub fn name(&self) -> (r: &str)
        ensures
            r@ == self.name_view(),
    {
        self.name.as_str()
    }

    /// Sets the task type the embeddings are optimized for.
    pub fn task_type(self, task_type: TaskType) -> (r: Model)
        ensures
            r.name_view() == self.name_view(),
            r.task_view() == Some(task_type),
    {
        let mut m = self;
        m.task_type = Some(task_type);
        m
    }

    /// The request that embeds one content, with an optional title (empty
    /// for none).
    pub fn build_request(&self, title: &str, content: Content) -> (r: EmbedContentRequest)
        ensures
            r@ == embed_request_spec(self.name_view(), self.task_view(), title@, content@),
    {
        let has_title = !title.is_empty();
        let task_type = if has_title {
            Some(TaskType::RetrievalDocument.value())
        } else {
            match self.task_type {
                Some(t) => Some(t.value()),
                None => None,
            }
        };
        let title = if has_title { Some(title.to_owned()) } else { None };
        EmbedContentRequest {
            model: self.name.clone(),
            content: Some(content),
            task_type,
            title,
            output_dimensionality: None,
        }
    }

    /// The request that embeds content with an optional title context (empty
    /// for none), if the content converts.
    pub fn embed_content_request<T: TryIntoContent>(&self, title: &str, content: T) -> (r: Result<EmbedContentRequest, Error>)
        ensures
            match content.try_content_spec() {
                Some(c) => r matches Ok(q) && q@ == embed_request_spec(self.name_view(), self.task_view(), title@, c),
                None => r is Err,
            },
    {
        match content.try_into_content() {
            Ok(c) => Ok(self.build_request(title, c)),
            Err(e) => Err(e),
        }
    }

    /// Creates a new batch embedding context.
    pub fn new_batch(&self) -> (r: Batch<'_>)
        ensures
            r.model_view() == self.name_view(),
            r.task_view() == self.task_view(),
            r.requests_view().len() == 0,
    {
        Batch {
            m: self,
            req: BatchEmbedContentsRequest { model: self.name.clone(), requests: Vec::new() },
        }
    }

    /// A batch that embeds each of the contents as a separate item, if all of
    /// them convert; the first that does not ends it with its error.
    pub fn embed_batch<T: TryIntoContent>(&self, contents: Vec<T>) -> (r: Result<Batch<'_>, Error>)
        ensures
            (forall|i: int| 0 <= i < contents@.len() ==> (#[trigger] contents@[i]).try_content_spec() is Some)
                ==> (r matches Ok(b) && {
                    &&& b.model_view() == self.name_view()
                    &&& b.task_view() == self.task_view()
                    &&& b.requests_view().len() == contents@.len()
                    &&& forall|i: int| 0 <= i < contents@.len() ==> #[trigger] b.requests_view()[i]
                        == embed_request_spec(self.name_view(), self.task_view(), ""@, contents@[i].try_content_spec()->0)
                }),
            (exists|i: int| 0 <= i < contents@.len() && (#[trigger] contents@[i]).try_content_spec() is None)
                ==> r is Err,
    {
        let mut batch = self.new_batch();
        let ghost items = contents@;
        for content in it: contents
            invariant
                it.seq() == items,
                batch.model_view() == self.name_view(),
                batch.task_view() == self.task_view(),
                batch.requests_view().len() == it.index(),
                forall|i: int| 0 <= i < it.index() ==> (#[trigger] items[i]).try_content_spec() is Some,
                forall|i: int| 0 <= i < it.index() ==> #[trigger] batch.requests_view()[i]
                    == embed_request_spec(self.name_view(), self.task_view(), ""@, items[i].try_content_spec()->0),
        {
            let ghost k = it.index();
            assert(items[k as int] == content);
            match content.try_into_content() {
                Ok(c) => {
                    batch = batch.add_content(c);
                },
                Err(e) => {
                    return Err(e);
                },
            }
        }
        Ok(batch)
    }
}

/// Builder for batch embedding requests.
#[derive(Debug)]
pub struct Batch<'m> {
    m: &'m Model,
    req: BatchEmbedContentsRequest,
}

impl<'m> Batch<'m> {
    /// The model name the batch is sent to.
    pub closed spec fn model_view(&self) -> Seq<char> {
        self.req.model@
    }

    /// The task type of the batch's model.
    pub closed spec fn task_view(&self) -> Option<TaskType> {
        self.m.task_view()
    }

    /// A batch is sent to the model its requests are built for.
    #[verifier::type_invariant]
    closed spec fn inv(&self) -> bool {
        self.req.model@ == self.m.name_view()
    }

    /// The requests of the batch, in order.
    pub closed spec fn requests_view(&self) -> Seq<EmbedRequestV> {
        embed_requests_view(self.req.requests@)
    }

    /// Adds content to the batch.
    pub fn add_content<T: IntoContent>(self, content: T) -> (r: Batch<'m>)
        ensures
            r.model_view() == self.model_view(),
            r.task_view() == self.task_view(),
            r.requests_view() == self.requests_view().push(
                embed_request_spec(self.model_view(), self.task_view(), ""@, content.content_spec()),
            ),
    {
        self.add_content_with_title("", content)
    }

    /// Adds content with title to the batch.
    pub fn add_content_with_title<T: IntoContent>(self, title: &str, content: T) -> (r: Batch<'m>)
        ensures
            r.model_view() == self.model_view(),
            r.task_view() == self.task_view(),
            r.requests_view() == self.requests_view().push(
                embed_request_spec(self.model_view(), self.task_view(), title@, content.content_spec()),
            ),
    {
        proof {
            use_type_invariant(&self);
        }
        let Batch { m, req } = self;
        let BatchEmbedContentsRequest { model, requests } = req;
        let request = m.build_request(title, content.into_content());
        let ghost before = embed_requests_view(requests@);
        let mut requests = requests;
        requests.push(request);
        assert(embed_requests_view(requests@) =~= before.push(request@));
        Batch { m, req: BatchEmbedContentsRequest { model, requests } }
    }

    /// The number of requests in the batch, which is the number of
    /// embeddings the answer must hold.
    pub fn len(&self) -> (r: usize)
        ensures
            r == self.requests_view().len(),
    {
        self.req.requests.len()
    }

    /// The batch request to send.
    pub fn into_request(self) -> (r: BatchEmbedContentsRequest)
        ensures
            r.model@ == self.model_view(),
            embed_requests_view(r.requests@) == self.requests_view(),
    {
        self.req
    }
}

/// The message that reports an answer with the wrong number of embeddings.
pub open spec fn count_mismatch_message(expected: nat, got: nat) -> Seq<char> {
    "Expected "@ + decimal(expected) + " embeddings, got "@ + decimal(got)
}

/// Checks that a batch answer holds one embedding per request.
///
/// # Errors
/// Returns [`Error::Service`] with an invalid-response message when the
/// counts differ.
pub fn check_embedding_count(expected: usize, got: usize) -> (r: Result<(), Error>)
    ensures
        expected == got <==> r is Ok,
        r matches Err(e) ==> (e matches Error::Service(ServiceError::InvalidResponse(m))
            && m@ == count_mismatch_message(expected as nat, got as nat)),
{
    if expected == got {
        return Ok(());
    }
    let mut m = "Expected ".to_owned();
    push_decimal(&mut m, expected as u64);
    push_str(&mut m, " embeddings, got ");
    push_decimal(&mut m, got as u64);
    Err(Error::Service(ServiceError::InvalidResponse(m)))
}

} // verus!
