//! The methods of the generative-language services: the path each is
//! called at, and the method that a request's path names on a server.
use vstd::prelude::*;
use crate::text::{push_str, str_eq};

verus! {

/// A service of the API.
#[derive(Clone, Copy, Debug, PartialEq, Eq, Structural)]
pub enum Service {
    Cache,
    File,
    Generative,
    Model,
}

/// A method of a service.
#[derive(Clone, Copy, Debug, PartialEq, Eq, Structural)]
pub enum Rpc {
    ListCachedContents,
    CreateCachedContent,
    GetCachedContent,
    UpdateCachedContent,
    DeleteCachedContent,
    CreateFile,
    ListFiles,
    GetFile,
    DeleteFile,
    GenerateContent,
    GenerateAnswer,
    StreamGenerateContent,
    EmbedContent,
    BatchEmbedContents,
    CountTokens,
    GetModel,
    ListModels,
    GetTunedModel,
    ListTunedModels,
    CreateTunedModel,
    UpdateTunedModel,
    DeleteTunedModel,
}

/// The full name of a service.
pub open spec fn service_name(s: Service) -> Seq<char> {
    match s {
        Service::Cache => "google.ai.generativelanguage.v1beta.CacheService"@,
        Service::File => "google.ai.generativelanguage.v1beta.FileService"@,
        Service::Generative => "google.ai.generativelanguage.v1beta.GenerativeService"@,
        Service::Model => "google.ai.generativelanguage.v1beta.ModelService"@,
    }
}

/// The service a method belongs to.
pub open spec fn service_of(m: Rpc) -> Service {
    match m {
        Rpc::ListCachedContents | Rpc::CreateCachedContent | Rpc::GetCachedContent | Rpc::UpdateCachedContent
        | Rpc::DeleteCachedContent => Service::Cache,
        Rpc::CreateFile | Rpc::ListFiles | Rpc::GetFile | Rpc::DeleteFile => Service::File,
        Rpc::GenerateContent | Rpc::GenerateAnswer | Rpc::StreamGenerateContent | Rpc::EmbedContent
        | Rpc::BatchEmbedContents | Rpc::CountTokens => Service::Generative,
        _ => Service::Model,
    }
}

/// The name of a method within its service.
pub open spec fn method_name(m: Rpc) -> Seq<char> {
    match m {
        Rpc::ListCachedContents => "ListCachedContents"@,
        Rpc::CreateCachedContent => "CreateCachedContent"@,
        Rpc::GetCachedContent => "GetCachedContent"@,
        Rpc::UpdateCachedContent => "UpdateCachedContent"@,
        Rpc::DeleteCachedContent => "DeleteCachedContent"@,
        Rpc::CreateFile => "CreateFile"@,
        Rpc::ListFiles => "ListFiles"@,
        Rpc::GetFile => "GetFile"@,
        Rpc::DeleteFile => "DeleteFile"@,
        Rpc::GenerateContent => "GenerateContent"@,
        Rpc::GenerateAnswer => "GenerateAnswer"@,
        Rpc::StreamGenerateContent => "StreamGenerateContent"@,
        Rpc::EmbedContent => "EmbedContent"@,
        Rpc::BatchEmbedContents => "BatchEmbedContents"@,
        Rpc::CountTokens => "CountTokens"@,
        Rpc::GetModel => "GetModel"@,
        Rpc::ListModels => "ListModels"@,
        Rpc::GetTunedModel => "GetTunedModel"@,
        Rpc::ListTunedModels => "ListTunedModels"@,
        Rpc::CreateTunedModel => "CreateTunedModel"@,
        Rpc::UpdateTunedModel => "UpdateTunedModel"@,
        Rpc::DeleteTunedModel => "DeleteTunedModel"@,
    }
}

/// The path a method is called at: `/{service}/{method}`.
pub open spec fn rpc_path(m: Rpc) -> Seq<char> {
    match m {
        Rpc::ListCachedContents => "/google.ai.generativelanguage.v1beta.CacheService/ListCachedContents"@,
        Rpc::CreateCachedContent => "/google.ai.generativelanguage.v1beta.CacheService/CreateCachedContent"@,
        Rpc::GetCachedContent => "/google.ai.generativelanguage.v1beta.CacheService/GetCachedContent"@,
        Rpc::UpdateCachedContent => "/google.ai.generativelanguage.v1beta.CacheService/UpdateCachedContent"@,
        Rpc::DeleteCachedContent => "/google.ai.generativelanguage.v1beta.CacheService/DeleteCachedContent"@,
        Rpc::CreateFile => "/google.ai.generativelanguage.v1beta.FileService/CreateFile"@,
        Rpc::ListFiles => "/google.ai.generativelanguage.v1beta.FileService/ListFiles"@,
        Rpc::GetFile => "/google.ai.generativelanguage.v1beta.FileService/GetFile"@,
        Rpc::DeleteFile => "/google.ai.generativelanguage.v1beta.FileService/DeleteFile"@,
        Rpc::GenerateContent => "/google.ai.generativelanguage.v1beta.GenerativeService/GenerateContent"@,
        Rpc::GenerateAnswer => "/google.ai.generativelanguage.v1beta.GenerativeService/GenerateAnswer"@,
        Rpc::StreamGenerateContent => "/google.ai.generativelanguage.v1beta.GenerativeService/StreamGenerateContent"@,
        Rpc::EmbedContent => "/google.ai.generativelanguage.v1beta.GenerativeService/EmbedContent"@,
        Rpc::BatchEmbedContents => "/google.ai.generativelanguage.v1beta.GenerativeService/BatchEmbedContents"@,
        Rpc::CountTokens => "/google.ai.generativelanguage.v1beta.GenerativeService/CountTokens"@,
        Rpc::GetModel => "/google.ai.generativelanguage.v1beta.ModelService/GetModel"@,
        Rpc::ListModels => "/google.ai.generativelanguage.v1beta.ModelService/ListModels"@,
        Rpc::GetTunedModel => "/google.ai.generativelanguage.v1beta.ModelService/GetTunedModel"@,
        Rpc::ListTunedModels => "/google.ai.generativelanguage.v1beta.ModelService/ListTunedModels"@,
        Rpc::CreateTunedModel => "/google.ai.generativelanguage.v1beta.ModelService/CreateTunedModel"@,
        Rpc::UpdateTunedModel => "/google.ai.generativelanguage.v1beta.ModelService/UpdateTunedModel"@,
        Rpc::DeleteTunedModel => "/google.ai.generativelanguage.v1beta.ModelService/DeleteTunedModel"@,
    }
}

/// The methods of a service, in declaration order.
pub open spec fn service_rpcs(s: Service) -> Seq<Rpc> {
    match s {
        Service::Cache => seq![
            Rpc::ListCachedContents, Rpc::CreateCachedContent, Rpc::GetCachedContent, Rpc::UpdateCachedContent,
            Rpc::DeleteCachedContent,
        ],
        Service::File => seq![Rpc::CreateFile, Rpc::ListFiles, Rpc::GetFile, Rpc::DeleteFile],
        Service::Generative => seq![
            Rpc::GenerateContent, Rpc::GenerateAnswer, Rpc::StreamGenerateContent, Rpc::EmbedContent,
            Rpc::BatchEmbedContents, Rpc::CountTokens,
        ],
        Service::Model => seq![
            Rpc::GetModel, Rpc::ListModels, Rpc::GetTunedModel, Rpc::ListTunedModels, Rpc::CreateTunedModel,
            Rpc::UpdateTunedModel, Rpc::DeleteTunedModel,
        ],
    }
}

/// No two methods share a path, so a path names at most one method.
pub proof fn paths_name_one_method(a: Rpc, b: Rpc)
    ensures
        rpc_path(a) == rpc_path(b) ==> a == b,
{
    if rpc_path(a) == rpc_path(b) && a != b {
        reveal_strlit("/google.ai.generativelanguage.v1beta.CacheService/ListCachedContents");
        reveal_strlit("/google.ai.generativelanguage.v1beta.CacheService/CreateCachedContent");
        reveal_strlit("/google.ai.generativelanguage.v1beta.CacheService/GetCachedContent");
        reveal_strlit("/google.ai.generativelanguage.v1beta.CacheService/UpdateCachedContent");
        reveal_strlit("/google.ai.generativelanguage.v1beta.CacheService/DeleteCachedContent");
        reveal_strlit("/google.ai.generativelanguage.v1beta.FileService/CreateFile");
        reveal_strlit("/google.ai.generativelanguage.v1beta.FileService/ListFiles");
        reveal_strlit("/google.ai.generativelanguage.v1beta.FileService/GetFile");
        reveal_strlit("/google.ai.generativelanguage.v1beta.FileService/DeleteFile");
        reveal_strlit("/google.ai.generativelanguage.v1beta.GenerativeService/GenerateContent");
        reveal_strlit("/google.ai.generativelanguage.v1beta.GenerativeService/GenerateAnswer");
        reveal_strlit("/google.ai.generativelanguage.v1beta.GenerativeService/StreamGenerateContent");
        reveal_strlit("/google.ai.generativelanguage.v1beta.GenerativeService/EmbedContent");
        reveal_strlit("/google.ai.generativelanguage.v1beta.GenerativeService/BatchEmbedContents");
        reveal_strlit("/google.ai.generativelanguage.v1beta.GenerativeService/CountTokens");
        reveal_strlit("/google.ai.generativelanguage.v1beta.ModelService/GetModel");
        reveal_strlit("/google.ai.generativelanguage.v1beta.ModelService/ListModels");
        reveal_strlit("/google.ai.generativelanguage.v1beta.ModelService/GetTunedModel");
        reveal_strlit("/google.ai.generativelanguage.v1beta.ModelService/ListTunedModels");
        reveal_strlit("/google.ai.generativelanguage.v1beta.ModelService/CreateTunedModel");
        reveal_strlit("/google.ai.generativelanguage.v1beta.ModelService/UpdateTunedModel");
        reveal_strlit("/google.ai.generativelanguage.v1beta.ModelService/DeleteTunedModel");
        let (p, q) = (rpc_path(a), rpc_path(b));
        assert(p.len() != q.len() || p[37] != q[37] || p[49] != q[49] || p[50] != q[50] || p[55] != q[55]);
    }
}

impl Service {
    /// The full name of this service.
    pub fn name(&self) -> (r: &'static str)
        ensures
            r@ == service_name(*self),
    {
        match self {
            Service::Cache => "google.ai.generativelanguage.v1beta.CacheService",
            Service::File => "google.ai.generativelanguage.v1beta.FileService",
            Service::Generative => "google.ai.generativelanguage.v1beta.GenerativeService",
            Service::Model => "google.ai.generativelanguage.v1beta.ModelService",
        }
    }

    /// The methods of this service, in declaration order.
    pub fn rpcs(&self) -> (r: Vec<Rpc>)
        ensures
            r@ == service_rpcs(*self),
    {
        let r = match self {
            Service::Cache => vec![
                Rpc::ListCachedContents, Rpc::CreateCachedContent, Rpc::GetCachedContent, Rpc::UpdateCachedContent,
                Rpc::DeleteCachedContent,
            ],
            Service::File => vec![Rpc::CreateFile, Rpc::ListFiles, Rpc::GetFile, Rpc::DeleteFile],
            Service::Generative => vec![
                Rpc::GenerateContent, Rpc::GenerateAnswer, Rpc::StreamGenerateContent, Rpc::EmbedContent,
                Rpc::BatchEmbedContents, Rpc::CountTokens,
            ],
            Service::Model => vec![
                Rpc::GetModel, Rpc::ListModels, Rpc::GetTunedModel, Rpc::ListTunedModels, Rpc::CreateTunedModel,
                Rpc::UpdateTunedModel, Rpc::DeleteTunedModel,
            ],
        };
        assert(r@ =~= service_rpcs(*self));
        r
    }
}

impl Rpc {
    /// The service this method belongs to.
    pub fn service(&self) -> (r: Service)
        ensures
            r == service_of(*self),
    {
        match self {
            Rpc::ListCachedContents | Rpc::CreateCachedContent | Rpc::GetCachedContent | Rpc::UpdateCachedContent
            | Rpc::DeleteCachedContent => Service::Cache,
            Rpc::CreateFile | Rpc::ListFiles | Rpc::GetFile | Rpc::DeleteFile => Service::File,
            Rpc::GenerateContent | Rpc::GenerateAnswer | Rpc::StreamGenerateContent | Rpc::EmbedContent
            | Rpc::BatchEmbedContents | Rpc::CountTokens => Service::Generative,
            _ => Service::Model,
        }
    }

    /// The name of this method within its service.
    pub fn name(&self) -> (r: &'static str)
        ensures
            r@ == method_name(*self),
    {
        match self {
            Rpc::ListCachedContents => "ListCachedContents",
            Rpc::CreateCachedContent => "CreateCachedContent",
            Rpc::GetCachedContent => "GetCachedContent",
            Rpc::UpdateCachedContent => "UpdateCachedContent",
            Rpc::DeleteCachedContent => "DeleteCachedContent",
            Rpc::CreateFile => "CreateFile",
            Rpc::ListFiles => "ListFiles",
            Rpc::GetFile => "GetFile",
            Rpc::DeleteFile => "DeleteFile",
            Rpc::GenerateContent => "GenerateContent",
            Rpc::GenerateAnswer => "GenerateAnswer",
            Rpc::StreamGenerateContent => "StreamGenerateContent",
            Rpc::EmbedContent => "EmbedContent",
            Rpc::BatchEmbedContents => "BatchEmbedContents",
            Rpc::CountTokens => "CountTokens",
            Rpc::GetModel => "GetModel",
            Rpc::ListModels => "ListModels",
            Rpc::GetTunedModel => "GetTunedModel",
            Rpc::ListTunedModels => "ListTunedModels",
            Rpc::CreateTunedModel => "CreateTunedModel",
            Rpc::UpdateTunedModel => "UpdateTunedModel",
            Rpc::DeleteTunedModel => "DeleteTunedModel",
        }
    }

    /// The path this method is called at.
    pub fn path(&self) -> (r: &'static str)
        ensures
            r@ == rpc_path(*self),
    {
        match self {
            Rpc::ListCachedContents => "/google.ai.generativelanguage.v1beta.CacheService/ListCachedContents",
            Rpc::CreateCachedContent => "/google.ai.generativelanguage.v1beta.CacheService/CreateCachedContent",
            Rpc::GetCachedContent => "/google.ai.generativelanguage.v1beta.CacheService/GetCachedContent",
            Rpc::UpdateCachedContent => "/google.ai.generativelanguage.v1beta.CacheService/UpdateCachedContent",
            Rpc::DeleteCachedContent => "/google.ai.generativelanguage.v1beta.CacheService/DeleteCachedContent",
            Rpc::CreateFile => "/google.ai.generativelanguage.v1beta.FileService/CreateFile",
            Rpc::ListFiles => "/google.ai.generativelanguage.v1beta.FileService/ListFiles",
            Rpc::GetFile => "/google.ai.generativelanguage.v1beta.FileService/GetFile",
            Rpc::DeleteFile => "/google.ai.generativelanguage.v1beta.FileService/DeleteFile",
            Rpc::GenerateContent => "/google.ai.generativelanguage.v1beta.GenerativeService/GenerateContent",
            Rpc::GenerateAnswer => "/google.ai.generativelanguage.v1beta.GenerativeService/GenerateAnswer",
            Rpc::StreamGenerateContent => "/google.ai.generativelanguage.v1beta.GenerativeService/StreamGenerateContent",
            Rpc::EmbedContent => "/google.ai.generativelanguage.v1beta.GenerativeService/EmbedContent",
            Rpc::BatchEmbedContents => "/google.ai.generativelanguage.v1beta.GenerativeService/BatchEmbedContents",
            Rpc::CountTokens => "/google.ai.generativelanguage.v1beta.GenerativeService/CountTokens",
            Rpc::GetModel => "/google.ai.generativelanguage.v1beta.ModelService/GetModel",
            Rpc::ListModels => "/google.ai.generativelanguage.v1beta.ModelService/ListModels",
            Rpc::GetTunedModel => "/google.ai.generativelanguage.v1beta.ModelService/GetTunedModel",
            Rpc::ListTunedModels => "/google.ai.generativelanguage.v1beta.ModelService/ListTunedModels",
            Rpc::CreateTunedModel => "/google.ai.generativelanguage.v1beta.ModelService/CreateTunedModel",
            Rpc::UpdateTunedModel => "/google.ai.generativelanguage.v1beta.ModelService/UpdateTunedModel",
            Rpc::DeleteTunedModel => "/google.ai.generativelanguage.v1beta.ModelService/DeleteTunedModel",
        }
    }

    /// Whether the server answers this method with a stream of messages
    /// (only `StreamGenerateContent` does); the others answer once.
    pub fn is_server_streaming(&self) -> (r: bool)
        ensures
            r == (*self == Rpc::StreamGenerateContent),
    {
        match self {
            Rpc::StreamGenerateContent => true,
            _ => false,
        }
    }
}

/// The method of `service` that a request for `path` is for, if any: the
/// one called at that path.
pub fn route(service: Service, path: &str) -> (r: Option<Rpc>)
    ensures
        forall|m: Rpc| #[trigger] rpc_path(m) == path@ && service_of(m) == service <==> r == Some(m),
{
    let rpcs = service.rpcs();
    let mut i: usize = 0;
    while i < rpcs.len()
        invariant
            rpcs@ == service_rpcs(service),
            i <= rpcs@.len(),
            forall|k: int| 0 <= k < i ==> rpc_path(#[trigger] rpcs@[k]) != path@,
        decreases rpcs@.len() - i,
    {
        let m = rpcs[i];
        if str_eq(m.path(), path) {
            proof {
                assert(service_of(m) == service);
                assert forall|x: Rpc| #[trigger] rpc_path(x) == path@ && service_of(x) == service implies x == m by {
                    paths_name_one_method(x, m);
                }
            }
            return Some(m);
        }
        i = i + 1;
    }
    proof {
        assert forall|x: Rpc| service_of(x) == service implies rpc_path(x) != path@ by {
            let k = choose|k: int| 0 <= k < rpcs@.len() && rpcs@[k] == x;
            assert(rpcs@[k] == x);
        }
    }
    None
}

/// The headers of a server's answer to a path none of its methods is
/// called at: status `12` (unimplemented), as a gRPC answer.
pub fn unimplemented_headers() -> (r: Vec<(String, String)>)
    ensures
        r@.len() == 2,
        r@[0].0@ == "grpc-status"@ && r@[0].1@ == "12"@,
        r@[1].0@ == "content-type"@ && r@[1].1@ == "application/grpc"@,
{
    let mut r: Vec<(String, String)> = Vec::new();
    r.push(("grpc-status".to_owned(), "12".to_owned()));
    r.push(("content-type".to_owned(), "application/grpc".to_owned()));
    r
}

/// The message of the error a client gives when its transport is not
/// ready to send.
pub fn not_ready_message(err: &str) -> (r: String)
    ensures
        r@ == "Service was not ready: "@ + err@,
{
    let mut r = "Service was not ready: ".to_owned();
    push_str(&mut r, err);
    r
}

} // verus!
