//! Verified core of a client library for Google's Generative AI APIs.
//!
//! The library holds the data model of requests and responses, the rules
//! that build requests from a model's configuration, the merging of streamed
//! answers and chat history, schema generation with the reading of schema
//! attributes, naming conventions, the paths of the services' methods, and
//! the token logic of service-account authentication. Sending and receiving
//! is left to the caller.
pub mod attr;
pub mod auth;
pub mod case;
pub mod chat;
pub mod client;
pub mod content;
pub mod derive;
pub mod embedding;
pub mod error;
pub mod genai;
pub mod keys;
pub mod meta;
pub mod proto;
pub mod render;
pub mod rpc;
pub mod schema;
pub mod text;

use vstd::prelude::*;
use crate::text::{contains_char, push_str};

verus! {

/// The full resource name of a model: names that already hold a `/` (such
/// as `tunedModels/x`) are kept, any other name is put under `models/`.
pub open spec fn full_model_name_spec(name: Seq<char>) -> Seq<char> {
    if name.contains('/') {
        name
    } else {
        "models/"@ + name
    }
}

/// Formats model names to full resource path format.
///
/// Ensures model names follow `models/{model}` format.
pub fn full_model_name(name: &str) -> (r: String)
    ensures
        r@ == full_model_name_spec(name@),
{
    if contains_char(name, '/') {
        name.to_owned()
    } else {
        let mut r = "models/".to_owned();
        push_str(&mut r, name);
        r
    }
}


/// A full model name is its own full name: normalizing twice is normalizing
/// once, so a name and its full name denote the same model.
pub proof fn full_model_name_idempotent(name: Seq<char>)
    ensures
        full_model_name_spec(full_model_name_spec(name)) == full_model_name_spec(name),
{
    if !name.contains('/') {
        reveal_strlit("models/");
        let full = "models/"@ + name;
        assert(full[6] == '/');
        assert(full.contains('/'));
    }
}

} // verus!
