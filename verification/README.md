# google_ai_rs

A client library for Google's Generative AI APIs whose core is verified with
Verus: every public function in `src/` carries a contract that Verus
proves.

## Layout

- `src/` — the verified library.
  - `content.rs`: parts, contents, candidates and answers; text and bytes of
    an answer; conversions of user input into contents.
  - `chat.rs`: merging of streamed answers, chat sessions and their history.
  - `genai.rs`: model configuration and the requests built from it.
  - `embedding.rs`: embedding requests and batches.
  - `client.rs`: cache and model service requests, paging of list results.
  - `auth.rs`, `keys.rs`: API keys and service-account tokens (RS256 JWTs)
    with caching until expiry.
  - `schema.rs`: schemas of Rust types (`AsSchema`), maps and tuples.
  - `case.rs`, `attr.rs`: naming conventions and attribute values of
    schema derivation.
  - `meta.rs`: reading the schema attributes of a type and of its items
    (and serde's `rename`, `skip`, `rename_all` and `crate`), held as
    owners, names and values.
  - `derive.rs`: the schema that deriving `AsSchema` gives a type, from its
    shape and its attributes as read.
  - `rpc.rs`: the methods of the services, the paths they are called at,
    and which method a request's path names.
  - `render.rs`: the pretty debug text of a part's data, for error
    messages.
  - `error.rs`, `proto.rs`, `proto/`: errors and protocol types.
  - `text.rs`: string helpers.
- `tests/` — tests of the library.
- `app/` — the command-line program and the parts that do I/O: reading
  service-account files, the clock, request headers, the chat and stream
  loops around a service, the cache and model calls with their paging, and
  serde readers.

Sending requests is left to the caller: the library builds requests and
reads answers, and decides what to do between them.
