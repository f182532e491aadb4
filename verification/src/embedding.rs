//! The embedding client's decision logic: request construction, reading the
//! service's response, and the failure-tolerant degrade path used by the
//! ingestion and retrieval pipelines.
//!
//! The numeric components of an embedding never take part in any computation
//! here; they are only transported. Each component is therefore carried as
//! the 64-bit pattern of the number it stands for, and whatever performs the
//! network exchange converts between patterns and numbers at the boundary.

use vstd::prelude::*;
use crate::decimal::dec_digits;
use crate::decimal::u16_to_string;

verus! {

/// The body of one embedding request: the text to embed and the model that
/// embeds it.
pub struct EmbeddingRequest {
    pub input: String,
    pub model: String,
}

/// One embedding of the service's response, its components as 64-bit
/// patterns.
pub struct EmbeddingData {
    pub embedding: Vec<u64>,
}

/// The decoded body of a successful embedding response.
pub struct EmbeddingResponse {
    pub data: Vec<EmbeddingData>,
}

/// A failed embedding call: the response status and its body text.
#[derive(Debug)]
pub struct EmbedError {
    pub status: u16,
    pub body: String,
}

/// The message an embedding failure surfaces: it names the status code and
/// carries the response body.
pub open spec fn embed_error_message(status: int, body: Seq<char>) -> Seq<char> {
    "Request failed with status "@ + dec_digits(status) + ": "@ + body
}

impl EmbedError {
    /// Renders the failure for reporting.
    pub fn message(&self) -> (m: String)
        ensures
            m@ == embed_error_message(self.status as int, self.body@),
    {
        let mut m = String::from_str("Request failed with status ");
        m.append(u16_to_string(self.status).as_str());
        m.append(": ");
        m.append(self.body.as_str());
        m
    }
}

/// Builds the request for embedding one text under the fixed model.
pub fn build_embedding_request(text: &str) -> (req: EmbeddingRequest)
    ensures
        req.input@ == text@,
        req.model@ == "text-embedding-ada-002"@,
{
    EmbeddingRequest { input: String::from_str(text), model: String::from_str(
        "text-embedding-ada-002",
    ) }
}

/// Reads the one embedding a successful response is assumed to carry: only
/// the first element of `data` is ever consulted. A response with no
/// embedding at all is outside this function's contract; callers must test
/// for it first.
pub fn first_embedding(resp: EmbeddingResponse) -> (v: Vec<u64>)
    requires
        resp.data@.len() >= 1,
    ensures
        v@ == resp.data@[0].embedding@,
{
    let mut data = resp.data;
    let first = data.remove(0);
    first.embedding
}

/// The degrade path of the pipelines: a failed embedding call becomes an
/// empty vector, so one bad unit never aborts a whole batch.
pub fn embedding_or_empty(r: Result<Vec<u64>, EmbedError>) -> (v: Vec<u64>)
    ensures
        r is Ok ==> v == r.unwrap(),
        r is Err ==> v@.len() == 0,
{
    match r {
        Result::Ok(v) => v,
        Result::Err(_) => Vec::new(),
    }
}

} // verus!
