//! The vector-store client's decision logic: building the three wire
//! requests (upsert, similarity query, index creation), deciding what each
//! outcome means, and rendering the user-visible reports.
//!
//! The network exchange itself stays outside this crate; a caller performs
//! each request exactly as built here and hands the outcome back.

use vstd::prelude::*;

verus! {

/// One record bound for the store: the unit's text doubles as the record id,
/// and the embedding's components travel as 64-bit patterns.
pub struct EmbeddingObject {
    pub id: String,
    pub embedding: Vec<u64>,
}

/// One result of a similarity query: the matched record's id, its similarity
/// score as a 64-bit pattern, and, when echoed, the stored components.
pub struct QueryMatch {
    pub id: String,
    pub score: u64,
    pub values: Option<Vec<u64>>,
}

/// The vector-store client: the key sent with every request and the host
/// that serves the index.
pub struct PineConeClient {
    pub api_key: String,
    pub index_host: String,
}

/// An upsert, ready to send: one batch of records under one namespace.
pub struct UpsertRequest {
    pub url: String,
    pub api_key: String,
    pub namespace: String,
    pub vectors: Vec<EmbeddingObject>,
}

/// A similarity query, ready to send.
pub struct QueryRequest {
    pub url: String,
    pub api_key: String,
    pub namespace: String,
    pub vector: Vec<u64>,
    pub top_k: usize,
    pub include_values: bool,
}

/// An index creation, ready to send: the administrative setup call.
pub struct CreateIndexRequest {
    pub url: String,
    pub api_key: String,
    pub name: String,
    pub dimension: usize,
    pub metric: String,
    pub cloud: String,
    pub region: String,
}

impl PineConeClient {
    /// Builds the upsert of a record batch into a namespace: every record is
    /// kept, in order, and the batch goes to the host's upsert endpoint.
    pub fn upsert_request(&self, namespace: &str, embedding_vectors: Vec<EmbeddingObject>) -> (req:
        UpsertRequest)
        ensures
            req.url@ == "https://"@ + self.index_host@ + "/vectors/upsert"@,
            req.api_key@ == self.api_key@,
            req.namespace@ == namespace@,
            req.vectors == embedding_vectors,
    {
        let url = String::from_str("https://").concat(self.index_host.as_str()).concat(
            "/vectors/upsert",
        );
        UpsertRequest {
            url,
            api_key: self.api_key.clone(),
            namespace: String::from_str(namespace),
            vectors: embedding_vectors,
        }
    }

    /// Builds a similarity query against a namespace, asking for `top_k`
    /// matches and echoing stored components only when asked to.
    pub fn query_request(
        &self,
        namespace: &str,
        vector: Vec<u64>,
        top_k: usize,
        include_values: bool,
    ) -> (req: QueryRequest)
        ensures
            req.url@ == "https://"@ + self.index_host@ + "/query"@,
            req.api_key@ == self.api_key@,
            req.namespace@ == namespace@,
            req.vector == vector,
            req.top_k == top_k,
            req.include_values == include_values,
    {
        let url = String::from_str("https://").concat(self.index_host.as_str()).concat("/query");
        QueryRequest {
            url,
            api_key: self.api_key.clone(),
            namespace: String::from_str(namespace),
            vector,
            top_k,
            include_values,
        }
    }

    /// Builds the one-time index creation: fixed name, dimensionality,
    /// cosine metric and serverless region.
    pub fn create_index_request(&self) -> (req: CreateIndexRequest)
        ensures
            req.url@ == "https://api.pinecone.io/indexes"@,
            req.api_key@ == self.api_key@,
            req.name@ == "resume-collection"@,
            req.dimension == 1536usize,
            req.metric@ == "cosine"@,
            req.cloud@ == "aws"@,
            req.region@ == "us-east-1"@,
    {
        CreateIndexRequest {
            url: String::from_str("https://api.pinecone.io/indexes"),
            api_key: self.api_key.clone(),
            name: String::from_str("resume-collection"),
            dimension: 1536,
            metric: String::from_str("cosine"),
            cloud: String::from_str("aws"),
            region: String::from_str("us-east-1"),
        }
    }
}

/// What a query outcome means: the matches of a successful response are
/// returned as they came, and any failure degrades to an empty sequence,
/// never to an error.
pub fn query_outcome(response: Option<Vec<QueryMatch>>) -> (matches: Vec<QueryMatch>)
    ensures
        response is Some ==> matches == response->0,
        response is None ==> matches@.len() == 0,
{
    match response {
        Option::Some(m) => m,
        Option::None => Vec::new(),
    }
}

/// The user-visible report of an upsert outcome: success names the
/// namespace; failure names the namespace and carries the response body.
/// Failure is reported, never raised.
pub fn upsert_report(success: bool, namespace: &str, body: &str) -> (m: String)
    ensures
        success ==> m@ == "Vectors upserted successfully to namespace "@ + namespace@,
        !success ==> m@ == "Failed to upsert vectors to namespace "@ + namespace@ + ": "@
            + body@,
{
    if success {
        let mut m = String::from_str("Vectors upserted successfully to namespace ");
        m.append(namespace);
        m
    } else {
        let mut m = String::from_str("Failed to upsert vectors to namespace ");
        m.append(namespace);
        m.append(": ");
        m.append(body);
        m
    }
}

/// The user-visible report of an index-creation outcome.
pub fn create_index_report(success: bool, body: &str) -> (m: String)
    ensures
        success ==> m@ == "Index created successfully!"@,
        !success ==> m@ == "Failed to create index: "@ + body@,
{
    if success {
        String::from_str("Index created successfully!")
    } else {
        let mut m = String::from_str("Failed to create index: ");
        m.append(body);
        m
    }
}

/// The user-visible report of a failed query: named, then degraded to an
/// empty result by `query_outcome`.
pub fn query_failure_report(namespace: &str, body: &str) -> (m: String)
    ensures
        m@ == "Failed to query vector from namespace "@ + namespace@ + ": "@ + body@,
{
    let mut m = String::from_str("Failed to query vector from namespace ");
    m.append(namespace);
    m.append(": ");
    m.append(body);
    m
}

} // verus!
