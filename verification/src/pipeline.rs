//! Composition of the pipeline's decisions: wrapping embedded units into
//! store records during ingestion, and fixing the retrieval query's shape.
//!
//! The outbound calls themselves happen outside this crate; their results
//! come back in as plain values and every decision about them is made here.

use vstd::prelude::*;
use crate::embedding::EmbedError;
use crate::store::EmbeddingObject;
use crate::store::PineConeClient;
use crate::store::QueryRequest;

verus! {

/// One ingestion record: the unit's text becomes the record id, and a failed
/// embedding call degrades to an empty vector so the batch goes on.
pub fn make_record(text: String, embedding: Result<Vec<u64>, EmbedError>) -> (rec:
    EmbeddingObject)
    ensures
        rec.id@ == text@,
        embedding is Ok ==> rec.embedding == embedding->Ok_0,
        embedding is Err ==> rec.embedding@.len() == 0,
{
    let values = crate::embedding::embedding_or_empty(embedding);
    EmbeddingObject { id: text, embedding: values }
}

/// The whole ingestion batch: one record per unit, in unit order, each
/// pairing the unit's text with its embedding outcome. A unit whose
/// embedding failed still yields a record, with an empty vector.
pub fn make_records(texts: Vec<String>, embeddings: Vec<Result<Vec<u64>, EmbedError>>) -> (recs:
    Vec<EmbeddingObject>)
    requires
        texts@.len() == embeddings@.len(),
    ensures
        recs@.len() == texts@.len(),
        forall|j: int|
            0 <= j < recs@.len() ==> (#[trigger] recs@[j]).id@ == texts@[j]@ && (embeddings@[j]
                is Ok ==> recs@[j].embedding == embeddings@[j]->Ok_0) && (embeddings@[j] is Err
                ==> recs@[j].embedding@.len() == 0),
{
    let ghost all_texts = texts@;
    let ghost all_embeddings = embeddings@;
    let mut texts = texts;
    let mut embeddings = embeddings;
    let mut recs: Vec<EmbeddingObject> = Vec::new();
    proof {
        assert(texts@ =~= all_texts.subrange(0, all_texts.len() as int));
        assert(embeddings@ =~= all_embeddings.subrange(0, all_embeddings.len() as int));
    }
    while texts.len() > 0
        invariant
            all_texts.len() == all_embeddings.len(),
            recs@.len() + texts@.len() == all_texts.len(),
            texts@ == all_texts.subrange(recs@.len() as int, all_texts.len() as int),
            embeddings@ == all_embeddings.subrange(recs@.len() as int, all_embeddings.len() as int),
            forall|j: int|
                0 <= j < recs@.len() ==> (#[trigger] recs@[j]).id@ == all_texts[j]@ && (
                all_embeddings[j] is Ok ==> recs@[j].embedding == all_embeddings[j]->Ok_0) && (
                all_embeddings[j] is Err ==> recs@[j].embedding@.len() == 0),
        decreases texts@.len(),
    {
        let ghost k = recs@.len() as int;
        let text = texts.remove(0);
        let embedding = embeddings.remove(0);
        proof {
            assert(text@ == all_texts[k]@);
            assert(embedding == all_embeddings[k]);
        }
        let rec = make_record(text, embedding);
        recs.push(rec);
        proof {
            assert(texts@ =~= all_texts.subrange(recs@.len() as int, all_texts.len() as int));
            assert(embeddings@ =~= all_embeddings.subrange(
                recs@.len() as int,
                all_embeddings.len() as int,
            ));
        }
    }
    recs
}

/// The retrieval query as the pipeline issues it: always five matches, never
/// echoing stored components.
pub fn retrieval_request(pc: &PineConeClient, namespace: &str, query_embedding: Vec<u64>) -> (req:
    QueryRequest)
    ensures
        req.url@ == "https://"@ + pc.index_host@ + "/query"@,
        req.api_key@ == pc.api_key@,
        req.namespace@ == namespace@,
        req.vector == query_embedding,
        req.top_k == 5usize,
        req.include_values == false,
{
    pc.query_request(namespace, query_embedding, 5, false)
}

} // verus!
