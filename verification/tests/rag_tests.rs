use std::collections::HashMap;

use rag_pipeline::chunker::{chunk_pages, PageText};
use rag_pipeline::decimal::u16_to_string;
use rag_pipeline::embedding::{
    build_embedding_request, embedding_or_empty, first_embedding, EmbedError, EmbeddingData,
    EmbeddingResponse,
};
use rag_pipeline::pipeline::{make_record, make_records, retrieval_request};
use rag_pipeline::prompt::{augment_prompt, build_chat_request, build_messages};
use rag_pipeline::store::{
    create_index_report, query_outcome, upsert_report, EmbeddingObject, PineConeClient,
    QueryMatch, QueryRequest, UpsertRequest,
};

/// A fake backing store with the remote index's documented behaviour:
/// records live under namespaces, an upsert replaces records by id, and a
/// query ranks a namespace's records by dot-product similarity and returns
/// at most `top_k` of them.
struct StubStore {
    namespaces: HashMap<String, Vec<(String, Vec<u64>)>>,
}

fn bits(values: &[f64]) -> Vec<u64> {
    values.iter().map(|v| v.to_bits()).collect()
}

fn dot(a: &[u64], b: &[u64]) -> f64 {
    a.iter()
        .zip(b.iter())
        .map(|(x, y)| f64::from_bits(*x) * f64::from_bits(*y))
        .sum()
}

impl StubStore {
    fn new() -> StubStore {
        StubStore {
            namespaces: HashMap::new(),
        }
    }

    fn apply_upsert(&mut self, req: &UpsertRequest) -> bool {
        let records = self
            .namespaces
            .entry(req.namespace.clone())
            .or_insert_with(Vec::new);
        for obj in &req.vectors {
            if let Some(existing) = records.iter_mut().find(|(id, _)| *id == obj.id) {
                existing.1 = obj.embedding.clone();
            } else {
                records.push((obj.id.clone(), obj.embedding.clone()));
            }
        }
        true
    }

    fn apply_query(&self, req: &QueryRequest) -> Option<Vec<QueryMatch>> {
        let records = match self.namespaces.get(&req.namespace) {
            Some(r) => r.clone(),
            None => Vec::new(),
        };
        let mut scored: Vec<(f64, String, Vec<u64>)> = records
            .into_iter()
            .map(|(id, emb)| (dot(&req.vector, &emb), id, emb))
            .collect();
        scored.sort_by(|a, b| b.0.partial_cmp(&a.0).unwrap());
        scored.truncate(req.top_k);
        Some(
            scored
                .into_iter()
                .map(|(score, id, emb)| QueryMatch {
                    id,
                    score: score.to_bits(),
                    values: if req.include_values { Some(emb) } else { None },
                })
                .collect(),
        )
    }
}

fn client() -> PineConeClient {
    PineConeClient {
        api_key: "test-api-key".to_string(),
        index_host: "index.example.test".to_string(),
    }
}

#[test]
fn embedding_request_carries_text_and_model() {
    let req = build_embedding_request("hello");
    assert_eq!(req.input, "hello");
    assert_eq!(req.model, "text-embedding-ada-002");
}

#[test]
fn mocked_success_yields_vector_of_configured_dimensionality() {
    for text in ["", "hello"] {
        let _ = build_embedding_request(text);
        let mut component_bits: Vec<u64> = Vec::new();
        for _ in 0..1536 {
            component_bits.push(0.5f64.to_bits());
        }
        let response = EmbeddingResponse {
            data: vec![EmbeddingData {
                embedding: component_bits,
            }],
        };
        let vector = first_embedding(response);
        assert_eq!(vector.len(), 1536);
    }
}

#[test]
fn mocked_failure_surfaces_status_code_in_message() {
    let err = EmbedError {
        status: 429,
        body: "Too Many Requests".to_string(),
    };
    let message = err.message();
    assert!(message.contains("429"));
    assert_eq!(
        message,
        "Request failed with status 429: Too Many Requests"
    );
}

#[test]
fn status_codes_render_in_decimal() {
    assert_eq!(u16_to_string(0), "0");
    assert_eq!(u16_to_string(7), "7");
    assert_eq!(u16_to_string(404), "404");
    assert_eq!(u16_to_string(65535), "65535");
}

#[test]
fn failed_embedding_degrades_to_empty_vector() {
    let err = EmbedError {
        status: 500,
        body: "boom".to_string(),
    };
    assert!(embedding_or_empty(Err(err)).is_empty());
    assert_eq!(
        embedding_or_empty(Ok(bits(&[1.0, 2.0]))),
        bits(&[1.0, 2.0])
    );
}

#[test]
fn record_keeps_text_as_id_and_degrades_on_error() {
    let ok = make_record("unit text".to_string(), Ok(bits(&[3.0])));
    assert_eq!(ok.id, "unit text");
    assert_eq!(ok.embedding, bits(&[3.0]));
    let err = make_record(
        "bad unit".to_string(),
        Err(EmbedError {
            status: 500,
            body: "boom".to_string(),
        }),
    );
    assert_eq!(err.id, "bad unit");
    assert!(err.embedding.is_empty());
}

#[test]
fn batch_records_pair_texts_with_outcomes_in_order() {
    let texts = vec!["a".to_string(), "b".to_string(), "c".to_string()];
    let outcomes = vec![
        Ok(bits(&[1.0])),
        Err(EmbedError {
            status: 503,
            body: "unavailable".to_string(),
        }),
        Ok(bits(&[2.0])),
    ];
    let records = make_records(texts, outcomes);
    assert_eq!(records.len(), 3);
    assert_eq!(records[0].id, "a");
    assert_eq!(records[0].embedding, bits(&[1.0]));
    assert_eq!(records[1].id, "b");
    assert!(records[1].embedding.is_empty());
    assert_eq!(records[2].id, "c");
    assert_eq!(records[2].embedding, bits(&[2.0]));
}

#[test]
fn upsert_request_targets_the_namespaced_endpoint() {
    let pc = client();
    let req = pc.upsert_request("ns1", Vec::new());
    assert_eq!(req.url, "https://index.example.test/vectors/upsert");
    assert_eq!(req.namespace, "ns1");
    assert!(req.vectors.is_empty());
}

#[test]
fn query_request_targets_the_query_endpoint() {
    let pc = client();
    let req = pc.query_request("ns1", bits(&[1.0]), 3, true);
    assert_eq!(req.url, "https://index.example.test/query");
    assert_eq!(req.namespace, "ns1");
    assert_eq!(req.top_k, 3);
    assert!(req.include_values);
}

#[test]
fn create_index_request_uses_fixed_settings() {
    let pc = client();
    let req = pc.create_index_request();
    assert_eq!(req.url, "https://api.pinecone.io/indexes");
    assert_eq!(req.name, "resume-collection");
    assert_eq!(req.dimension, 1536);
    assert_eq!(req.metric, "cosine");
    assert_eq!(req.cloud, "aws");
    assert_eq!(req.region, "us-east-1");
    assert_eq!(create_index_report(true, ""), "Index created successfully!");
}

#[test]
fn empty_upsert_is_a_no_op_that_reports_success() {
    let pc = client();
    let mut store = StubStore::new();
    let req = pc.upsert_request("ns1", Vec::new());
    let success = store.apply_upsert(&req);
    assert!(success);
    assert!(store.namespaces.get("ns1").unwrap().is_empty());
    assert_eq!(
        upsert_report(success, "ns1", ""),
        "Vectors upserted successfully to namespace ns1"
    );
}

#[test]
fn upsert_then_query_round_trips_the_first_record() {
    let pc = client();
    let mut store = StubStore::new();
    let records = vec![
        EmbeddingObject {
            id: "first unit".to_string(),
            embedding: bits(&[1.0, 0.0]),
        },
        EmbeddingObject {
            id: "second unit".to_string(),
            embedding: bits(&[0.0, 1.0]),
        },
    ];
    let vector_of_first = records[0].embedding.clone();
    let success = store.apply_upsert(&pc.upsert_request("ns1", records));
    assert!(success);
    let req = pc.query_request("ns1", vector_of_first, 1, false);
    let matches = query_outcome(store.apply_query(&req));
    assert_eq!(matches.len(), 1);
    assert_eq!(matches[0].id, "first unit");
}

#[test]
fn query_of_empty_namespace_returns_empty_sequence() {
    let pc = client();
    let store = StubStore::new();
    let req = pc.query_request("nowhere", bits(&[1.0, 0.0]), 5, false);
    let matches = query_outcome(store.apply_query(&req));
    assert!(matches.is_empty());
}

#[test]
fn failed_query_degrades_to_empty_sequence() {
    let matches = query_outcome(None);
    assert!(matches.is_empty());
}

#[test]
fn end_to_end_ingest_and_retrieve_ranks_closest_unit_first() {
    let pc = client();
    let mut store = StubStore::new();

    let pages = vec![PageText::Extracted("A\nB".to_string())];
    let units = chunk_pages(&pages);
    assert_eq!(units, vec!["A".to_string(), "B".to_string()]);

    let outcomes: Vec<Result<Vec<u64>, EmbedError>> =
        vec![Ok(bits(&[1.0, 0.0])), Ok(bits(&[0.0, 1.0]))];
    let records = make_records(units, outcomes);
    assert!(store.apply_upsert(&pc.upsert_request("ns1", records)));

    let query_embedding = bits(&[1.0, 0.0]);
    let req = retrieval_request(&pc, "ns1", query_embedding);
    assert_eq!(req.top_k, 5);
    assert!(!req.include_values);
    let matches = query_outcome(store.apply_query(&req));
    assert_eq!(matches[0].id, "A");

    let prompt = augment_prompt("what is A?", &matches);
    let context_at = prompt.find("Context: A").expect("context missing");
    let query_at = prompt.find("Query: ").expect("query missing");
    assert!(context_at < query_at);
}

#[test]
fn augmented_prompt_follows_the_fixed_template_exactly() {
    let matches = vec![
        QueryMatch {
            id: "foo".to_string(),
            score: 0.9f64.to_bits(),
            values: None,
        },
        QueryMatch {
            id: "bar".to_string(),
            score: 0.8f64.to_bits(),
            values: None,
        },
    ];
    let prompt = augment_prompt("q", &matches);
    assert_eq!(
        prompt,
        "Using the context below, answer the query.\n\nContext: foo\nbar\n\nQuery: q\n"
    );
}

#[test]
fn prompt_with_no_matches_keeps_the_template() {
    let prompt = augment_prompt("q", &Vec::new());
    assert_eq!(
        prompt,
        "Using the context below, answer the query.\n\nContext: \n\nQuery: q\n"
    );
}

#[test]
fn chat_messages_wrap_persona_and_prompt() {
    let msgs = build_messages("the prompt".to_string());
    assert_eq!(msgs.len(), 2);
    assert_eq!(msgs[0].role, "system");
    assert_eq!(msgs[0].content, "You are a helpful assistant!");
    assert_eq!(msgs[1].role, "user");
    assert_eq!(msgs[1].content, "the prompt");
    let req = build_chat_request(msgs);
    assert_eq!(req.model, "gpt-3.5-turbo");
    assert_eq!(req.messages.len(), 2);
}

#[test]
fn failed_upsert_report_names_namespace_and_body() {
    assert_eq!(
        upsert_report(false, "ns1", "quota exceeded"),
        "Failed to upsert vectors to namespace ns1: quota exceeded"
    );
}
