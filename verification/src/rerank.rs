//! Reranking: the documents that a reranking model is given.

use crate::error::AISDKError;
use crate::json::{json_as_str, json_str};
use crate::stream_text::{decimal_digits, decimal_text};
use serde_json::Value;
use std::collections::HashMap;
use vstd::prelude::*;

verus! {

/// The documents to rerank, all of one kind: texts, or JSON objects.
#[derive(Debug, Clone, PartialEq)]
pub enum RerankingDocuments {
    Text { values: Vec<String> },
    Object { values: Vec<HashMap<String, Value>> },
}

/// The entries of a JSON value when it is an object (`Value::Object`).
pub uninterp spec fn json_object_map(v: Value) -> Option<Map<String, Value>>;

/// What `format!("{:?}", v)` writes for a JSON value.
pub uninterp spec fn json_debug(v: Value) -> Seq<char>;

/// Takes the entries of a JSON object into a `HashMap` (`Value::Object`,
/// then `into_iter().collect()`); `None` when the value is not an object.
/// The entries are named `json_object_map` of the value.
#[verifier::external_body]
fn json_object_entries(v: Value) -> (r: Option<HashMap<String, Value>>)
    ensures
        match r {
            Some(m) => json_object_map(v) == Some(m@),
            None => json_object_map(v) is None,
        },
{
    match v {
        Value::Object(map) => Some(map.into_iter().collect()),
        _ => None,
    }
}

/// Writes a JSON value with `format!("{:?}")`; the text is named
/// `json_debug` of the value.
#[verifier::external_body]
fn json_debug_text(v: &Value) -> (s: String)
    ensures
        s@ == json_debug(*v),
{
    format!("{:?}", v)
}

/// The decimal text of an index.
fn usize_text(i: usize) -> (s: String)
    ensures
        s@ == decimal_digits(i as nat),
{
    decimal_text(i as u64)
}

/// The name of the `i`-th document in an error: `documents[i]`.
pub open spec fn document_name(i: nat) -> Seq<char> {
    "documents["@ + decimal_digits(i) + "]"@
}

fn document_name_text(i: usize) -> (s: String)
    ensures
        s@ == document_name(i as nat),
{
    let mut s = "documents[".to_owned();
    let n = usize_text(i);
    crate::text::push_str(&mut s, n.as_str());
    crate::text::push_str(&mut s, "]");
    proof {
        reveal_strlit("documents[");
        reveal_strlit("]");
    }
    s
}

/// The message when a document is not of the kind of the first one.
pub open spec fn mixed_kinds_message() -> Seq<char> {
    "All documents must be of the same type (string or object)"@
}

/// `e` is the error for the `i`-th document, which is not of the kind of the
/// first one.
pub open spec fn mixed_kinds_error(documents: Seq<Value>, i: int, e: AISDKError) -> bool {
    e matches AISDKError::InvalidArgument { parameter: p, value: v, message: m } && p@ == document_name(i as nat)
        && v@ == json_debug(documents[i]) && m@ == mixed_kinds_message()
}

/// The kind of documents that the first one decides, and the documents'
/// values in that kind, or the error for the first one that does not fit.
pub open spec fn documents_outcome(documents: Seq<Value>, r: Result<RerankingDocuments, AISDKError>) -> bool {
    if documents.len() == 0 {
        r matches Ok(RerankingDocuments::Text { values: v }) && v@.len() == 0
    } else if json_as_str(documents[0]) is Some {
        match r {
            Ok(RerankingDocuments::Text { values: v }) => v@.len() == documents.len() && forall|i: int|
                0 <= i < documents.len() ==> json_as_str(documents[i]) == Some(#[trigger] v@[i]@),
            Ok(_) => false,
            Err(e) => exists|k: int|
                0 < k < documents.len() && (forall|i: int| 0 <= i < k ==> #[trigger] json_as_str(documents[i]) is Some)
                    && json_as_str(documents[k]) is None && #[trigger] mixed_kinds_error(documents, k, e),
        }
    } else if json_object_map(documents[0]) is Some {
        match r {
            Ok(RerankingDocuments::Object { values: v }) => v@.len() == documents.len() && forall|i: int|
                0 <= i < documents.len() ==> json_object_map(documents[i]) == Some(#[trigger] v@[i]@),
            Ok(_) => false,
            Err(e) => exists|k: int|
                0 < k < documents.len() && (forall|i: int|
                    0 <= i < k ==> #[trigger] json_object_map(documents[i]) is Some) && json_object_map(documents[k])
                    is None && #[trigger] mixed_kinds_error(documents, k, e),
        }
    } else {
        r matches Err(AISDKError::InvalidArgument { parameter: p, value: v, message: m }) && p@ == document_name(0)
            && v@ == json_debug(documents[0]) && m@ == "Documents must be either strings or JSON objects"@
    }
}

fn mixed_kinds(documents: &Vec<Value>, i: usize) -> (e: AISDKError)
    requires
        i < documents@.len(),
    ensures
        mixed_kinds_error(documents@, i as int, e),
{
    let name = document_name_text(i);
    let value = json_debug_text(&documents[i]);
    proof {
        reveal_strlit("All documents must be of the same type (string or object)");
    }
    AISDKError::invalid_argument(name.as_str(), value.as_str(), "All documents must be of the same type (string or object)")
}

/// Finds the kind of the documents, JSON values, from the first one: texts
/// or objects; every document must be of that kind.
pub fn detect_document_type(documents: &Vec<Value>) -> (r: Result<RerankingDocuments, AISDKError>)
    ensures
        documents_outcome(documents@, r),
{
    let n = documents.len();
    if n == 0 {
        return Ok(RerankingDocuments::Text { values: Vec::new() });
    }
    match json_str(&documents[0]) {
        Some(_) => {
            let mut values: Vec<String> = Vec::new();
            let mut i: usize = 0;
            while i < n
                invariant
                    n == documents@.len(),
                    n > 0,
                    json_as_str(documents@[0]) is Some,
                    i <= n,
                    values@.len() == i,
                    forall|j: int| 0 <= j < i ==> json_as_str(documents@[j]) == Some(#[trigger] values@[j]@),
                decreases n - i,
            {
                match json_str(&documents[i]) {
                    Some(s) => {
                        values.push(s);
                    },
                    None => {
                        let e = mixed_kinds(documents, i);
                        proof {
                            assert(forall|j: int| 0 <= j < i ==> #[trigger] json_as_str(documents@[j]) is Some) by {
                                assert forall|j: int| 0 <= j < i implies #[trigger] json_as_str(documents@[j]) is Some by {
                                    assert(json_as_str(documents@[j]) == Some(values@[j]@));
                                }
                            }
                        }
                        return Err(e);
                    },
                }
                i = i + 1;
            }
            Ok(RerankingDocuments::Text { values })
        },
        None => {
            let first = json_object_entries(documents[0].clone());
            if first.is_none() {
                let value = json_debug_text(&documents[0]);
                let name = document_name_text(0);
                proof {
                    reveal_strlit("Documents must be either strings or JSON objects");
                }
                return Err(
                    AISDKError::invalid_argument(
                        name.as_str(),
                        value.as_str(),
                        "Documents must be either strings or JSON objects",
                    ),
                );
            }
            let mut values: Vec<HashMap<String, Value>> = Vec::new();
            let mut i: usize = 0;
            while i < n
                invariant
                    n == documents@.len(),
                    n > 0,
                    json_as_str(documents@[0]) is None,
                    json_object_map(documents@[0]) is Some,
                    i <= n,
                    values@.len() == i,
                    forall|j: int| 0 <= j < i ==> json_object_map(documents@[j]) == Some(#[trigger] values@[j]@),
                decreases n - i,
            {
                match json_object_entries(documents[i].clone()) {
                    Some(m) => {
                        values.push(m);
                    },
                    None => {
                        let e = mixed_kinds(documents, i);
                        proof {
                            assert forall|j: int| 0 <= j < i implies #[trigger] json_object_map(documents@[j]) is Some by {
                                assert(json_object_map(documents@[j]) == Some(values@[j]@));
                            }
                        }
                        return Err(e);
                    },
                }
                i = i + 1;
            }
            Ok(RerankingDocuments::Object { values })
        },
    }
}

/// The message when a reranking model follows another version of the
/// interface.
pub open spec fn unsupported_version_message(version: Seq<char>, provider: Seq<char>, model_id: Seq<char>) -> Seq<char> {
    "Unsupported model version: "@ + version + ". Provider: "@ + provider + ", Model ID: "@ + model_id
}

/// Checks that a reranking model follows version "v3" of the interface.
pub fn check_model_version(version: &str, provider: &str, model_id: &str) -> (r: Result<(), AISDKError>)
    ensures
        if version@ == "v3"@ {
            r is Ok
        } else {
            r matches Err(AISDKError::ModelError { message: m }) && m@ == unsupported_version_message(
                version@,
                provider@,
                model_id@,
            )
        },
{
    if crate::tool::str_eq(version, "v3") {
        return Ok(());
    }
    let mut m = "Unsupported model version: ".to_owned();
    crate::text::push_str(&mut m, version);
    crate::text::push_str(&mut m, ". Provider: ");
    crate::text::push_str(&mut m, provider);
    crate::text::push_str(&mut m, ", Model ID: ");
    crate::text::push_str(&mut m, model_id);
    proof {
        reveal_strlit("Unsupported model version: ");
        reveal_strlit(". Provider: ");
        reveal_strlit(", Model ID: ");
    }
    Err(AISDKError::ModelError { message: m })
}

/// The documents in the order of a ranking: for each index of the ranking,
/// a clone of the document at that index.
pub fn reranked_documents<T: Clone>(documents: &Vec<T>, indices: &Vec<usize>) -> (r: Vec<T>)
    requires
        forall|i: int| 0 <= i < indices@.len() ==> #[trigger] indices@[i] < documents@.len(),
    ensures
        r@.len() == indices@.len(),
        forall|i: int|
            0 <= i < indices@.len() ==> vstd::pervasive::cloned::<T>(documents@[indices@[i] as int], #[trigger] r@[i]),
{
    let mut r: Vec<T> = Vec::new();
    let n = indices.len();
    let mut i: usize = 0;
    while i < n
        invariant
            n == indices@.len(),
            i <= n,
            r@.len() == i,
            forall|k: int| 0 <= k < indices@.len() ==> #[trigger] indices@[k] < documents@.len(),
            forall|k: int|
                0 <= k < i ==> vstd::pervasive::cloned::<T>(documents@[indices@[k] as int], #[trigger] r@[k]),
        decreases n - i,
    {
        let k = indices[i];
        let d = documents[k].clone();
        r.push(d);
        i = i + 1;
    }
    r
}

} // verus!
