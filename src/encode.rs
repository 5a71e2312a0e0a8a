//! Encoding the assembled OpenAPI document and publishing it in a cache.

use vstd::prelude::*;
use aide::openapi::OpenApi;
use crate::cache::{publish_outcome, CacheView, DocumentCache, DocumentError};

verus! {

#[verifier::external_type_specification]
#[verifier::external_body]
pub struct ExOpenApi(OpenApi);

#[verifier::external_type_specification]
#[verifier::external_body]
pub struct ExJsonError(serde_json::Error);

#[verifier::external_type_specification]
#[verifier::external_body]
pub struct ExYamlError(serde_yaml::Error);

/// The JSON text of a document, or `None` where it cannot be encoded.
pub uninterp spec fn json_of(api: OpenApi) -> Option<Seq<char>>;

/// The YAML text of a document, or `None` where it cannot be encoded.
pub uninterp spec fn yaml_of(api: OpenApi) -> Option<Seq<char>>;

/// Relies on `serde_json::to_string`: the document as JSON text, or the
/// serializer's error. The outcome depends on the document alone, whose maps
/// keep their order of insertion.
#[verifier::external_body]
fn encode_json(api: &OpenApi) -> (r: Result<String, serde_json::Error>)
    ensures
        match r {
            Ok(s) => json_of(*api) == Some(s@),
            Err(_) => json_of(*api) is None,
        },
{
    serde_json::to_string(api)
}

/// Relies on `serde_yaml::to_string`: the document as YAML text, or the
/// serializer's error. The outcome depends on the document alone, whose maps
/// keep their order of insertion.
#[verifier::external_body]
fn encode_yaml(api: &OpenApi) -> (r: Result<String, serde_yaml::Error>)
    ensures
        match r {
            Ok(s) => yaml_of(*api) == Some(s@),
            Err(_) => yaml_of(*api) is None,
        },
{
    serde_yaml::to_string(api)
}

impl DocumentCache {
    /// Encodes `api` as JSON and as YAML and publishes both texts. A cache
    /// that already holds a document is left alone and nothing is encoded
    /// (`AlreadyStored`); when an encoding fails nothing is published
    /// (`JsonEncoding`, `YamlEncoding`).
    pub fn store_openapi(&mut self, api: &OpenApi) -> (r: Result<(), DocumentError>)
        requires
            old(self).wf(),
        ensures
            final(self).wf(),
            (final(self)@, r) == publish_outcome(old(self)@, json_of(*api), yaml_of(*api)),
    {
        if self.is_ready() {
            return Err(DocumentError::AlreadyStored);
        }
        let json = match encode_json(api) {
            Ok(text) => text,
            Err(_) => return Err(DocumentError::JsonEncoding),
        };
        let yaml = match encode_yaml(api) {
            Ok(text) => text,
            Err(_) => return Err(DocumentError::YamlEncoding),
        };
        self.publish(Some(json), Some(yaml))
    }
}

/// Storing a document in an empty cache publishes exactly its two encodings,
/// so every later read of the cache returns them; where either encoding fails
/// the cache stays empty and startup has nothing to serve.
pub proof fn lemma_store_publishes_encodings(m: CacheView, api: OpenApi)
    requires
        m.wf(),
        !m.is_ready(),
    ensures
        ({
            let (m1, r) = publish_outcome(m, json_of(api), yaml_of(api));
            &&& r is Ok <==> json_of(api) is Some && yaml_of(api) is Some
            &&& r is Ok ==> m1.json == json_of(api) && m1.yaml == yaml_of(api)
            &&& r is Err ==> m1 == m && !m1.is_ready()
            &&& json_of(api) is None ==> r == Err::<(), DocumentError>(DocumentError::JsonEncoding)
            &&& json_of(api) is Some && yaml_of(api) is None ==> r == Err::<(), DocumentError>(
                DocumentError::YamlEncoding,
            )
        }),
{
}

} // verus!
