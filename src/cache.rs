//! The document cache: each encoding of the API document is published at most
//! once, both together, and read back unchanged by every later request.

use vstd::prelude::*;
use once_cell::sync::OnceCell;
use crate::cell::{cell_get, cell_set, cell_text, empty_cell};

verus! {

/// What a cache holds: the JSON text and the YAML text, each `None` until
/// published.
pub ghost struct CacheView {
    pub json: Option<Seq<char>>,
    pub yaml: Option<Seq<char>>,
}

impl CacheView {
    /// Either both encodings are published or neither is.
    pub open spec fn wf(self) -> bool {
        self.json is Some <==> self.yaml is Some
    }

    /// A document has been published.
    pub open spec fn is_ready(self) -> bool {
        self.json is Some
    }
}

/// Why a document could not be published.
#[derive(Debug, Clone, Copy, PartialEq, Eq, Structural)]
pub enum DocumentError {
    /// The cache already holds a document; it is kept as it is.
    AlreadyStored,
    /// The document could not be encoded as JSON.
    JsonEncoding,
    /// The document could not be encoded as YAML.
    YamlEncoding,
}

/// The state after an attempt to publish the given encodings, and the outcome
/// of that attempt (`None` stands for an encoding that failed).
pub open spec fn publish_outcome(
    m: CacheView,
    json: Option<Seq<char>>,
    yaml: Option<Seq<char>>,
) -> (CacheView, Result<(), DocumentError>) {
    if m.is_ready() {
        (m, Err(DocumentError::AlreadyStored))
    } else if json is None {
        (m, Err(DocumentError::JsonEncoding))
    } else if yaml is None {
        (m, Err(DocumentError::YamlEncoding))
    } else {
        (CacheView { json, yaml }, Ok(()))
    }
}

/// The text of an optional string, as an optional sequence of characters.
pub open spec fn text_of(s: Option<String>) -> Option<Seq<char>> {
    match s {
        Some(t) => Some(t@),
        None => None,
    }
}

/// The JSON and YAML forms of the API document, each set at most once.
pub struct DocumentCache {
    json: OnceCell<String>,
    yaml: OnceCell<String>,
}

impl View for DocumentCache {
    type V = CacheView;

    closed spec fn view(&self) -> CacheView {
        CacheView { json: cell_text(self.json), yaml: cell_text(self.yaml) }
    }
}

impl DocumentCache {
    /// Well-formed: either both encodings are published or neither is.
    pub open spec fn wf(&self) -> bool {
        self@.wf()
    }

    /// An empty cache: nothing is published yet.
    pub fn new() -> (r: DocumentCache)
        ensures
            r.wf(),
            r@.json is None,
            r@.yaml is None,
    {
        DocumentCache { json: empty_cell(), yaml: empty_cell() }
    }

    /// Whether a document has been published.
    pub fn is_ready(&self) -> (r: bool)
        requires
            self.wf(),
        ensures
            r == self@.is_ready(),
            r == self@.yaml is Some,
    {
        cell_get(&self.json).is_some()
    }

    /// Publishes both encodings together, unless the cache already holds a
    /// document or one of the encodings failed (`None`); in those cases the
    /// cache is left unchanged.
    pub fn publish(&mut self, json: Option<String>, yaml: Option<String>) -> (r: Result<
        (),
        DocumentError,
    >)
        requires
            old(self).wf(),
        ensures
            final(self).wf(),
            (final(self)@, r) == publish_outcome(old(self)@, text_of(json), text_of(yaml)),
    {
        if self.is_ready() {
            return Err(DocumentError::AlreadyStored);
        }
        match (json, yaml) {
            (Some(j), Some(y)) => {
                let _ = cell_set(&mut self.json, j);
                let _ = cell_set(&mut self.yaml, y);
                Ok(())
            },
            (None, _) => Err(DocumentError::JsonEncoding),
            (Some(_), None) => Err(DocumentError::YamlEncoding),
        }
    }

    /// The published JSON text, or `None` before publication.
    pub fn serve_json(&self) -> (r: Option<&str>)
        ensures
            match r {
                Some(s) => self@.json == Some(s@),
                None => self@.json is None,
            },
    {
        match cell_get(&self.json) {
            Some(s) => Some(s.as_str()),
            None => None,
        }
    }

    /// The published YAML text, or `None` before publication.
    pub fn serve_yaml(&self) -> (r: Option<&str>)
        ensures
            match r {
                Some(s) => self@.yaml == Some(s@),
                None => self@.yaml is None,
            },
    {
        match cell_get(&self.yaml) {
            Some(s) => Some(s.as_str()),
            None => None,
        }
    }
}

/// Publishing never leaves a cache with one encoding and not the other, and it
/// succeeds exactly when it turns an empty cache into a ready one.
pub proof fn lemma_publish_all_or_nothing(
    m: CacheView,
    json: Option<Seq<char>>,
    yaml: Option<Seq<char>>,
)
    requires
        m.wf(),
    ensures
        ({
            let (m1, r) = publish_outcome(m, json, yaml);
            &&& m1.wf()
            &&& r is Ok <==> !m.is_ready() && m1.is_ready()
        }),
{
}

/// Once a document is published it is final: every later attempt to publish
/// fails as `AlreadyStored` and leaves both served texts exactly as they were.
pub proof fn lemma_published_once(
    m: CacheView,
    json: Option<Seq<char>>,
    yaml: Option<Seq<char>>,
    json2: Option<Seq<char>>,
    yaml2: Option<Seq<char>>,
)
    requires
        m.wf(),
    ensures
        ({
            let m1 = publish_outcome(m, json, yaml).0;
            let (m2, r) = publish_outcome(m1, json2, yaml2);
            m1.is_ready() ==> m2 == m1 && r matches Err(DocumentError::AlreadyStored)
        }),
{
}

/// A failed encoding publishes nothing: a cache that held no document still
/// holds none, so there is nothing to serve.
pub proof fn lemma_failed_encoding_publishes_nothing(
    m: CacheView,
    json: Option<Seq<char>>,
    yaml: Option<Seq<char>>,
)
    requires
        m.wf(),
        !m.is_ready(),
        json is None || yaml is None,
    ensures
        publish_outcome(m, json, yaml).0 == m,
        publish_outcome(m, json, yaml).1 is Err,
        publish_outcome(m, json, yaml).0.json is None,
        publish_outcome(m, json, yaml).0.yaml is None,
{
}

} // verus!
