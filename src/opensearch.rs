use vstd::prelude::*;
use crate::search_config::{SearchConfig, is_config_from, env_config_valid};
use crate::search_error::SearchError;
use crate::search_types::{Doc, DocumentId, IndexName, Schema, SearchHit, SearchQuery, SearchResults};

verus! {

/// The error that every operation of the OpenSearch client returns: none is
/// implemented yet.
pub open spec fn is_unimplemented(e: SearchError) -> bool {
    e matches SearchError::Internal(m) && m@ == "OpenSearch operations not yet implemented in WASM"@
}

fn unimplemented() -> (e: SearchError)
    ensures
        is_unimplemented(e),
{
    SearchError::Internal("OpenSearch operations not yet implemented in WASM".to_owned())
}

/// A client of a OpenSearch backend.
pub struct OpenSearchClient {
    config: SearchConfig,
}

impl OpenSearchClient {
    /// The configuration the client was made with.
    pub closed spec fn config_view(&self) -> SearchConfig {
        self.config
    }

    /// Makes a client configured from a snapshot of the environment; an
    /// internal error where the configuration cannot be read.
    pub fn new(vars: &Vec<(String, String)>) -> (r: Result<Self, SearchError>)
        ensures
            match r {
                Ok(c) => is_config_from(c.config_view(), vars@),
                Err(e) => e is Internal && !env_config_valid(vars@),
            },
    {
        match SearchConfig::from_env(vars) {
            Ok(config) => Ok(OpenSearchClient { config }),
            Err(e) => {
                let mut m = "Config error: ".to_owned();
                m.append(e.message.as_str());
                Err(SearchError::Internal(m))
            },
        }
    }

    /// Creates an index.
    pub fn create_index(&self, name: IndexName, schema: Option<Schema>) -> (r: Result<(), SearchError>)
        ensures
            r matches Err(e) && is_unimplemented(e),
    {
        Err(unimplemented())
    }

    /// Deletes an index.
    pub fn delete_index(&self, name: IndexName) -> (r: Result<(), SearchError>)
        ensures
            r matches Err(e) && is_unimplemented(e),
    {
        Err(unimplemented())
    }

    /// Lists the indexes.
    pub fn list_indexes(&self) -> (r: Result<Vec<IndexName>, SearchError>)
        ensures
            r matches Err(e) && is_unimplemented(e),
    {
        Err(unimplemented())
    }

    /// Inserts or replaces a document.
    pub fn upsert(&self, index: IndexName, doc: Doc) -> (r: Result<(), SearchError>)
        ensures
            r matches Err(e) && is_unimplemented(e),
    {
        Err(unimplemented())
    }

    /// Inserts or replaces several documents.
    pub fn upsert_many(&self, index: IndexName, docs: Vec<Doc>) -> (r: Result<(), SearchError>)
        ensures
            r matches Err(e) && is_unimplemented(e),
    {
        Err(unimplemented())
    }

    /// Deletes a document.
    pub fn delete(&self, index: IndexName, id: DocumentId) -> (r: Result<(), SearchError>)
        ensures
            r matches Err(e) && is_unimplemented(e),
    {
        Err(unimplemented())
    }

    /// Deletes several documents.
    pub fn delete_many(&self, index: IndexName, ids: Vec<DocumentId>) -> (r: Result<(), SearchError>)
        ensures
            r matches Err(e) && is_unimplemented(e),
    {
        Err(unimplemented())
    }

    /// Fetches a document.
    pub fn get(&self, index: IndexName, id: DocumentId) -> (r: Result<Option<Doc>, SearchError>)
        ensures
            r matches Err(e) && is_unimplemented(e),
    {
        Err(unimplemented())
    }

    /// Runs a query.
    pub fn search(&self, index: IndexName, query: SearchQuery) -> (r: Result<SearchResults, SearchError>)
        ensures
            r matches Err(e) && is_unimplemented(e),
    {
        Err(unimplemented())
    }

    /// Runs a query and hands the hits out one by one.
    pub fn stream_search(&self, index: IndexName, query: SearchQuery) -> (r: Result<std::vec::IntoIter<SearchHit>, SearchError>)
        ensures
            r matches Err(e) && is_unimplemented(e),
    {
        Err(unimplemented())
    }

    /// Reads the schema of an index.
    pub fn get_schema(&self, index: IndexName) -> (r: Result<Schema, SearchError>)
        ensures
            r matches Err(e) && is_unimplemented(e),
    {
        Err(unimplemented())
    }

    /// Replaces the schema of an index.
    pub fn update_schema(&self, index: IndexName, schema: Schema) -> (r: Result<(), SearchError>)
        ensures
            r matches Err(e) && is_unimplemented(e),
    {
        Err(unimplemented())
    }
}

} // verus!
