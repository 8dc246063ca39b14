use vstd::prelude::*;

verus! {

/// The name of an index.
pub type IndexName = String;

/// The identifier of a document.
pub type DocumentId = String;

/// A document: its identifier and its JSON content as text.
#[derive(Clone, Debug, PartialEq, Eq)]
pub struct Doc {
    pub id: DocumentId,
    pub content: String,
}

/// The type of a schema field.
#[derive(Clone, Copy, Debug, PartialEq, Eq, Structural)]
pub enum FieldType {
    Text,
    Keyword,
    Integer,
    Float,
    Boolean,
    Date,
    GeoPoint,
}

/// One field of an index schema.
#[derive(Clone, Debug, PartialEq, Eq)]
pub struct SchemaField {
    pub name: String,
    pub type_: FieldType,
    pub required: bool,
    pub facet: bool,
    pub sort: bool,
    pub index: bool,
}

/// An index schema.
#[derive(Clone, Debug, PartialEq, Eq)]
pub struct Schema {
    pub fields: Vec<SchemaField>,
    pub primary_key: Option<String>,
}

/// Highlighting options of a query.
#[derive(Clone, Debug, PartialEq, Eq)]
pub struct HighlightConfig {
    pub fields: Vec<String>,
    pub pre_tag: Option<String>,
    pub post_tag: Option<String>,
    pub max_length: Option<u32>,
}

/// A search query.
#[derive(Clone, Debug, PartialEq, Eq)]
pub struct SearchQuery {
    pub q: Option<String>,
    pub filters: Vec<String>,
    pub sort: Vec<String>,
    pub facets: Vec<String>,
    pub page: Option<u32>,
    pub per_page: Option<u32>,
    pub offset: Option<u32>,
    pub highlight: Option<HighlightConfig>,
}

/// One hit of a search, its content and highlights as JSON text.
#[derive(Clone, Debug, PartialEq, Eq)]
pub struct SearchHit {
    pub id: DocumentId,
    pub content: Option<String>,
    pub highlights: Option<String>,
}

/// The results of a search.
#[derive(Clone, Debug, PartialEq, Eq)]
pub struct SearchResults {
    pub total: Option<u32>,
    pub page: Option<u32>,
    pub per_page: Option<u32>,
    pub hits: Vec<SearchHit>,
    pub facets: Option<String>,
    pub took_ms: Option<u32>,
}

} // verus!
