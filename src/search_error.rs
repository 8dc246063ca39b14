use vstd::prelude::*;

verus! {

/// The errors of a search backend. A JSON (de)serialisation failure carries
/// the serializer's message.
#[derive(Debug, Clone, PartialEq, Eq)]
pub enum SearchError {
    IndexNotFound(String),
    InvalidQuery(String),
    Unsupported(String),
    Internal(String),
    Timeout,
    RateLimited,
    Json(String),
}

/// The search error taxonomy seen by callers of a backend.
#[derive(Debug, Clone, PartialEq, Eq)]
pub enum BoundarySearchError {
    IndexNotFound,
    InvalidQuery(String),
    Unsupported,
    Internal(String),
    Timeout,
    RateLimited,
}

/// Maps a backend error to the taxonomy seen by callers: the kind is kept,
/// the message only where the taxonomy has room for it, and a JSON failure
/// becomes an internal error with its message.
pub fn boundary_search_error(e: SearchError) -> (r: BoundarySearchError)
    ensures
        match e {
            SearchError::IndexNotFound(_) => r is IndexNotFound,
            SearchError::InvalidQuery(m) => r matches BoundarySearchError::InvalidQuery(x) && x@ == m@,
            SearchError::Unsupported(_) => r is Unsupported,
            SearchError::Internal(m) => r matches BoundarySearchError::Internal(x) && x@ == m@,
            SearchError::Timeout => r is Timeout,
            SearchError::RateLimited => r is RateLimited,
            SearchError::Json(m) => r matches BoundarySearchError::Internal(x) && x@ == m@,
        },
{
    match e {
        SearchError::IndexNotFound(_) => BoundarySearchError::IndexNotFound,
        SearchError::InvalidQuery(m) => BoundarySearchError::InvalidQuery(m),
        SearchError::Unsupported(_) => BoundarySearchError::Unsupported,
        SearchError::Internal(m) => BoundarySearchError::Internal(m),
        SearchError::Timeout => BoundarySearchError::Timeout,
        SearchError::RateLimited => BoundarySearchError::RateLimited,
        SearchError::Json(m) => BoundarySearchError::Internal(m),
    }
}

} // verus!
