//! A sandboxed code-execution session engine: content decoding, session
//! bookkeeping, the decisions of the process runner and the error taxonomy,
//! together with the configuration and client shells of the search backends.

pub mod decode;
pub mod types;
pub mod errors;
pub mod session;
pub mod registry;
pub mod engine;
pub mod laws;
pub mod search_config;
pub mod search_types;
pub mod search_error;
pub mod opensearch;
pub mod typesense;
