use exec_js::opensearch::OpenSearchClient;
use exec_js::search_config::SearchConfig;
use exec_js::search_error::{boundary_search_error, BoundarySearchError, SearchError};
use exec_js::search_types::{Doc, SearchQuery};
use exec_js::typesense::TypesenseClient;

fn vars(pairs: &[(&str, &str)]) -> Vec<(String, String)> {
    pairs.iter().map(|(k, v)| (k.to_string(), v.to_string())).collect()
}

fn query() -> SearchQuery {
    SearchQuery { q: Some("x".to_string()), filters: vec![], sort: vec![], facets: vec![], page: None, per_page: None, offset: None, highlight: None }
}

#[test]
fn config_defaults() {
    let c = SearchConfig::from_env(&Vec::new()).unwrap();
    assert_eq!(c.endpoint, "http://localhost:9200");
    assert_eq!(c.timeout_secs, 30);
    assert_eq!(c.max_retries, 3);
    assert_eq!(c.log_level, "info");
    assert_eq!(c.username, None);
    assert_eq!(c.api_key, None);
    assert_eq!(c.timeout(), std::time::Duration::from_secs(30));
}

#[test]
fn config_reads_the_snapshot() {
    let env = vars(&[
        ("SEARCH_PROVIDER_ENDPOINT", "http://search:9200"),
        ("SEARCH_PROVIDER_TIMEOUT", "+7"),
        ("SEARCH_PROVIDER_MAX_RETRIES", "5"),
        ("ELASTIC_USERNAME", "elastic"),
        ("SEARCH_PROVIDER_TIMEOUT", "12"),
    ]);
    let c = SearchConfig::from_env(&env).unwrap();
    assert_eq!(c.endpoint, "http://search:9200");
    assert_eq!(c.timeout_secs, 12);
    assert_eq!(c.max_retries, 5);
    assert_eq!(c.username, Some("elastic".to_string()));
    assert_eq!(c.password, None);
    assert_eq!(c.timeout(), std::time::Duration::from_secs(12));
}

#[test]
fn config_rejects_bad_numbers() {
    assert!(SearchConfig::from_env(&vars(&[("SEARCH_PROVIDER_TIMEOUT", "soon")])).is_err());
    assert!(SearchConfig::from_env(&vars(&[("SEARCH_PROVIDER_MAX_RETRIES", "4294967296")])).is_err());
    assert!(SearchConfig::from_env(&vars(&[("SEARCH_PROVIDER_TIMEOUT", "-1")])).is_err());
}

#[test]
fn client_with_bad_config_fails() {
    let r = OpenSearchClient::new(&vars(&[("SEARCH_PROVIDER_TIMEOUT", "x")]));
    assert!(matches!(r, Err(SearchError::Internal(m)) if m.starts_with("Config error: ")));
}

#[test]
fn opensearch_operations_are_not_implemented() {
    let c = OpenSearchClient::new(&Vec::new()).unwrap();
    let expected = SearchError::Internal("OpenSearch operations not yet implemented in WASM".to_string());
    assert_eq!(c.create_index("i".to_string(), None), Err(expected.clone()));
    assert_eq!(c.upsert("i".to_string(), Doc { id: "1".to_string(), content: "{}".to_string() }), Err(expected.clone()));
    assert_eq!(c.search("i".to_string(), query()), Err(expected.clone()));
    assert_eq!(c.get("i".to_string(), "1".to_string()), Err(expected.clone()));
    assert!(matches!(c.stream_search("i".to_string(), query()), Err(e) if e == expected));
}

#[test]
fn typesense_operations_are_not_implemented() {
    let c = TypesenseClient::new(&Vec::new()).unwrap();
    let expected = SearchError::Internal("Typesense operations not yet implemented in WASM".to_string());
    assert_eq!(c.list_indexes(), Err(expected.clone()));
    assert_eq!(c.delete_many("i".to_string(), vec!["1".to_string()]), Err(expected.clone()));
    assert_eq!(c.get_schema("i".to_string()), Err(expected));
}

#[test]
fn search_error_mapping() {
    assert_eq!(boundary_search_error(SearchError::IndexNotFound("i".to_string())), BoundarySearchError::IndexNotFound);
    assert_eq!(boundary_search_error(SearchError::InvalidQuery("q".to_string())), BoundarySearchError::InvalidQuery("q".to_string()));
    assert_eq!(boundary_search_error(SearchError::Unsupported("u".to_string())), BoundarySearchError::Unsupported);
    assert_eq!(boundary_search_error(SearchError::Internal("x".to_string())), BoundarySearchError::Internal("x".to_string()));
    assert_eq!(boundary_search_error(SearchError::Timeout), BoundarySearchError::Timeout);
    assert_eq!(boundary_search_error(SearchError::RateLimited), BoundarySearchError::RateLimited);
    assert_eq!(boundary_search_error(SearchError::Json("bad".to_string())), BoundarySearchError::Internal("bad".to_string()));
}
