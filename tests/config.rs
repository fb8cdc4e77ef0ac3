use url_shortener::config::{ConfigError, StoreConfig, COLLECTION_NAME, DB_NAME};

#[test]
fn first_connection_string_is_preferred() {
    let c = StoreConfig::from_connection_strings(
        Some("mongodb://primary:27017".to_string()),
        Some("mongodb://fallback:27017".to_string()),
    )
    .unwrap();
    assert_eq!(c.connection_uri, "mongodb://primary:27017");
    assert_eq!(c.db_name, "url_shortener");
    assert_eq!(c.collection_name, "urls");
}

#[test]
fn second_connection_string_is_the_fallback() {
    let c = StoreConfig::from_connection_strings(None, Some("mongodb://fallback:27017".to_string()))
        .unwrap();
    assert_eq!(c.connection_uri, "mongodb://fallback:27017");
    assert_eq!(c.db_name, DB_NAME);
    assert_eq!(c.collection_name, COLLECTION_NAME);
}

#[test]
fn missing_connection_string_is_an_error() {
    assert_eq!(
        StoreConfig::from_connection_strings(None, None).unwrap_err(),
        ConfigError::MissingConnectionString
    );
}
