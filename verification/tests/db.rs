use drone_telemetry::db::{drone_status_collection, MongoConfig};

#[test]
fn unset_values_fall_back() {
    let config = MongoConfig::resolve(None, None);
    assert_eq!(config.uri, "mongodb://localhost:27017");
    assert_eq!(config.db_name, "test_db");
}

#[test]
fn given_values_are_taken() {
    let config = MongoConfig::resolve(
        Some("mongodb://store:27017".to_string()),
        Some("fleet".to_string()),
    );
    assert_eq!(config.uri, "mongodb://store:27017");
    assert_eq!(config.db_name, "fleet");
    let config = MongoConfig::resolve(None, Some("fleet".to_string()));
    assert_eq!(config.uri, "mongodb://localhost:27017");
    assert_eq!(config.db_name, "fleet");
}

#[test]
fn records_go_to_one_collection() {
    assert_eq!(drone_status_collection(), "drone_Status");
}
