use logstore::config::{resolve_path, StoreConfig};
use logstore::schema::get_schema;

//
// SQL schema tests
//

#[test]
fn get_schema_creates_a_table() {
    assert!(get_schema().contains("CREATE TABLE"))
}

#[test]
fn get_schema_wont_fail_if_table_already_exists() {
    assert!(get_schema().contains("IF NOT EXISTS"))
}

//
// Path resolution tests
//

#[test]
fn get_store_path_returns_expected_default_value() {
    assert_eq!("log.db", resolve_path(&StoreConfig { store_path: None }));
}

#[test]
fn resolve_path_returns_the_configured_override() {
    let config = StoreConfig {
        store_path: Some(String::from("custom/location.db")),
    };
    assert_eq!("custom/location.db", resolve_path(&config));
}
