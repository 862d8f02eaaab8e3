//! Where the records are stored: the settings of the document store.

use vstd::prelude::*;

verus! {

/// The settings with which the document store is reached.
#[derive(Clone, Debug, PartialEq, Eq)]
pub struct MongoConfig {
    /// Connection string of the server.
    pub uri: String,
    /// Name of the database.
    pub db_name: String,
}

impl MongoConfig {
    /// The settings for the values that the environment gives: a value that
    /// is not set falls back to a server on this machine and to the database
    /// `test_db`.
    pub fn resolve(uri: Option<String>, db_name: Option<String>) -> (config: MongoConfig)
        ensures
            config.uri@ == match uri {
                Some(given) => given@,
                None => "mongodb://localhost:27017"@,
            },
            config.db_name@ == match db_name {
                Some(given) => given@,
                None => "test_db"@,
            },
    {
        let uri = match uri {
            Some(given) => given,
            None => "mongodb://localhost:27017".to_owned(),
        };
        let db_name = match db_name {
            Some(given) => given,
            None => "test_db".to_owned(),
        };
        MongoConfig { uri, db_name }
    }
}

/// The name of the collection that holds the telemetry records.
pub fn drone_status_collection() -> (name: &'static str)
    ensures
        name@ == "drone_Status"@,
{
    "drone_Status"
}

} // verus!
