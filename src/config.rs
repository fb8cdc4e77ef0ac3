//! Where the store is found, fixed once at start-up.

use vstd::prelude::*;

verus! {

/// Database that holds the mappings.
pub const DB_NAME: &'static str = "url_shortener";

/// Collection, within `DB_NAME`, that holds the mappings.
pub const COLLECTION_NAME: &'static str = "urls";

/// Settings handed to the store when it is built.
#[derive(Debug, Clone)]
pub struct StoreConfig {
    pub connection_uri: String,
    pub db_name: String,
    pub collection_name: String,
}

/// No connection string was supplied.
#[derive(Debug, Clone, Copy, PartialEq, Eq, Structural)]
pub enum ConfigError {
    MissingConnectionString,
}

impl StoreConfig {
    /// Builds the settings from the two candidate connection strings, the
    /// first one preferred; fails when neither is present.
    pub fn from_connection_strings(mongo_uri: Option<String>, database_url: Option<String>) -> (r:
        Result<StoreConfig, ConfigError>)
        ensures
            r is Ok <==> mongo_uri is Some || database_url is Some,
            r matches Err(e) ==> e == ConfigError::MissingConnectionString,
            r matches Ok(c) ==> {
                &&& c.connection_uri == match mongo_uri {
                    Some(u) => u,
                    None => database_url.unwrap(),
                }
                &&& c.db_name@ == DB_NAME@
                &&& c.collection_name@ == COLLECTION_NAME@
            },
    {
        let connection_uri = match mongo_uri {
            Some(u) => u,
            None => match database_url {
                Some(u) => u,
                None => {
                    return Err(ConfigError::MissingConnectionString);
                },
            },
        };
        Ok(StoreConfig {
            connection_uri,
            db_name: DB_NAME.to_owned(),
            collection_name: COLLECTION_NAME.to_owned(),
        })
    }
}

} // verus!
