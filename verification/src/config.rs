//! Where the directory finds its store.

use vstd::prelude::*;
use vstd::string::*;

verus! {

/// The database that holds the collection.
pub const DB_NAME: &'static str = "myApp";

/// The collection of user records.
pub const COLL_NAME: &'static str = "users";

/// The store that is used where none is configured: the local one.
pub const LOCAL_STORE_URI: &'static str = "mongodb://localhost:27017";

/// The connection string to use: the configured one as it is, the local
/// store's where none is configured.
pub fn store_uri(configured: Option<String>) -> (uri: String)
    ensures
        uri@ == match configured {
            Some(given) => given@,
            None => LOCAL_STORE_URI@,
        },
{
    match configured {
        Some(given) => given,
        None => String::from_str(LOCAL_STORE_URI),
    }
}

} // verus!
