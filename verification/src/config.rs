//! The business configuration handed in by the environment: the account
//! credentials for the package-fetching tool and the coordinates of the
//! external store.  Reading the environment happens outside the library;
//! the record itself is plain data.

use vstd::prelude::*;

verus! {

/// The configuration of the daemon, wired in at start-up.
#[derive(Debug, Clone)]
pub struct Config {
    pub steam_username: String,
    pub steam_password: String,
    pub db_addr: String,
    pub db_user: String,
    pub db_password: String,
}

} // verus!
