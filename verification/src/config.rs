//! Process configuration: read once at startup by the surrounding program and
//! passed by reference; immutable afterwards. Only the pure assembly of the
//! value lives here.

use vstd::prelude::*;
use crate::text::{i64_dec, spec_idec};

verus! {

/// Immutable process configuration.
#[derive(Clone, Debug)]
pub struct Config {
    pub database_url: String,
    pub jwt_secret: String,
    pub jwt_maxage: String,
    pub port: u16,
}

impl Config {
    /// Assembles the configuration from already-read values. The token
    /// max-age arrives as an integer and is stored in its decimal rendering;
    /// the listening port is fixed at 8080.
    pub fn new(database_url: String, jwt_secret: String, jwt_maxage: i64) -> (r: Config)
        ensures
            r.database_url@ == database_url@,
            r.jwt_secret@ == jwt_secret@,
            r.jwt_maxage@ == spec_idec(jwt_maxage as int),
            r.port == 8080,
    {
        Config { database_url, jwt_secret, jwt_maxage: i64_dec(jwt_maxage), port: 8080 }
    }
}

} // verus!
