use vstd::prelude::*;

verus! {

/// Settings of the service. `jwt_expiration` is the lifetime of a token in
/// minutes.
#[derive(Debug)]
pub struct Config {
    pub database_url: String,
    pub jwt_secret: String,
    pub jwt_expiration: i64,
    pub port: u16,
}

} // verus!
