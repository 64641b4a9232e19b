use vstd::prelude::*;

verus! {

/// Connection and filesystem settings for the two managed services.
///
/// A value of this type is supplied by the caller and never mutated by the
/// library: every operation derives paths, command arguments and probe
/// targets from these fields and nothing else.
pub struct ServiceConfig {
    /// Data directory of the relational engine.
    pub pg_data: String,
    /// Host the relational engine listens on.
    pub pg_host: String,
    /// Port the relational engine listens on, as decimal text.
    pub pg_port: String,
    /// Administrative user of the relational engine.
    pub pg_user: String,
    /// Password of the administrative user.
    pub pg_password: String,
    /// Name of the application database. Liveness probes deliberately do
    /// not use it: it may not exist yet.
    pub pg_db: String,
    /// Host the cache engine listens on.
    pub redis_host: String,
    /// Port the cache engine listens on, as decimal text.
    pub redis_port: String,
    /// Password of the cache engine; empty means no authentication.
    pub redis_password: String,
    /// Working directory of the cache engine.
    pub redis_dir: String,
}

} // verus!
