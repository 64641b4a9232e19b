use vstd::prelude::*;

use crate::config::ServiceConfig;

verus! {

/// The connection string used to probe the relational service for liveness.
///
/// It targets the engine's administrative maintenance database, never the
/// application database: the application database may not exist until a
/// separate installation step has run, and probing it would turn "server is
/// up" into a false negative. The bounded connection timeout keeps a dead
/// host from blocking the caller.
pub open spec fn spec_pg_conn_string(
    host: Seq<char>,
    port: Seq<char>,
    user: Seq<char>,
    password: Seq<char>,
) -> Seq<char> {
    "host="@ + host + " port="@ + port + " user="@ + user + " password="@ + password
        + " dbname=postgres connect_timeout=3"@
}

pub fn pg_conn_string(cfg: &ServiceConfig) -> (r: String)
    ensures
        r@ == spec_pg_conn_string(cfg.pg_host@, cfg.pg_port@, cfg.pg_user@, cfg.pg_password@),
{
    let mut s = String::new();
    s.append("host=");
    s.append(cfg.pg_host.as_str());
    s.append(" port=");
    s.append(cfg.pg_port.as_str());
    s.append(" user=");
    s.append(cfg.pg_user.as_str());
    s.append(" password=");
    s.append(cfg.pg_password.as_str());
    s.append(" dbname=postgres connect_timeout=3");
    proof {
        assert(s@ == spec_pg_conn_string(
            cfg.pg_host@,
            cfg.pg_port@,
            cfg.pg_user@,
            cfg.pg_password@,
        ));
    }
    s
}

/// The probe target never depends on the application database name: two
/// configurations that agree on host, port, user and password give the very
/// same probe string, whatever their database fields hold.
pub proof fn lemma_probe_ignores_application_db(a: ServiceConfig, b: ServiceConfig)
    requires
        a.pg_host@ == b.pg_host@,
        a.pg_port@ == b.pg_port@,
        a.pg_user@ == b.pg_user@,
        a.pg_password@ == b.pg_password@,
    ensures
        spec_pg_conn_string(a.pg_host@, a.pg_port@, a.pg_user@, a.pg_password@)
            == spec_pg_conn_string(b.pg_host@, b.pg_port@, b.pg_user@, b.pg_password@),
{
}

/// The connection URL used both to probe the cache service and to reach it
/// for a shutdown command. An empty password means the target carries no
/// authentication at all.
pub open spec fn spec_redis_url(
    host: Seq<char>,
    port: Seq<char>,
    password: Seq<char>,
) -> Seq<char> {
    if password.len() == 0 {
        "redis://"@ + host + ":"@ + port
    } else {
        "redis://:"@ + password + "@"@ + host + ":"@ + port
    }
}

pub fn redis_url(cfg: &ServiceConfig) -> (r: String)
    ensures
        r@ == spec_redis_url(cfg.redis_host@, cfg.redis_port@, cfg.redis_password@),
{
    let mut s = String::new();
    if cfg.redis_password.as_str().is_empty() {
        s.append("redis://");
        s.append(cfg.redis_host.as_str());
        s.append(":");
        s.append(cfg.redis_port.as_str());
    } else {
        s.append("redis://:");
        s.append(cfg.redis_password.as_str());
        s.append("@");
        s.append(cfg.redis_host.as_str());
        s.append(":");
        s.append(cfg.redis_port.as_str());
    }
    s
}

} // verus!
