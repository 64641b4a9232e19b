use vstd::prelude::*;

use crate::config::ServiceConfig;

verus! {

/// The sentinel file whose existence marks a completed one-time
/// initialization of the relational data directory.
pub open spec fn spec_pg_marker_path(data: Seq<char>) -> Seq<char> {
    data + "/PG_VERSION"@
}

pub fn pg_marker_path(cfg: &ServiceConfig) -> (r: String)
    ensures
        r@ == spec_pg_marker_path(cfg.pg_data@),
{
    cfg.pg_data.clone().concat("/PG_VERSION")
}

/// The transient credential file handed to the initialization tool; it is
/// written immediately before the tool runs and removed on every path
/// afterwards.
pub open spec fn spec_pg_pwfile_path(data: Seq<char>) -> Seq<char> {
    data + "/../.pgpass_init"@
}

pub fn pg_pwfile_path(cfg: &ServiceConfig) -> (r: String)
    ensures
        r@ == spec_pg_pwfile_path(cfg.pg_data@),
{
    cfg.pg_data.clone().concat("/../.pgpass_init")
}

/// The server log file kept inside the relational data directory.
pub open spec fn spec_pg_log_path(data: Seq<char>) -> Seq<char> {
    data + "/postgres.log"@
}

pub fn pg_log_path(cfg: &ServiceConfig) -> (r: String)
    ensures
        r@ == spec_pg_log_path(cfg.pg_data@),
{
    cfg.pg_data.clone().concat("/postgres.log")
}

/// The pid file the relational engine writes while a server process exists.
pub open spec fn spec_pg_pidfile_path(data: Seq<char>) -> Seq<char> {
    data + "/postmaster.pid"@
}

pub fn pg_pidfile_path(cfg: &ServiceConfig) -> (r: String)
    ensures
        r@ == spec_pg_pidfile_path(cfg.pg_data@),
{
    cfg.pg_data.clone().concat("/postmaster.pid")
}

/// The cache engine's log file inside its (already canonicalized) working
/// directory.
pub open spec fn spec_redis_log_path(dir: Seq<char>) -> Seq<char> {
    dir + "/redis.log"@
}

pub fn redis_log_path(dir: &String) -> (r: String)
    ensures
        r@ == spec_redis_log_path(dir@),
{
    dir.clone().concat("/redis.log")
}

/// The extended-path-length prefix some operating systems put in front of a
/// canonicalized path. The cache engine's argument parser does not accept
/// it, so it is stripped before the path is handed over.
pub open spec fn unc_prefix() -> Seq<char> {
    seq!['\\', '\\', '?', '\\']
}

/// The path text with every occurrence of the extended-path-length prefix
/// removed, scanning left to right without overlap.
pub open spec fn spec_strip_unc(s: Seq<char>) -> Seq<char>
    decreases s.len(),
{
    if s.len() >= 4 && s.subrange(0, 4) == unc_prefix() {
        spec_strip_unc(s.skip(4))
    } else if s.len() == 0 {
        s
    } else {
        seq![s[0]] + spec_strip_unc(s.skip(1))
    }
}

pub fn strip_unc_prefix(s: &str) -> (r: String)
    ensures
        r@ == spec_strip_unc(s@),
{
    let n = s.unicode_len();
    let mut out = String::new();
    let mut i: usize = 0;
    proof {
        assert(s@.skip(0) =~= s@);
        assert(out@ + spec_strip_unc(s@) =~= spec_strip_unc(s@));
    }
    while i < n
        invariant
            0 <= i <= n,
            n == s@.len(),
            out@ + spec_strip_unc(s@.skip(i as int)) == spec_strip_unc(s@),
        decreases n - i,
    {
        if n - i >= 4 && s.get_char(i) == '\\' && s.get_char(i + 1) == '\\' && s.get_char(i + 2)
            == '?' && s.get_char(i + 3) == '\\' {
            proof {
                let t = s@.skip(i as int);
                assert(t.subrange(0, 4) =~= unc_prefix());
                assert(t.skip(4) =~= s@.skip(i as int + 4));
            }
            i += 4;
        } else {
            let piece = s.substring_char(i, i + 1);
            out.append(piece);
            proof {
                let t = s@.skip(i as int);
                assert(!(t.len() >= 4 && t.subrange(0, 4) == unc_prefix())) by {
                    if t.len() >= 4 && t.subrange(0, 4) == unc_prefix() {
                        assert(t.subrange(0, 4)[0] == unc_prefix()[0]);
                        assert(t.subrange(0, 4)[1] == unc_prefix()[1]);
                        assert(t.subrange(0, 4)[2] == unc_prefix()[2]);
                        assert(t.subrange(0, 4)[3] == unc_prefix()[3]);
                        assert(s@[i as int] == '\\');
                        assert(s@[i as int + 1] == '\\');
                        assert(s@[i as int + 2] == '?');
                        assert(s@[i as int + 3] == '\\');
                    }
                }
                assert(spec_strip_unc(t) == seq![t[0]] + spec_strip_unc(t.skip(1)));
                assert(s@.subrange(i as int, i as int + 1) =~= seq![t[0]]);
                assert(t.skip(1) =~= s@.skip(i as int + 1));
                assert(out@ + spec_strip_unc(s@.skip(i as int + 1)) =~= spec_strip_unc(s@));
            }
            i += 1;
        }
    }
    proof {
        assert(s@.skip(i as int) =~= Seq::<char>::empty());
        assert(out@ =~= spec_strip_unc(s@));
    }
    out
}

/// The cache engine's pid file inside its working directory.
pub open spec fn spec_redis_pid_path(dir: Seq<char>) -> Seq<char> {
    dir + "/redis.pid"@
}

pub fn redis_pid_path(dir: &String) -> (r: String)
    ensures
        r@ == spec_redis_pid_path(dir@),
{
    dir.clone().concat("/redis.pid")
}

} // verus!
