use vstd::prelude::*;

use crate::config::ServiceConfig;
use crate::numeric::spec_decimal;
use crate::numeric::u32_to_decimal;
use crate::paths::pg_log_path;
use crate::paths::redis_log_path;
use crate::paths::redis_pid_path;
use crate::paths::spec_pg_log_path;
use crate::paths::spec_redis_log_path;
use crate::paths::spec_redis_pid_path;

verus! {

/// The relational engine's one-time initialization tool.
pub fn initdb_program() -> (s: &'static str)
    ensures
        s@ == "initdb"@,
{
    "initdb"
}

/// The relational engine's control tool, used for start, stop and kill.
pub fn pg_ctl_program() -> (s: &'static str)
    ensures
        s@ == "pg_ctl"@,
{
    "pg_ctl"
}

/// The cache engine's server executable.
pub fn redis_server_program() -> (s: &'static str)
    ensures
        s@ == "redis-server"@,
{
    "redis-server"
}

/// The cache engine's command-line client, used for the shutdown command.
pub fn redis_cli_program() -> (s: &'static str)
    ensures
        s@ == "redis-cli"@,
{
    "redis-cli"
}

/// Arguments for the initialization tool: data directory, administrative
/// user, transient credential file, and password authentication for every
/// later connection.
pub fn initdb_args(cfg: &ServiceConfig, pwfile: &String) -> (a: Vec<String>)
    ensures
        a@.len() == 8,
        a@[0]@ == "-D"@,
        a@[1]@ == cfg.pg_data@,
        a@[2]@ == "-U"@,
        a@[3]@ == cfg.pg_user@,
        a@[4]@ == "--pwfile"@,
        a@[5]@ == pwfile@,
        a@[6]@ == "--auth"@,
        a@[7]@ == "md5"@,
{
    let mut a: Vec<String> = Vec::new();
    a.push(String::from_str("-D"));
    a.push(cfg.pg_data.clone());
    a.push(String::from_str("-U"));
    a.push(cfg.pg_user.clone());
    a.push(String::from_str("--pwfile"));
    a.push(pwfile.clone());
    a.push(String::from_str("--auth"));
    a.push(String::from_str("md5"));
    a
}

/// The inline option string handed to the control tool's start action; it
/// carries the listen port.
pub open spec fn spec_pg_start_opts(port: Seq<char>) -> Seq<char> {
    "-p "@ + port
}

/// Arguments for the control tool's start action: data directory, inline
/// listen-port option, and a log file inside the data directory.
pub fn pg_start_args(cfg: &ServiceConfig) -> (a: Vec<String>)
    ensures
        a@.len() == 7,
        a@[0]@ == "start"@,
        a@[1]@ == "-D"@,
        a@[2]@ == cfg.pg_data@,
        a@[3]@ == "-o"@,
        a@[4]@ == spec_pg_start_opts(cfg.pg_port@),
        a@[5]@ == "-l"@,
        a@[6]@ == spec_pg_log_path(cfg.pg_data@),
{
    let mut opts = String::from_str("-p ");
    opts.append(cfg.pg_port.as_str());
    let mut a: Vec<String> = Vec::new();
    a.push(String::from_str("start"));
    a.push(String::from_str("-D"));
    a.push(cfg.pg_data.clone());
    a.push(String::from_str("-o"));
    a.push(opts);
    a.push(String::from_str("-l"));
    a.push(pg_log_path(cfg));
    a
}

/// Arguments for the graceful stop: the "fast" shutdown mode disconnects
/// clients and shuts down cleanly.
pub fn pg_stop_args(cfg: &ServiceConfig) -> (a: Vec<String>)
    ensures
        a@.len() == 5,
        a@[0]@ == "stop"@,
        a@[1]@ == "-D"@,
        a@[2]@ == cfg.pg_data@,
        a@[3]@ == "-m"@,
        a@[4]@ == "fast"@,
{
    let mut a: Vec<String> = Vec::new();
    a.push(String::from_str("stop"));
    a.push(String::from_str("-D"));
    a.push(cfg.pg_data.clone());
    a.push(String::from_str("-m"));
    a.push(String::from_str("fast"));
    a
}

/// Arguments for the forceful fallback: route a kill signal through the
/// control tool at the previously recorded process id.
pub fn pg_kill_args(pid: u32) -> (a: Vec<String>)
    ensures
        a@.len() == 3,
        a@[0]@ == "kill"@,
        a@[1]@ == "KILL"@,
        a@[2]@ == spec_decimal(pid as nat),
{
    let mut a: Vec<String> = Vec::new();
    a.push(String::from_str("kill"));
    a.push(String::from_str("KILL"));
    a.push(u32_to_decimal(pid));
    a
}

/// Arguments that launch the cache engine detached in the background, with
/// its port, log file, pid file and working directory all made explicit.
/// `dir` is the canonicalized working directory.
pub fn redis_server_args(cfg: &ServiceConfig, dir: &String) -> (a: Vec<String>)
    ensures
        a@.len() == 10,
        a@[0]@ == "--port"@,
        a@[1]@ == cfg.redis_port@,
        a@[2]@ == "--daemonize"@,
        a@[3]@ == "yes"@,
        a@[4]@ == "--logfile"@,
        a@[5]@ == spec_redis_log_path(dir@),
        a@[6]@ == "--pidfile"@,
        a@[7]@ == spec_redis_pid_path(dir@),
        a@[8]@ == "--dir"@,
        a@[9]@ == dir@,
{
    let mut a: Vec<String> = Vec::new();
    a.push(String::from_str("--port"));
    a.push(cfg.redis_port.clone());
    a.push(String::from_str("--daemonize"));
    a.push(String::from_str("yes"));
    a.push(String::from_str("--logfile"));
    a.push(redis_log_path(dir));
    a.push(String::from_str("--pidfile"));
    a.push(redis_pid_path(dir));
    a.push(String::from_str("--dir"));
    a.push(dir.clone());
    a
}

/// Arguments for the client command that asks a running cache instance to
/// shut down without persisting a snapshot.
pub fn redis_shutdown_args(cfg: &ServiceConfig) -> (a: Vec<String>)
    ensures
        a@.len() == 6,
        a@[0]@ == "-h"@,
        a@[1]@ == cfg.redis_host@,
        a@[2]@ == "-p"@,
        a@[3]@ == cfg.redis_port@,
        a@[4]@ == "shutdown"@,
        a@[5]@ == "nosave"@,
{
    let mut a: Vec<String> = Vec::new();
    a.push(String::from_str("-h"));
    a.push(cfg.redis_host.clone());
    a.push(String::from_str("-p"));
    a.push(cfg.redis_port.clone());
    a.push(String::from_str("shutdown"));
    a.push(String::from_str("nosave"));
    a
}

} // verus!
