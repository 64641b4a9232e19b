use dbmgr::args::initdb_args;
use dbmgr::args::initdb_program;
use dbmgr::args::pg_ctl_program;
use dbmgr::args::pg_kill_args;
use dbmgr::args::pg_start_args;
use dbmgr::args::pg_stop_args;
use dbmgr::args::redis_cli_program;
use dbmgr::args::redis_server_args;
use dbmgr::args::redis_server_program;
use dbmgr::args::redis_shutdown_args;
use dbmgr::config::ServiceConfig;

fn sample_config() -> ServiceConfig {
    ServiceConfig {
        pg_data: String::from(".dev-data/postgres"),
        pg_host: String::from("localhost"),
        pg_port: String::from("5432"),
        pg_user: String::from("admin"),
        pg_password: String::from("secret"),
        pg_db: String::from("appdb"),
        redis_host: String::from("localhost"),
        redis_port: String::from("6379"),
        redis_password: String::from(""),
        redis_dir: String::from(".dev-data/redis"),
    }
}

#[test]
fn tool_names() {
    assert_eq!(initdb_program(), "initdb");
    assert_eq!(pg_ctl_program(), "pg_ctl");
    assert_eq!(redis_server_program(), "redis-server");
    assert_eq!(redis_cli_program(), "redis-cli");
}

#[test]
fn initialization_arguments() {
    let cfg = sample_config();
    let pwfile = String::from(".dev-data/postgres/../.pgpass_init");
    assert_eq!(
        initdb_args(&cfg, &pwfile),
        vec![
            "-D",
            ".dev-data/postgres",
            "-U",
            "admin",
            "--pwfile",
            ".dev-data/postgres/../.pgpass_init",
            "--auth",
            "md5",
        ]
    );
}

#[test]
fn start_arguments_carry_port_and_log() {
    let cfg = sample_config();
    assert_eq!(
        pg_start_args(&cfg),
        vec![
            "start",
            "-D",
            ".dev-data/postgres",
            "-o",
            "-p 5432",
            "-l",
            ".dev-data/postgres/postgres.log",
        ]
    );
}

#[test]
fn graceful_stop_uses_fast_mode() {
    let cfg = sample_config();
    assert_eq!(pg_stop_args(&cfg), vec!["stop", "-D", ".dev-data/postgres", "-m", "fast"]);
}

#[test]
fn forceful_kill_names_the_pid() {
    assert_eq!(pg_kill_args(4242), vec!["kill", "KILL", "4242"]);
}

#[test]
fn cache_launch_arguments_daemonize() {
    let cfg = sample_config();
    let dir = String::from("/srv/cache");
    assert_eq!(
        redis_server_args(&cfg, &dir),
        vec![
            "--port",
            "6379",
            "--daemonize",
            "yes",
            "--logfile",
            "/srv/cache/redis.log",
            "--pidfile",
            "/srv/cache/redis.pid",
            "--dir",
            "/srv/cache",
        ]
    );
}

#[test]
fn cache_shutdown_skips_the_snapshot() {
    let cfg = sample_config();
    assert_eq!(
        redis_shutdown_args(&cfg),
        vec!["-h", "localhost", "-p", "6379", "shutdown", "nosave"]
    );
}
