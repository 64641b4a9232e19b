use dbmgr::config::ServiceConfig;
use dbmgr::numeric::u32_to_decimal;
use dbmgr::paths::pg_log_path;
use dbmgr::paths::pg_marker_path;
use dbmgr::paths::pg_pidfile_path;
use dbmgr::paths::pg_pwfile_path;
use dbmgr::paths::redis_log_path;
use dbmgr::paths::redis_pid_path;
use dbmgr::paths::strip_unc_prefix;

fn sample_config() -> ServiceConfig {
    ServiceConfig {
        pg_data: String::from(".dev-data/postgres"),
        pg_host: String::from("localhost"),
        pg_port: String::from("5432"),
        pg_user: String::from("admin"),
        pg_password: String::from("secret"),
        pg_db: String::from("appdb"),
        redis_host: String::from("localhost"),
        redis_port: String::from("6379"),
        redis_password: String::from(""),
        redis_dir: String::from(".dev-data/redis"),
    }
}

#[test]
fn relational_paths_sit_inside_the_data_directory() {
    let cfg = sample_config();
    assert_eq!(pg_marker_path(&cfg), ".dev-data/postgres/PG_VERSION");
    assert_eq!(pg_pwfile_path(&cfg), ".dev-data/postgres/../.pgpass_init");
    assert_eq!(pg_log_path(&cfg), ".dev-data/postgres/postgres.log");
    assert_eq!(pg_pidfile_path(&cfg), ".dev-data/postgres/postmaster.pid");
}

#[test]
fn cache_paths_sit_inside_the_working_directory() {
    let dir = String::from("/srv/cache");
    assert_eq!(redis_log_path(&dir), "/srv/cache/redis.log");
    assert_eq!(redis_pid_path(&dir), "/srv/cache/redis.pid");
}

#[test]
fn strip_removes_extended_length_prefix() {
    assert_eq!(strip_unc_prefix("\\\\?\\C:\\data\\redis"), "C:\\data\\redis");
}

#[test]
fn strip_leaves_ordinary_paths_alone() {
    assert_eq!(strip_unc_prefix("/home/dev/.dev-data/redis"), "/home/dev/.dev-data/redis");
    assert_eq!(strip_unc_prefix(""), "");
    // A partial prefix is not a prefix.
    assert_eq!(strip_unc_prefix("\\\\?x"), "\\\\?x");
}

#[test]
fn strip_removes_every_occurrence() {
    assert_eq!(strip_unc_prefix("\\\\?\\a\\\\?\\b"), "ab");
}

#[test]
fn decimal_rendering_is_plain() {
    assert_eq!(u32_to_decimal(0), "0");
    assert_eq!(u32_to_decimal(7), "7");
    assert_eq!(u32_to_decimal(42), "42");
    assert_eq!(u32_to_decimal(4294967295), "4294967295");
}
