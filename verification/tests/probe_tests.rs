use dbmgr::config::ServiceConfig;
use dbmgr::probe::pg_conn_string;
use dbmgr::probe::redis_url;

fn sample_config() -> ServiceConfig {
    ServiceConfig {
        pg_data: String::from(".dev-data/postgres"),
        pg_host: String::from("db.local"),
        pg_port: String::from("5433"),
        pg_user: String::from("admin"),
        pg_password: String::from("pw"),
        pg_db: String::from("appdb"),
        redis_host: String::from("cache.local"),
        redis_port: String::from("6380"),
        redis_password: String::from(""),
        redis_dir: String::from(".dev-data/redis"),
    }
}

#[test]
fn relational_probe_targets_maintenance_database() {
    // The configured application database is "appdb" and may not exist yet;
    // the probe must name the administrative maintenance database instead,
    // with a bounded connection timeout.
    let cfg = sample_config();
    assert_eq!(
        pg_conn_string(&cfg),
        "host=db.local port=5433 user=admin password=pw dbname=postgres connect_timeout=3"
    );
    assert!(!pg_conn_string(&cfg).contains("appdb"));
}

#[test]
fn relational_probe_is_independent_of_application_database() {
    let a = sample_config();
    let mut b = sample_config();
    b.pg_db = String::from("an-entirely-different-db");
    assert_eq!(pg_conn_string(&a), pg_conn_string(&b));
}

#[test]
fn cache_url_without_password_has_no_credentials() {
    let cfg = sample_config();
    assert_eq!(redis_url(&cfg), "redis://cache.local:6380");
}

#[test]
fn cache_url_with_password_embeds_it() {
    let mut cfg = sample_config();
    cfg.redis_password = String::from("hunter");
    assert_eq!(redis_url(&cfg), "redis://:hunter@cache.local:6380");
}
