use artemiss::config::{
    merge_db, merge_http, DbOptions, DbOverrides, HttpOptions, HttpOverrides,
};

fn no_http_overrides() -> HttpOverrides {
    HttpOverrides {
        connect_timeout_ms: None,
        timeout_ms: None,
        pool_idle_timeout_us: None,
        pool_max_idle_per_host: None,
        url: None,
        interval_ms: None,
        parallel: None,
    }
}

fn no_db_overrides() -> DbOverrides {
    DbOverrides {
        connect_timeout_ms: None,
        interval_ms: None,
        parallel: None,
        database_url: None,
        insecure: None,
    }
}

#[test]
fn http_defaults_match_documented_values() {
    let o = HttpOptions::with_defaults("http://example.test".to_string());
    assert_eq!(o.connect_timeout_ms, 15);
    assert_eq!(o.timeout_ms, 20);
    assert_eq!(o.pool_idle_timeout_us, 1);
    assert_eq!(o.pool_max_idle_per_host, 1);
    assert_eq!(o.url, "http://example.test");
    assert_eq!(o.interval_ms, 100);
    assert_eq!(o.parallel, 1);
}

#[test]
fn db_defaults_match_documented_values() {
    let o = DbOptions::with_defaults();
    assert_eq!(o.connect_timeout_ms, 15);
    assert_eq!(o.interval_ms, 100);
    assert_eq!(o.parallel, 1);
    assert_eq!(o.database_url, None);
    assert!(!o.insecure);
}

#[test]
fn http_env_overrides_take_precedence() {
    let base = HttpOptions::with_defaults("http://example.test".to_string());
    let merged = merge_http(
        base,
        HttpOverrides {
            connect_timeout_ms: Some(7),
            timeout_ms: Some(9),
            pool_idle_timeout_us: Some(11),
            pool_max_idle_per_host: Some(13),
            url: Some("http://other.test".to_string()),
            interval_ms: Some(250),
            parallel: Some(4),
        },
    );
    assert_eq!(merged.connect_timeout_ms, 7);
    assert_eq!(merged.timeout_ms, 9);
    assert_eq!(merged.pool_idle_timeout_us, 11);
    assert_eq!(merged.pool_max_idle_per_host, 13);
    assert_eq!(merged.url, "http://other.test");
    assert_eq!(merged.interval_ms, 250);
    assert_eq!(merged.parallel, 4);
}

#[test]
fn http_absent_overrides_keep_base_values() {
    let base = HttpOptions::with_defaults("http://example.test".to_string());
    let merged = merge_http(base, no_http_overrides());
    assert_eq!(merged.connect_timeout_ms, 15);
    assert_eq!(merged.timeout_ms, 20);
    assert_eq!(merged.pool_idle_timeout_us, 1);
    assert_eq!(merged.pool_max_idle_per_host, 1);
    assert_eq!(merged.url, "http://example.test");
    assert_eq!(merged.interval_ms, 100);
    assert_eq!(merged.parallel, 1);
}

#[test]
fn http_overrides_apply_per_field() {
    let base = HttpOptions::with_defaults("http://example.test".to_string());
    let merged = merge_http(
        base,
        HttpOverrides {
            parallel: Some(3),
            ..no_http_overrides()
        },
    );
    assert_eq!(merged.parallel, 3);
    assert_eq!(merged.connect_timeout_ms, 15);
    assert_eq!(merged.url, "http://example.test");
}

#[test]
fn db_env_can_supply_missing_descriptor() {
    let base = DbOptions::with_defaults();
    let merged = merge_db(
        base,
        DbOverrides {
            database_url: Some("mysql://root@db.test:3306/app".to_string()),
            ..no_db_overrides()
        },
    );
    assert_eq!(
        merged.database_url.as_deref(),
        Some("mysql://root@db.test:3306/app")
    );
}

#[test]
fn db_env_cannot_remove_descriptor() {
    let mut base = DbOptions::with_defaults();
    base.database_url = Some("mysql://root@db.test:3306/app".to_string());
    let merged = merge_db(base, no_db_overrides());
    assert_eq!(
        merged.database_url.as_deref(),
        Some("mysql://root@db.test:3306/app")
    );
}

#[test]
fn db_env_overrides_take_precedence() {
    let mut base = DbOptions::with_defaults();
    base.database_url = Some("mysql://root@a.test/app".to_string());
    let merged = merge_db(
        base,
        DbOverrides {
            connect_timeout_ms: Some(40),
            interval_ms: Some(500),
            parallel: Some(2),
            database_url: Some("mysql://root@b.test/app".to_string()),
            insecure: Some(true),
        },
    );
    assert_eq!(merged.connect_timeout_ms, 40);
    assert_eq!(merged.interval_ms, 500);
    assert_eq!(merged.parallel, 2);
    assert_eq!(merged.database_url.as_deref(), Some("mysql://root@b.test/app"));
    assert!(merged.insecure);
}
