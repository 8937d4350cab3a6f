use artemiss::config::{DbOptions, HttpOptions};
use artemiss::probe::{
    build_db_probes, build_http_probes, classify_db_outcome, classify_http_outcome,
    db_error_record, http_error_record, ConfigurationError, DbOutcome, HttpOutcome, ProbeError,
    Target,
};

fn http_opts(parallel: usize) -> HttpOptions {
    let mut o = HttpOptions::with_defaults("http://example.test".to_string());
    o.parallel = parallel;
    o
}

fn db_opts(parallel: usize, url: Option<&str>) -> DbOptions {
    let mut o = DbOptions::with_defaults();
    o.parallel = parallel;
    o.database_url = url.map(|u| u.to_string());
    o
}

#[test]
fn one_independent_probe_per_worker() {
    let probes = build_http_probes(&http_opts(4)).unwrap();
    assert_eq!(probes.len(), 4);
    for (i, p) in probes.iter().enumerate() {
        assert_eq!(p.worker_id, i);
        match &p.target {
            Target::Http {
                url,
                connect_timeout_ms,
                timeout_ms,
                pool_idle_timeout_us,
                pool_max_idle_per_host,
            } => {
                assert_eq!(url, "http://example.test");
                assert_eq!(*connect_timeout_ms, 15);
                assert_eq!(*timeout_ms, 20);
                assert_eq!(*pool_idle_timeout_us, 1);
                assert_eq!(*pool_max_idle_per_host, 1);
            }
            Target::Db { .. } => panic!("http configuration built a db target"),
        }
    }
    for i in 0..probes.len() {
        for j in 0..probes.len() {
            if i != j {
                assert_ne!(probes[i].worker_id, probes[j].worker_id);
            }
        }
    }
}

#[test]
fn zero_workers_rejected_before_any_probe_exists() {
    let r = build_http_probes(&http_opts(0));
    assert!(matches!(r, Err(ConfigurationError::ZeroWorkers)));
    let r = build_db_probes(&db_opts(0, Some("mysql://root@db.test/app")));
    assert!(matches!(r, Err(ConfigurationError::ZeroWorkers)));
}

#[test]
fn malformed_http_url_is_a_configuration_error() {
    let mut o = http_opts(2);
    o.url = "not a url at all".to_string();
    let r = build_http_probes(&o);
    assert!(matches!(r, Err(ConfigurationError::MalformedTarget(_))));
}

#[test]
fn well_formed_http_url_is_accepted() {
    let probes = build_http_probes(&http_opts(1)).unwrap();
    assert_eq!(probes.len(), 1);
}

#[test]
fn missing_db_descriptor_is_a_configuration_error() {
    let r = build_db_probes(&db_opts(1, None));
    assert!(matches!(r, Err(ConfigurationError::MissingTarget)));
}

#[test]
fn malformed_db_descriptor_is_a_configuration_error() {
    let r = build_db_probes(&db_opts(1, Some("::definitely not a descriptor::")));
    assert!(matches!(r, Err(ConfigurationError::MalformedTarget(_))));
}

#[test]
fn well_formed_db_descriptor_builds_probes() {
    let mut o = db_opts(3, Some("mysql://root@db.test:3306/app"));
    o.insecure = true;
    let probes = build_db_probes(&o).unwrap();
    assert_eq!(probes.len(), 3);
    for (i, p) in probes.iter().enumerate() {
        assert_eq!(p.worker_id, i);
        match &p.target {
            Target::Db {
                url,
                connect_timeout_ms,
                insecure,
            } => {
                assert_eq!(url, "mysql://root@db.test:3306/app");
                assert_eq!(*connect_timeout_ms, 15);
                assert!(*insecure);
            }
            Target::Http { .. } => panic!("db configuration built an http target"),
        }
    }
}

#[test]
fn http_server_error_response_still_counts_as_success() {
    let r = classify_http_outcome(HttpOutcome::Response { status: 500 });
    assert!(r.is_ok());
}

#[test]
fn http_ok_response_counts_as_success() {
    let r = classify_http_outcome(HttpOutcome::Response { status: 200 });
    assert!(r.is_ok());
}

#[test]
fn http_transport_failure_is_a_probe_error() {
    let r = classify_http_outcome(HttpOutcome::TransportError {
        detail: "connection refused".to_string(),
    });
    match r {
        Err(e) => assert_eq!(e.detail, "connection refused"),
        Ok(()) => panic!("a transport failure classified as success"),
    }
}

#[test]
fn db_connect_and_ping_success_counts_as_success() {
    let r = classify_db_outcome(DbOutcome::Pinged { ok: true });
    assert!(r.is_ok());
}

#[test]
fn db_failed_ping_is_a_probe_error() {
    let r = classify_db_outcome(DbOutcome::Pinged { ok: false });
    assert!(r.is_err());
}

#[test]
fn db_connect_failure_is_a_probe_error() {
    let r = classify_db_outcome(DbOutcome::ConnectError {
        detail: "connect timed out".to_string(),
    });
    match r {
        Err(e) => assert_eq!(e.detail, "connect timed out"),
        Ok(()) => panic!("a connect failure classified as success"),
    }
}

#[test]
fn http_error_record_carries_detail_and_timeouts() {
    let o = http_opts(1);
    let rec = http_error_record(
        ProbeError {
            detail: "timed out".to_string(),
        },
        &o,
    );
    assert_eq!(rec.detail, "timed out");
    assert_eq!(rec.connect_timeout_ms, 15);
    assert_eq!(rec.timeout_ms, Some(20));
}

#[test]
fn db_error_record_carries_detail_and_connect_timeout() {
    let o = db_opts(1, Some("mysql://root@db.test/app"));
    let rec = db_error_record(
        ProbeError {
            detail: "refused".to_string(),
        },
        &o,
    );
    assert_eq!(rec.detail, "refused");
    assert_eq!(rec.connect_timeout_ms, 15);
    assert_eq!(rec.timeout_ms, None);
}
