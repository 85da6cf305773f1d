use openvhost_commands::error::IpcError;
use openvhost_commands::logs::{
    check_catalogue, confined, confirm_site, derive_path, file_row, log_source_rows, ring_row,
    CatalogueCheck, LogNeedle, LogSource, LogSourceDto, LogSourceKindDto, PoolLog, ServiceName,
    SiteLogs, LOG_NEEDLE_MAX_BYTES,
};
use openvhost_commands::store::{store_down, DbHandle, STORE_DOWN_REASON, STORE_UNAVAILABLE};

#[test]
fn a_query_at_exactly_the_cap_is_accepted() {
    assert!(LogNeedle::parse(&"a".repeat(LOG_NEEDLE_MAX_BYTES)).is_ok());
}

#[test]
fn a_query_one_byte_over_the_cap_is_rejected() {
    assert!(LogNeedle::parse(&"a".repeat(LOG_NEEDLE_MAX_BYTES + 1)).is_err());
}

#[test]
fn the_cap_counts_bytes_not_characters() {
    // 128 two-byte characters are exactly the cap; one more is over it.
    assert!(LogNeedle::parse(&"é".repeat(128)).is_ok());
    match LogNeedle::parse(&"é".repeat(129)) {
        Err(IpcError::Validation { field, message }) => {
            assert_eq!(field, "needle");
            assert_eq!(message, "must be at most 256 bytes");
        }
        other => panic!("expected Validation on needle, got {:?}", other.map(|n| n.into_inner())),
    }
    assert_eq!(LogNeedle::parse("error").unwrap().into_inner(), "error");
}

#[test]
fn confined_rejects_a_path_outside_the_given_root() {
    assert!(confined("/etc/passwd".to_string(), "/home/x/logs").is_err());
}

#[test]
fn confined_accepts_a_path_under_the_given_root() {
    let inside = "/home/x/logs/nginx.error.log".to_string();
    assert_eq!(confined(inside.clone(), "/home/x/logs").unwrap(), inside);
}

#[test]
fn confinement_compares_whole_components() {
    match confined("/home/x/logsevil/a.log".to_string(), "/home/x/logs") {
        Err(IpcError::Core { message }) => assert_eq!(
            message,
            "internal error: derived log path /home/x/logsevil/a.log escaped /home/x/logs"
        ),
        other => panic!("expected Core, got {other:?}"),
    }
}

fn installed() -> Vec<String> {
    vec!["8.3".to_string()]
}

#[test]
fn uninstalled_php_major_is_rejected_with_a_validation_error() {
    let db: DbHandle<()> = DbHandle::Ready(());
    match check_catalogue(&LogSource::PhpFpm("7.4".into()), &db, &installed()) {
        CatalogueCheck::Refuse(IpcError::Validation { field, message }) => {
            assert_eq!(field, "php_version");
            assert_eq!(message, "PHP 7.4 is not installed");
        }
        other => panic!("expected a refusal, got {other:?}"),
    }
    assert!(matches!(
        check_catalogue(&LogSource::PhpFpm("8.3".into()), &db, &installed()),
        CatalogueCheck::Pass
    ));
}

#[test]
fn nginx_pools_and_rings_pass_even_with_no_store() {
    let db: DbHandle<()> = store_down();
    for source in [
        LogSource::NginxError,
        LogSource::NginxAccess,
        LogSource::ServiceRing("nginx".into()),
        LogSource::PhpFpm("8.3".into()),
    ] {
        assert!(matches!(check_catalogue(&source, &db, &installed()), CatalogueCheck::Pass));
    }
}

#[test]
fn a_site_log_is_refused_with_no_store_and_the_reason() {
    let db: DbHandle<()> = store_down();
    match check_catalogue(&LogSource::SiteAccess("ghost.localhost".into()), &db, &installed()) {
        CatalogueCheck::Refuse(IpcError::Core { message }) => {
            assert!(message.contains(STORE_UNAVAILABLE));
            assert!(message.contains(STORE_DOWN_REASON));
            assert!(!message.contains(".manage()"));
            assert!(message.ends_with(", so no site's log can be confirmed as one of yours"));
        }
        other => panic!("expected the store refusal, got {other:?}"),
    }
}

#[test]
fn a_site_log_is_looked_up_when_the_store_is_up() {
    let db: DbHandle<()> = DbHandle::Ready(());
    match check_catalogue(&LogSource::SiteError("hello.localhost".into()), &db, &[]) {
        CatalogueCheck::LookUpSite { domain } => assert_eq!(domain, "hello.localhost"),
        other => panic!("expected a lookup, got {other:?}"),
    }
}

#[test]
fn unknown_site_is_rejected_with_a_validation_error() {
    let known = vec!["hello.localhost".to_string()];
    assert!(confirm_site("hello.localhost", &known).is_ok());
    match confirm_site("ghost.localhost", &known) {
        Err(IpcError::Validation { field, message }) => {
            assert_eq!(field, "domain");
            assert_eq!(message, "no site named ghost.localhost exists");
        }
        other => panic!("expected Validation, got {other:?}"),
    }
}

#[test]
fn a_ring_source_is_rejected_by_derive_path() {
    let located = std::cell::Cell::new(0u32);
    let r = derive_path(
        &LogSource::ServiceRing("nginx".into()),
        |_: &LogSource| {
            located.set(located.get() + 1);
            "/home/x/logs/never".to_string()
        },
        "/home/x/logs",
    );
    match r {
        Err(IpcError::Validation { field, message }) => {
            assert_eq!(field, "source");
            assert_eq!(
                message,
                "ring source \"nginx\" is read through service_log_tail, not this command"
            );
        }
        other => panic!("expected Validation, got {other:?}"),
    }
    assert_eq!(located.get(), 0, "a ring source must never be located on disk");
}

#[test]
fn a_file_source_is_located_then_confined() {
    let ok = derive_path(
        &LogSource::NginxError,
        |_: &LogSource| "/home/x/logs/nginx.error.log".to_string(),
        "/home/x/logs",
    );
    assert_eq!(ok.unwrap(), "/home/x/logs/nginx.error.log");
    let escaped = derive_path(
        &LogSource::SiteAccess("a".into()),
        |_: &LogSource| "/tmp/a.log".to_string(),
        "/home/x/logs",
    );
    assert!(matches!(escaped, Err(IpcError::Core { .. })));
}

#[test]
fn a_file_row_exists_exactly_when_it_has_a_size() {
    let present = file_row(LogSourceDto::NginxError, "nginx error log".into(), Some(12));
    assert!(present.exists);
    assert_eq!(present.size_bytes, Some(12));
    assert_eq!(present.kind, LogSourceKindDto::File);
    assert!(present.service_id.is_none());
    let absent = file_row(LogSourceDto::NginxAccess, "nginx access log".into(), None);
    assert!(!absent.exists);
    let ring = ring_row(&"php-fpm-8.3".to_string(), "PHP 8.3");
    assert_eq!(ring.label, "PHP 8.3 output");
    assert_eq!(ring.kind, LogSourceKindDto::Ring);
    assert!(ring.exists);
    assert_eq!(ring.service_id.as_deref(), Some("php-fpm-8.3"));
}

#[test]
fn the_catalogue_lists_every_kind_in_order() {
    let pools = vec![PoolLog { major: "8.3".into(), size: None }];
    let sites = vec![SiteLogs {
        domain: "hello.localhost".into(),
        access_size: Some(5),
        error_size: None,
    }];
    let services = vec![ServiceName { id: "nginx".into(), display_name: "nginx".into() }];
    let rows = log_source_rows(Some(1), None, &pools, Some(&sites), &services);
    let labels: Vec<&str> = rows.iter().map(|r| r.label.as_str()).collect();
    assert_eq!(
        labels,
        vec![
            "nginx error log",
            "nginx access log",
            "PHP 8.3 pool log",
            "hello.localhost access log",
            "hello.localhost error log",
            "nginx output",
        ]
    );
    assert!(rows[0].exists && !rows[1].exists && rows[3].exists && !rows[4].exists);
    assert!(matches!(&rows[2].source, LogSourceDto::PhpFpm { major } if major == "8.3"));
}

#[test]
fn with_no_store_the_catalogue_keeps_every_row_the_store_was_not_the_source_of() {
    let pools = vec![PoolLog { major: "8.3".into(), size: Some(0) }];
    let services = vec![ServiceName { id: "nginx".into(), display_name: "nginx".into() }];
    let rows = log_source_rows(None, None, &pools, None, &services);
    assert_eq!(rows.len(), 4);
    assert!(rows.iter().all(|r| !matches!(
        r.source,
        LogSourceDto::SiteAccess { .. } | LogSourceDto::SiteError { .. }
    )));
}
