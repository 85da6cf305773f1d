use std::cell::Cell;
use openvhost_commands::rescan::{
    mariadb_row_change, mysql_registrations, mysql_service_id, newly_installed_majors,
    strip_prefix, vanished_service_ids, RowChange, MYSQL_ID_PREFIX, PHP_FPM_ID_PREFIX,
};

#[test]
fn only_newly_discovered_majors_are_registered() {
    let before = ["8.3".to_string(), "8.5".to_string()];
    let found = ["8.3".to_string(), "8.4".to_string(), "8.5".to_string()];
    assert_eq!(
        newly_installed_majors(&before, &found),
        vec!["8.4".to_string()]
    );
}

#[test]
fn a_rescan_that_finds_nothing_new_registers_nothing() {
    let before = ["8.3".to_string()];
    let found = ["8.3".to_string()];
    assert!(newly_installed_majors(&before, &found).is_empty());
}

#[test]
fn a_version_that_disappeared_is_not_treated_as_new() {
    let before = ["8.3".to_string(), "8.5".to_string()];
    let found = ["8.5".to_string()];
    assert!(newly_installed_majors(&before, &found).is_empty());
}

#[test]
fn a_major_that_vanished_from_disk_is_the_one_that_gets_forgotten() {
    let registered = [
        "php-fpm-8.1".to_string(),
        "php-fpm-8.3".to_string(),
        "php-fpm-8.4".to_string(),
    ];
    let found = ["8.1".to_string(), "8.4".to_string()];
    assert_eq!(
        vanished_service_ids(&registered, PHP_FPM_ID_PREFIX, &found),
        vec!["php-fpm-8.3".to_string()]
    );
}

#[test]
fn a_rescan_that_finds_everything_forgets_nothing() {
    let registered = ["php-fpm-8.4".to_string()];
    let found = ["8.4".to_string()];
    assert!(vanished_service_ids(&registered, PHP_FPM_ID_PREFIX, &found).is_empty());
}

#[test]
fn a_php_rescan_never_matches_a_mysql_or_nginx_row() {
    let registered = [
        "nginx".to_string(),
        "demo-ticker".to_string(),
        "mysql-8.4".to_string(),
        "php-fpm-8.4".to_string(),
    ];
    assert!(vanished_service_ids(&registered, PHP_FPM_ID_PREFIX, &["8.4".into()]).is_empty());
    assert_eq!(
        vanished_service_ids(&registered, PHP_FPM_ID_PREFIX, &[]),
        vec!["php-fpm-8.4".to_string()]
    );
    assert_eq!(
        vanished_service_ids(&registered, MYSQL_ID_PREFIX, &[]),
        vec!["mysql-8.4".to_string()]
    );
}

#[test]
fn new_majors_keep_discovery_order_and_skip_every_known_one() {
    let before = ["8.2".to_string()];
    let found = ["8.4".to_string(), "8.2".to_string(), "7.4".to_string()];
    assert_eq!(
        newly_installed_majors(&before, &found),
        vec!["8.4".to_string(), "7.4".to_string()]
    );
    assert_eq!(newly_installed_majors(&[], &found), found.to_vec());
}

#[test]
fn a_major_is_the_exact_text_after_the_prefix() {
    // `php-fpm-8.4.1` names major `8.4.1`, which is not `8.4`.
    let registered = ["php-fpm-8.4.1".to_string(), "xphp-fpm-8.4".to_string()];
    assert_eq!(
        vanished_service_ids(&registered, PHP_FPM_ID_PREFIX, &["8.4".into()]),
        vec!["php-fpm-8.4.1".to_string()]
    );
}

#[test]
fn strip_prefix_returns_the_rest_only_for_a_true_prefix() {
    assert_eq!(strip_prefix("mysql-8.4", "mysql-"), Some("8.4".to_string()));
    assert_eq!(strip_prefix("mysql-", "mysql-"), Some(String::new()));
    assert_eq!(strip_prefix("my", "mysql-"), None);
    assert_eq!(strip_prefix("php-fpm-8.4", "mysql-"), None);
}

#[test]
fn the_mysql_service_id_is_the_prefix_then_the_major() {
    assert_eq!(mysql_service_id("8.4"), "mysql-8.4");
}

#[test]
fn only_unregistered_initialized_mysql_majors_get_a_row() {
    let found = [("8.0".to_string(), true), ("8.4".to_string(), true), ("9.1".to_string(), false)];
    let registered = ["mysql-8.0".to_string(), "nginx".to_string()];
    assert_eq!(
        mysql_registrations(&found, &registered),
        vec!["8.4".to_string()]
    );
}

#[test]
fn the_mariadb_row_is_registered_only_when_found_unregistered_and_initialized() {
    assert_eq!(mariadb_row_change(true, false, || true), RowChange::Register);
    assert_eq!(mariadb_row_change(true, false, || false), RowChange::Leave);
    assert_eq!(mariadb_row_change(true, true, || true), RowChange::Leave);
    assert_eq!(mariadb_row_change(false, true, || true), RowChange::Unregister);
    assert_eq!(mariadb_row_change(false, false, || true), RowChange::Leave);
}

#[test]
fn the_datadir_is_not_inspected_when_it_cannot_matter() {
    let asked = Cell::new(0u32);
    let change = mariadb_row_change(true, true, || {
        asked.set(asked.get() + 1);
        true
    });
    assert_eq!(change, RowChange::Leave);
    assert_eq!(asked.get(), 0);
}
