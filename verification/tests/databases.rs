use openvhost_commands::databases::{
    connection_proof, credential_store, looks_like_auth_failure, mariadb_connection_proof, mariadb_reset_outcome,
    missing_credential_proof, parse_version_and_port, redact_mariadb_init_outcome, reset_decision,
    ClientReport, MariadbConnectionProofDto, MariadbInitOutcomeDto, MariadbInitStepDto,
    MariadbResetOutcomeDto, MysqlConnectionProofDto, MysqlResetOutcomeDto,
};
use openvhost_commands::error::IpcError;
use openvhost_commands::store::{store_down, DbHandle, STORE_DOWN_REASON, STORE_UNAVAILABLE};

fn report(ok: bool, stdout: &str, stderr: &str) -> ClientReport {
    ClientReport { ok, stdout: stdout.to_string(), stderr: stderr.to_string() }
}

#[test]
fn the_access_denied_wording_is_an_auth_failure() {
    assert!(looks_like_auth_failure(
        "ERROR 1045 (28000): Access denied for user 'root'@'localhost'"
    ));
    assert!(!looks_like_auth_failure("ERROR 2002 (HY000): Can't connect"));
    assert!(!looks_like_auth_failure("access denied"));
}

#[test]
fn version_and_port_come_from_the_first_tab_separated_line() {
    assert_eq!(
        parse_version_and_port("8.4.11\t3306\n"),
        Some(("8.4.11".to_string(), 3306))
    );
    assert_eq!(
        parse_version_and_port(" 11.4.2-MariaDB \t 3307 \t extra\nnext\t1\n"),
        Some(("11.4.2-MariaDB".to_string(), 3307))
    );
    assert_eq!(parse_version_and_port("8.4.11\t+3306"), Some(("8.4.11".to_string(), 3306)));
}

#[test]
fn output_that_is_not_a_version_and_port_parses_to_nothing() {
    assert_eq!(parse_version_and_port(""), None);
    assert_eq!(parse_version_and_port("8.4.11 3306\n"), None);
    assert_eq!(parse_version_and_port("8.4.11\tport\n"), None);
    assert_eq!(parse_version_and_port("\t3306\n"), None);
    assert_eq!(parse_version_and_port("8.4\t99999999999\n"), None);
    assert_eq!(parse_version_and_port("8.4\t-1\n"), None);
    assert_eq!(parse_version_and_port("\n8.4\t3306\n"), None);
}

#[test]
fn a_successful_check_reports_the_version_and_port() {
    match connection_proof(Ok(report(true, "8.4.11\t3306\n", "")), "pw") {
        MysqlConnectionProofDto::Connected { version, port } => {
            assert_eq!(version, "8.4.11");
            assert_eq!(port, 3306);
        }
        other => panic!("expected Connected, got {other:?}"),
    }
}

#[test]
fn verify_connection_redacts_the_stored_password_from_a_failure_detail() {
    let secret = "0123abcd0123abcd";
    match connection_proof(Ok(report(false, "", "near '0123abcd0123abcd': syntax error")), secret) {
        MysqlConnectionProofDto::Failed { detail } => {
            assert!(!detail.contains(secret));
            assert_eq!(detail, "near '<redacted>': syntax error");
        }
        other => panic!("expected Failed, got {other:?}"),
    }
    match connection_proof(Err(format!("spawn failed with {secret}")), secret) {
        MysqlConnectionProofDto::Failed { detail } => assert_eq!(detail, "spawn failed with <redacted>"),
        other => panic!("expected Failed, got {other:?}"),
    }
}

#[test]
fn a_refused_credential_is_its_own_outcome() {
    match connection_proof(Ok(report(false, "", "ERROR 1045 (28000): Access denied for user")), "pw9") {
        MysqlConnectionProofDto::AuthFailed { detail } => {
            assert_eq!(detail, "ERROR 1045 (28000): Access denied for user")
        }
        other => panic!("expected AuthFailed, got {other:?}"),
    }
}

#[test]
fn a_silent_failure_still_has_a_detail() {
    match connection_proof(Ok(report(false, "", "  \n")), "pw") {
        MysqlConnectionProofDto::Failed { detail } => assert_eq!(detail, "the connection attempt failed"),
        other => panic!("expected Failed, got {other:?}"),
    }
}

#[test]
fn unparseable_output_is_reported_quoted() {
    match connection_proof(Ok(report(true, "garbage\n", "")), "pw") {
        MysqlConnectionProofDto::Failed { detail } => {
            assert_eq!(detail, "could not parse a version/port from: \"garbage\\n\"")
        }
        other => panic!("expected Failed, got {other:?}"),
    }
}

#[test]
fn the_mariadb_proof_is_the_same_proof() {
    match mariadb_connection_proof(MysqlConnectionProofDto::Connected { version: "11.4".into(), port: 1 }) {
        MariadbConnectionProofDto::Connected { version, port } => {
            assert_eq!((version.as_str(), port), ("11.4", 1))
        }
        other => panic!("expected Connected, got {other:?}"),
    }
}

#[test]
fn a_missing_credential_names_the_instance() {
    match missing_credential_proof("MySQL 8.4") {
        MysqlConnectionProofDto::Failed { detail } => assert_eq!(
            detail,
            "no stored root password for MySQL 8.4 — initialize it, or reset the password if the folder is already initialized"
        ),
        other => panic!("expected Failed, got {other:?}"),
    }
}

#[test]
fn reset_maps_an_access_denied_failure_to_the_distinct_auth_failed_state() {
    let secrets = ["current-pw", "new-pw"];
    match reset_decision(Ok(report(false, "", "ERROR 1045: Access denied (using current-pw)")), &secrets) {
        Ok(MysqlResetOutcomeDto::AuthFailed { detail }) => {
            assert_eq!(detail, "ERROR 1045: Access denied (using <redacted>)")
        }
        other => panic!("expected AuthFailed, got {other:?}"),
    }
    assert!(matches!(
        reset_decision(Ok(report(true, "", "")), &secrets),
        Ok(MysqlResetOutcomeDto::Reset)
    ));
}

#[test]
fn reset_redacts_the_current_password_from_a_failure_detail() {
    let secrets = ["current-pw", "new-pw"];
    match reset_decision(Ok(report(false, "", "near 'new-pw' with current-pw")), &secrets) {
        Err(IpcError::Core { message }) => {
            assert!(!message.contains("current-pw") && !message.contains("new-pw"));
            assert_eq!(message, "near '<redacted>' with <redacted>");
        }
        other => panic!("expected Core, got {other:?}"),
    }
    match reset_decision(Ok(report(false, "", "")), &secrets) {
        Err(IpcError::Core { message }) => assert_eq!(message, "ALTER USER failed"),
        other => panic!("expected Core, got {other:?}"),
    }
    match reset_decision(Err("io error new-pw".to_string()), &secrets) {
        Err(IpcError::Core { message }) => assert_eq!(message, "io error <redacted>"),
        other => panic!("expected Core, got {other:?}"),
    }
}

#[test]
fn the_mariadb_reset_outcome_is_the_same_outcome() {
    assert!(matches!(mariadb_reset_outcome(MysqlResetOutcomeDto::Reset), MariadbResetOutcomeDto::Reset));
    match mariadb_reset_outcome(MysqlResetOutcomeDto::AuthFailed { detail: "x".into() }) {
        MariadbResetOutcomeDto::AuthFailed { detail } => assert_eq!(detail, "x"),
        other => panic!("expected AuthFailed, got {other:?}"),
    }
}

#[test]
fn redact_mariadb_init_outcome_scrubs_a_generated_password_from_a_failure_reason() {
    let failed = MariadbInitOutcomeDto::Failed {
        step: MariadbInitStepDto::SetPassword,
        reason: "near 'feedc0de': syntax error".to_string(),
    };
    match redact_mariadb_init_outcome(failed.clone(), Some("feedc0de")) {
        MariadbInitOutcomeDto::Failed { step, reason } => {
            assert_eq!(step, MariadbInitStepDto::SetPassword);
            assert_eq!(reason, "near '<redacted>': syntax error");
        }
        other => panic!("expected Failed, got {other:?}"),
    }
    match redact_mariadb_init_outcome(failed, None) {
        MariadbInitOutcomeDto::Failed { reason, .. } => assert_eq!(reason, "near 'feedc0de': syntax error"),
        other => panic!("expected Failed, got {other:?}"),
    }
    assert!(matches!(
        redact_mariadb_init_outcome(MariadbInitOutcomeDto::Initialized, Some("feedc0de")),
        MariadbInitOutcomeDto::Initialized
    ));
}

#[test]
fn a_down_store_fails_the_connection_check_instead_of_the_command() {
    let down: DbHandle<u8> = store_down();
    match credential_store(&down) {
        Err(MysqlConnectionProofDto::Failed { detail }) => {
            assert_eq!(detail, format!("{STORE_UNAVAILABLE}: {STORE_DOWN_REASON}"))
        }
        other => panic!("unexpected {other:?}"),
    }
    let ready: DbHandle<u8> = DbHandle::Ready(7);
    assert!(matches!(credential_store(&ready), Ok(&7)));
}
