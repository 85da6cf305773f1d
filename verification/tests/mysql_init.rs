use openvhost_commands::databases::{MysqlInitOutcomeDto, MysqlInitStepDto};
use openvhost_commands::mysql_init::{InitAction, InitEvent, InitWork, MysqlInit};

fn start() -> (MysqlInit, InitAction) {
    MysqlInit::start(
        "/opt/mysql/bin/mysqld".to_string(),
        "/h/data/mysql/8.4.staging-1".to_string(),
        "/h/run".to_string(),
    )
}

fn expect_work(action: &InitAction, want: InitWork) -> Option<String> {
    match action {
        InitAction::Perform { log, work } => {
            assert_eq!(*work, want);
            log.clone()
        }
        other => panic!("expected to perform {want:?}, got {other:?}"),
    }
}

/// Drives a run to just before `stop_at` with every piece of work
/// succeeding, returning the machine and the lines it logged.
fn drive_until(stop_at: InitWork) -> (MysqlInit, Vec<String>) {
    let (mut m, first) = start();
    let mut logs = Vec::new();
    let mut action = first;
    loop {
        let work = match &action {
            InitAction::Perform { log, work } => {
                if let Some(l) = log {
                    logs.push(l.clone());
                }
                *work
            }
            other => panic!("stopped early: {other:?}"),
        };
        if work == stop_at {
            return (m, logs);
        }
        let event = match work {
            InitWork::LocateDirs | InitWork::PollReady | InitWork::AwaitExit => InitEvent::Answer { yes: true },
            InitWork::Validate | InitWork::AlterPassword | InitWork::ShutdownServer => {
                InitEvent::Report { ok: true, stderr: String::new() }
            }
            InitWork::RunInitialize => InitEvent::Exited { code: Some(0) },
            InitWork::GeneratePassword => InitEvent::Password { secret: "c0ffee00c0ffee00".to_string() },
            InitWork::Finalize => unreachable!(),
            _ => InitEvent::Done,
        };
        action = m.step(event);
    }
}

#[test]
fn a_clean_run_initializes_and_hands_back_the_password() {
    let (mut m, logs) = drive_until(InitWork::Finalize);
    assert_eq!(
        logs,
        vec![
            "rendering my.cnf",
            "validating my.cnf",
            "initializing datadir at /h/data/mysql/8.4.staging-1",
            "starting the temporary server for password setup",
            "waiting for the temporary server to become reachable",
            "setting the root password",
            "shutting down the temporary server",
            "finalizing",
        ]
    );
    assert!(m.staging_created && !m.server_live);
    match m.step(InitEvent::Finalized { outcome: MysqlInitOutcomeDto::Initialized }) {
        InitAction::Stop { outcome, kill_server, remove_staging, password, log } => {
            assert!(matches!(outcome, MysqlInitOutcomeDto::Initialized));
            assert!(!kill_server && !remove_staging);
            assert_eq!(password.as_deref(), Some("c0ffee00c0ffee00"));
            assert_eq!(log.as_deref(), Some("root password set; datadir initialized"));
        }
        other => panic!("expected the end of the run, got {other:?}"),
    }
    assert!(m.work.is_none() && m.secret.is_none());
}

#[test]
fn a_render_failure_touches_nothing() {
    let (mut m, first) = start();
    expect_work(&first, InitWork::LocateDirs);
    match m.step(InitEvent::Answer { yes: false }) {
        InitAction::Stop { outcome: MysqlInitOutcomeDto::Failed { step, reason }, kill_server, remove_staging, password, .. } => {
            assert_eq!(step, MysqlInitStepDto::Render);
            assert_eq!(
                reason,
                "/opt/mysql/bin/mysqld does not look like a usable MySQL install: could not locate its plugin, charset and message directories"
            );
            assert!(!kill_server && !remove_staging && password.is_none());
        }
        other => panic!("expected a Render failure, got {other:?}"),
    }
}

#[test]
fn a_rejected_config_reports_the_validators_words_or_a_fallback() {
    let (mut m, _) = drive_until(InitWork::Validate);
    match m.step(InitEvent::Report { ok: false, stderr: " \n".to_string() }) {
        InitAction::Stop { outcome: MysqlInitOutcomeDto::Failed { step, reason }, remove_staging, .. } => {
            assert_eq!(step, MysqlInitStepDto::Validate);
            assert_eq!(reason, "mysqld --validate-config rejected the generated my.cnf");
            assert!(!remove_staging);
        }
        other => panic!("expected a Validate failure, got {other:?}"),
    }
}

#[test]
fn a_staging_directory_that_cannot_be_created_is_not_removed() {
    let (mut m, _) = drive_until(InitWork::CreateStaging);
    match m.step(InitEvent::Failed { error: "permission denied".to_string() }) {
        InitAction::Stop { outcome: MysqlInitOutcomeDto::Failed { step, reason }, remove_staging, kill_server, .. } => {
            assert_eq!(step, MysqlInitStepDto::Initialize);
            assert_eq!(
                reason,
                "failed to create staging directory /h/data/mysql/8.4.staging-1: permission denied"
            );
            assert!(!remove_staging && !kill_server);
        }
        other => panic!("expected an Initialize failure, got {other:?}"),
    }
}

#[test]
fn a_failed_initialize_removes_only_the_staging_directory() {
    let (mut m, _) = drive_until(InitWork::RunInitialize);
    match m.step(InitEvent::Exited { code: Some(1) }) {
        InitAction::Stop { outcome: MysqlInitOutcomeDto::Failed { step, reason }, remove_staging, kill_server, .. } => {
            assert_eq!(step, MysqlInitStepDto::Initialize);
            assert_eq!(reason, "mysqld --initialize-insecure exited 1");
            assert!(remove_staging && !kill_server);
        }
        other => panic!("expected an Initialize failure, got {other:?}"),
    }
    let (mut m, _) = drive_until(InitWork::RunInitialize);
    match m.step(InitEvent::Exited { code: None }) {
        InitAction::Stop { outcome: MysqlInitOutcomeDto::Failed { reason, .. }, .. } => {
            assert_eq!(reason, "mysqld --initialize-insecure was terminated by a signal")
        }
        other => panic!("expected an Initialize failure, got {other:?}"),
    }
    let (mut m, _) = drive_until(InitWork::RunInitialize);
    match m.step(InitEvent::Exited { code: Some(-3) }) {
        InitAction::Stop { outcome: MysqlInitOutcomeDto::Failed { reason, .. }, .. } => {
            assert_eq!(reason, "mysqld --initialize-insecure exited -3")
        }
        other => panic!("expected an Initialize failure, got {other:?}"),
    }
}

#[test]
fn a_server_that_never_answers_is_killed_and_its_staging_removed() {
    let (mut m, _) = drive_until(InitWork::PollReady);
    assert!(m.server_live);
    match m.step(InitEvent::Answer { yes: false }) {
        InitAction::Stop { outcome: MysqlInitOutcomeDto::Failed { step, reason }, remove_staging, kill_server, .. } => {
            assert_eq!(step, MysqlInitStepDto::StartTempServer);
            assert_eq!(reason, "the temporary server never became reachable via mysqladmin ping");
            assert!(remove_staging && kill_server);
        }
        other => panic!("expected a StartTempServer failure, got {other:?}"),
    }
}

#[test]
fn no_failure_reason_contains_the_generated_password() {
    let (mut m, _) = drive_until(InitWork::AlterPassword);
    match m.step(InitEvent::Report {
        ok: false,
        stderr: "ERROR 1064: near 'c0ffee00c0ffee00'".to_string(),
    }) {
        InitAction::Stop { outcome: MysqlInitOutcomeDto::Failed { step, reason }, kill_server, remove_staging, password, .. } => {
            assert_eq!(step, MysqlInitStepDto::SetPassword);
            assert_eq!(reason, "ERROR 1064: near '<redacted>'");
            assert!(kill_server && remove_staging && password.is_none());
        }
        other => panic!("expected a SetPassword failure, got {other:?}"),
    }
    let (mut m, _) = drive_until(InitWork::ShutdownServer);
    match m.step(InitEvent::Failed { error: "mysqladmin said c0ffee00c0ffee00".to_string() }) {
        InitAction::Stop { outcome: MysqlInitOutcomeDto::Failed { step, reason }, .. } => {
            assert_eq!(step, MysqlInitStepDto::Shutdown);
            assert_eq!(reason, "mysqladmin said <redacted>");
        }
        other => panic!("expected a Shutdown failure, got {other:?}"),
    }
    let (mut m, _) = drive_until(InitWork::ShutdownServer);
    match m.step(InitEvent::Report { ok: false, stderr: String::new() }) {
        InitAction::Stop { outcome: MysqlInitOutcomeDto::Failed { reason, .. }, .. } => {
            assert_eq!(reason, "mysqladmin shutdown failed")
        }
        other => panic!("expected a Shutdown failure, got {other:?}"),
    }
}

#[test]
fn a_server_that_does_not_exit_after_shutdown_is_killed() {
    let (mut m, _) = drive_until(InitWork::AwaitExit);
    match m.step(InitEvent::Answer { yes: false }) {
        InitAction::Stop { outcome: MysqlInitOutcomeDto::Failed { step, reason }, kill_server, remove_staging, .. } => {
            assert_eq!(step, MysqlInitStepDto::Shutdown);
            assert_eq!(reason, "the temporary server did not exit after mysqladmin shutdown succeeded");
            assert!(kill_server && remove_staging);
        }
        other => panic!("expected a Shutdown failure, got {other:?}"),
    }
}

#[test]
fn a_failed_finalize_removes_the_staging_directory_and_keeps_its_reason() {
    let (mut m, _) = drive_until(InitWork::Finalize);
    let failed = MysqlInitOutcomeDto::Failed {
        step: MysqlInitStepDto::Finalize,
        reason: "rename failed".to_string(),
    };
    match m.step(InitEvent::Finalized { outcome: failed }) {
        InitAction::Stop { outcome: MysqlInitOutcomeDto::Failed { step, reason }, kill_server, remove_staging, password, log } => {
            assert_eq!(step, MysqlInitStepDto::Finalize);
            assert_eq!(reason, "rename failed");
            assert!(!kill_server && remove_staging && password.is_none() && log.is_none());
        }
        other => panic!("expected a Finalize failure, got {other:?}"),
    }
}

#[test]
fn the_credential_file_failure_is_a_shutdown_failure() {
    let (mut m, _) = drive_until(InitWork::WriteDefaults);
    match m.step(InitEvent::Failed { error: "disk full".to_string() }) {
        InitAction::Stop { outcome: MysqlInitOutcomeDto::Failed { step, reason }, kill_server, .. } => {
            assert_eq!(step, MysqlInitStepDto::Shutdown);
            assert_eq!(reason, "failed to write the ephemeral credential file: disk full");
            assert!(kill_server);
        }
        other => panic!("expected a Shutdown failure, got {other:?}"),
    }
}
