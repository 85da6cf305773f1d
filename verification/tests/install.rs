use openvhost_commands::error::IpcError;
use openvhost_commands::install::{
    interrupted_init, interrupted_install, pending_install, set_running_mariadb_init, set_running_mysql_init, InstallKind,
    InstallKindDto, InstallSlot, PackageOperation, PackageOperationDto, MARIADB_INIT_RUN,
    MARIADB_INSTALL_RUN, MYSQL_INIT_RUN, MYSQL_INSTALL_RUN, PHP_INSTALL_RUN,
};

#[test]
fn a_mysql_init_is_not_tagged_as_an_install() {
    assert_ne!(
        MYSQL_INIT_RUN, MYSQL_INSTALL_RUN,
        "an initialization tagged as an install is cancellable by \
         cancel_mysql_install, whatever its label says"
    );
    assert_eq!(MYSQL_INIT_RUN.1, PackageOperation::Initialize);
}

#[test]
fn a_php_install_is_not_tagged_as_any_other_engines_run() {
    for other in [
        MYSQL_INSTALL_RUN,
        MYSQL_INIT_RUN,
        MARIADB_INSTALL_RUN,
        MARIADB_INIT_RUN,
    ] {
        assert_ne!(PHP_INSTALL_RUN, other, "PHP shares a pair with {other:?}");
    }
    assert_eq!(PHP_INSTALL_RUN.0, InstallKind::Php);
    assert_eq!(PHP_INSTALL_RUN.1, PackageOperation::Install);
}

#[test]
fn mariadbs_install_pair_is_distinct_from_mysqls_on_the_kind_discriminator() {
    assert_ne!(MARIADB_INSTALL_RUN, MYSQL_INSTALL_RUN);
    assert_ne!(MARIADB_INSTALL_RUN.0, MYSQL_INSTALL_RUN.0);
    assert_eq!(MARIADB_INSTALL_RUN.1, MYSQL_INSTALL_RUN.1);
}

#[test]
fn a_mariadb_init_is_not_tagged_as_an_install() {
    assert_ne!(
        MARIADB_INIT_RUN, MARIADB_INSTALL_RUN,
        "an initialization tagged as an install is cancellable by \
         cancel_mariadb_install, whatever its label says"
    );
    assert_eq!(MARIADB_INIT_RUN.1, PackageOperation::Initialize);
}

fn runtime() -> tokio::runtime::Runtime {
    tokio::runtime::Builder::new_current_thread()
        .enable_all()
        .build()
        .unwrap()
}

#[test]
fn a_cancel_with_nothing_running_reports_that_it_stopped_nothing() {
    let slot = InstallSlot::new();
    let (kind, operation) = MYSQL_INSTALL_RUN;
    assert!(!slot.abort_running_if(kind, operation));
    assert!(pending_install(&slot).is_none());
    assert!(slot.running_abort_handle().is_none());
}

#[test]
fn a_php_install_cancel_aborts_only_a_php_install() {
    let rt = runtime();
    rt.block_on(async {
        let (cancel_kind, cancel_operation) = PHP_INSTALL_RUN;

        let mut slot = InstallSlot::new();
        let task = tokio::spawn(std::future::pending::<()>());
        slot.set_running(cancel_kind, cancel_operation, "8.4".to_string(), task.abort_handle());
        assert!(slot.abort_running_if(cancel_kind, cancel_operation));
        let result = tokio::time::timeout(std::time::Duration::from_secs(5), task)
            .await
            .expect("the run did not settle after the cancel fired");
        match result {
            Err(join_err) => assert!(join_err.is_cancelled(), "got {join_err:?}"),
            Ok(()) => panic!("the cancel returned true but the run ran to completion"),
        }

        for (kind, operation) in [
            (InstallKind::Php, PackageOperation::Uninstall),
            MYSQL_INSTALL_RUN,
            MYSQL_INIT_RUN,
            MARIADB_INSTALL_RUN,
            MARIADB_INIT_RUN,
        ] {
            let mut slot = InstallSlot::new();
            let task = tokio::spawn(std::future::pending::<()>());
            slot.set_running(kind, operation, "occupant".to_string(), task.abort_handle());
            assert!(
                !slot.abort_running_if(cancel_kind, cancel_operation),
                "a PHP-install cancel claimed it stopped a {kind:?}/{operation:?} run"
            );
            tokio::task::yield_now().await;
            assert!(!task.is_finished(), "a PHP-install cancel ABORTED a {kind:?}/{operation:?} run");
            task.abort();
        }
    });
}

#[test]
fn pending_install_reports_the_occupant_whatever_its_kind() {
    let rt = runtime();
    rt.block_on(async {
        let mut slot = InstallSlot::new();
        let task = tokio::spawn(std::future::pending::<()>());
        set_running_mysql_init(&mut slot, "8.4", task.abort_handle());
        let pending = pending_install(&slot).unwrap();
        assert_eq!(pending.kind, InstallKindDto::Mysql);
        assert_eq!(pending.operation, PackageOperationDto::Initialize);
        assert_eq!(pending.label, "MySQL 8.4");
        assert_eq!(
            slot.running_install(),
            Some((InstallKind::Mysql, PackageOperation::Initialize, "MySQL 8.4".to_string()))
        );
        // The install cancel must not reach an initialization.
        let (kind, operation) = MYSQL_INSTALL_RUN;
        assert!(!slot.abort_running_if(kind, operation));
        slot.clear_running();
        assert!(pending_install(&slot).is_none());
        task.abort();
    });
}

#[test]
fn a_mariadb_initialization_is_labelled_with_its_series() {
    let rt = runtime();
    rt.block_on(async {
        let mut slot = InstallSlot::new();
        let task = tokio::spawn(std::future::pending::<()>());
        set_running_mariadb_init(&mut slot, "11.4", task.abort_handle());
        assert_eq!(
            slot.running_install(),
            Some((InstallKind::Mariadb, PackageOperation::Initialize, "MariaDB 11.4".to_string()))
        );
        let handle = slot.running_abort_handle().expect("a run is in the slot");
        handle.abort();
        let joined = task.await;
        assert!(joined.unwrap_err().is_cancelled());
    });
}

#[test]
fn the_wire_copies_name_the_same_kind_and_operation() {
    assert_eq!(InstallKindDto::from_kind(InstallKind::Php), InstallKindDto::Php);
    assert_eq!(InstallKindDto::from_kind(InstallKind::Mariadb), InstallKindDto::Mariadb);
    assert_eq!(
        PackageOperationDto::from_operation(PackageOperation::Uninstall),
        PackageOperationDto::Uninstall
    );
}

#[test]
fn an_interrupted_install_is_cancelled_or_a_proc_error() {
    assert!(interrupted_install(true, "task 3 was cancelled").is_none());
    match interrupted_install(false, "task 3 panicked") {
        Some(IpcError::Proc { message }) => {
            assert_eq!(message, "the install task ended unexpectedly: task 3 panicked")
        }
        other => panic!("unexpected {other:?}"),
    }
}

#[test]
fn an_interrupted_initialization_names_its_cause() {
    match interrupted_init(true, "task 9 was cancelled") {
        IpcError::Proc { message } => {
            assert_eq!(message, "the initialization was aborted because the app is quitting")
        }
        other => panic!("unexpected {other:?}"),
    }
    match interrupted_init(false, "task 9 panicked") {
        IpcError::Proc { message } => {
            assert_eq!(message, "the initialization task ended unexpectedly: task 9 panicked")
        }
        other => panic!("unexpected {other:?}"),
    }
}
