use openvhost_commands::databases::{MysqlDatadirStateDto, MysqlInitOutcomeDto};
use openvhost_commands::error::IpcError;
use openvhost_commands::packages::{
    brew_install_precheck, brew_missing_error, brew_searched_paths, datadir_gate,
    datadir_state_dto, default_php_precheck, defaults_file_contents, defaults_file_name, defaults_file_name_for,
    find_mysql_runtime, join, mysqld_init_args, mysqld_temp_server_args, poll_step, PollStep,
};

#[test]
fn mysqld_init_spec_carries_no_defaults_file_and_no_defaults_first() {
    let args = mysqld_init_args("/tmp/ovh/data/mysql/init-8-4-deadbeef");
    assert!(!args.iter().any(|a| a.starts_with("--defaults-file")), "got {args:?}");
    assert_eq!(args.first().map(String::as_str), Some("--no-defaults"), "got {args:?}");
    assert!(args.contains(&"--initialize-insecure".to_string()), "got {args:?}");
    assert!(
        args.contains(&"--datadir=/tmp/ovh/data/mysql/init-8-4-deadbeef".to_string()),
        "got {args:?}"
    );
    assert!(args.contains(&"--mysqlx=OFF".to_string()), "got {args:?}");
}

#[test]
fn mysqld_init_spec_argv_is_exactly_the_required_set() {
    let args = mysqld_init_args("/tmp/ovh/data/mysql/init-8-4-deadbeef");
    assert_eq!(
        args,
        vec![
            "--no-defaults".to_string(),
            "--initialize-insecure".to_string(),
            "--datadir=/tmp/ovh/data/mysql/init-8-4-deadbeef".to_string(),
            "--mysqlx=OFF".to_string(),
        ],
        "got {args:?}"
    );
}

#[test]
fn mysqld_temp_server_spec_carries_no_defaults_file_and_no_defaults_first() {
    let args = mysqld_temp_server_args(
        "/tmp/ovh/data/mysql/init-8-4-deadbeef",
        "/tmp/ovh/run/mysql-8.4-init.sock",
    );
    assert!(!args.iter().any(|a| a.starts_with("--defaults-file")), "got {args:?}");
    assert_eq!(args.first().map(String::as_str), Some("--no-defaults"), "got {args:?}");
    assert!(
        args.contains(&"--datadir=/tmp/ovh/data/mysql/init-8-4-deadbeef".to_string()),
        "got {args:?}"
    );
    assert!(args.contains(&"--skip-networking".to_string()), "got {args:?}");
    assert!(args.contains(&"--mysqlx=OFF".to_string()), "got {args:?}");
    assert!(
        args.contains(&"--socket=/tmp/ovh/run/mysql-8.4-init.sock".to_string()),
        "got {args:?}"
    );
}

#[test]
fn mysqld_temp_server_spec_argv_is_exactly_the_required_set() {
    let args = mysqld_temp_server_args(
        "/tmp/ovh/data/mysql/init-8-4-deadbeef",
        "/tmp/ovh/run/mysql-8.4-init.sock",
    );
    assert_eq!(
        args,
        vec![
            "--no-defaults".to_string(),
            "--datadir=/tmp/ovh/data/mysql/init-8-4-deadbeef".to_string(),
            "--skip-networking".to_string(),
            "--socket=/tmp/ovh/run/mysql-8.4-init.sock".to_string(),
            "--mysqlx=OFF".to_string(),
        ],
        "got {args:?}"
    );
}

#[test]
fn ephemeral_defaults_file_pins_the_client_to_the_unix_socket_protocol() {
    assert_eq!(
        defaults_file_contents("abc123", "/h/run/mysql-8.4.sock"),
        "[client]\nuser=root\npassword=abc123\nsocket=/h/run/mysql-8.4.sock\nprotocol=SOCKET\n"
    );
}

#[test]
fn each_credential_file_gets_a_fresh_hidden_name() {
    let a = defaults_file_name().expect("the random source answers");
    let b = defaults_file_name().expect("the random source answers");
    assert!(a.starts_with(".mysql-defaults-"));
    assert_eq!(a.len(), 48);
    assert!(a[16..].chars().all(|c| c.is_ascii_hexdigit() && !c.is_ascii_uppercase()));
    assert_ne!(a, b);
}

#[test]
fn an_installed_major_is_not_installed_again() {
    let installed = vec!["8.4".to_string()];
    assert!(brew_install_precheck(&installed, "8.3").is_ok());
    match brew_install_precheck(&installed, "8.4") {
        Err(IpcError::Core { message }) => assert_eq!(message, "PHP 8.4 is already installed"),
        other => panic!("expected Core, got {other:?}"),
    }
}

#[test]
fn a_missing_homebrew_names_every_place_searched() {
    let prefixes = vec!["/opt/homebrew".to_string(), "/usr/local".to_string()];
    match brew_missing_error(&prefixes) {
        IpcError::Core { message } => assert_eq!(
            message,
            "Homebrew was not found. Looked for bin/brew under: /opt/homebrew, /usr/local"
        ),
        other => panic!("expected Core, got {other:?}"),
    }
    assert_eq!(join(&[], ", "), "");
    assert_eq!(join(&["a".to_string()], ", "), "a");
}

#[test]
fn brew_searched_paths_names_bin_brew_under_every_prefix() {
    let prefixes = vec!["/opt/homebrew".to_string(), "/usr/local/".to_string()];
    assert_eq!(
        brew_searched_paths(&prefixes),
        vec!["/opt/homebrew/bin/brew", "/usr/local/bin/brew"]
    );
}

#[test]
fn a_major_that_is_not_installed_is_refused_and_names_its_field() {
    let installed = vec!["8.3".to_string()];
    assert!(default_php_precheck(&installed, "8.3").is_ok());
    match default_php_precheck(&installed, "8.4") {
        Err(IpcError::Validation { field, message }) => {
            assert_eq!(field, "default_major");
            assert_eq!(message, "PHP 8.4 is not installed, so it cannot be made the default");
        }
        other => panic!("expected Validation, got {other:?}"),
    }
}

#[test]
fn a_cached_runtime_is_found_by_its_major() {
    let majors = vec!["8.0".to_string(), "8.4".to_string()];
    assert_eq!(find_mysql_runtime(&majors, "8.4").unwrap(), 1);
    match find_mysql_runtime(&majors, "9.1") {
        Err(IpcError::Core { message }) => assert_eq!(message, "MySQL 9.1 is not installed"),
        other => panic!("expected Core, got {other:?}"),
    }
}

#[test]
fn polling_stops_as_soon_as_it_can_tell() {
    assert_eq!(poll_step(true, true, true), PollStep::Ready);
    assert_eq!(poll_step(false, true, false), PollStep::GiveUp);
    assert_eq!(poll_step(false, false, true), PollStep::GiveUp);
    assert_eq!(poll_step(false, false, false), PollStep::Wait);
}

#[test]
fn a_datadir_that_cannot_be_inspected_is_never_shown_as_safe() {
    match datadir_state_dto(Err("permission denied".to_string()), "/h/data/mysql/8.4") {
        MysqlDatadirStateDto::Foreign { detail } => {
            assert_eq!(detail, "could not inspect /h/data/mysql/8.4: permission denied")
        }
        other => panic!("expected Foreign, got {other:?}"),
    }
    assert!(matches!(
        datadir_state_dto(Ok(MysqlDatadirStateDto::Initialized), "/d"),
        MysqlDatadirStateDto::Initialized
    ));
}

#[test]
fn initialize_on_a_foreign_datadir_reports_foreign_without_touching_it() {
    assert!(datadir_gate(Ok(MysqlDatadirStateDto::NotInitialized), "/d").is_none());
    assert!(matches!(
        datadir_gate(Ok(MysqlDatadirStateDto::Initialized), "/d"),
        Some(Ok(MysqlInitOutcomeDto::AlreadyInitialized))
    ));
    match datadir_gate(Ok(MysqlDatadirStateDto::Foreign { detail: "a file".into() }), "/d") {
        Some(Ok(MysqlInitOutcomeDto::Foreign { detail })) => assert_eq!(detail, "a file"),
        other => panic!("expected Foreign, got {other:?}"),
    }
    match datadir_gate(Err("eacces".into()), "/d") {
        Some(Err(IpcError::Core { message })) => assert_eq!(message, "could not inspect /d: eacces"),
        other => panic!("expected a refusal, got {other:?}"),
    }
}

#[test]
fn a_credential_file_name_is_the_v4_uuid_of_its_random_bytes() {
    assert_eq!(
        defaults_file_name_for([0u8; 16]),
        ".mysql-defaults-00000000000040008000000000000000"
    );
    assert_eq!(
        defaults_file_name_for([0xffu8; 16]),
        ".mysql-defaults-ffffffffffff4fffbfffffffffffffff"
    );
    let bytes = [0x12, 0x34, 0x56, 0x78, 0x9a, 0xbc, 0xde, 0xf0, 0x01, 0x23, 0x45, 0x67, 0x89, 0xab, 0xcd, 0xef];
    assert_eq!(
        defaults_file_name_for(bytes),
        format!(".mysql-defaults-{}", uuid::Builder::from_random_bytes(bytes).into_uuid().simple())
    );
}
