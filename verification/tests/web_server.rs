use openvhost_commands::error::{ConfFailure, IpcError};
use openvhost_commands::web_server::{
    rejection_message, settings_save_decision, stack_paths, web_server_rows,
    NginxRuntimeSourceDto, SettingsCheckResult, SettingsVerdict, StackPaths, ValidationTarget,
    WebServerBrand, WebServerDto,
};

fn sample_paths() -> StackPaths {
    StackPaths {
        home: "/nonexistent/openvhost-test-home".to_string(),
        nginx_bin: Some("/nonexistent/openvhost-test-home/bin/nginx".to_string()),
        nginx_conf: "/nonexistent/openvhost-test-home/conf/nginx.conf".to_string(),
    }
}

#[test]
fn brand_parses_the_known_ids() {
    assert_eq!(WebServerBrand::parse("nginx").unwrap(), WebServerBrand::Nginx);
    assert_eq!(WebServerBrand::parse("apache").unwrap(), WebServerBrand::Apache);
}

#[test]
fn unknown_brand_is_a_validation_error_naming_the_field() {
    let e = WebServerBrand::parse("../../etc/passwd").unwrap_err();
    match e {
        IpcError::Validation { field, .. } => assert_eq!(field, "id"),
        other => panic!("expected Validation, got {other:?}"),
    }
    assert!(WebServerBrand::parse("NGINX").is_err(), "parsing must be exact-match");
    assert!(WebServerBrand::parse("").is_err());
    for alias in ["caddy", "apache2", "httpd", "nginx-full", "nginx "] {
        assert!(
            WebServerBrand::parse(alias).is_err(),
            "{alias:?} is not on the closed list and must not parse"
        );
    }
}

#[test]
fn an_unknown_brand_message_quotes_what_was_sent() {
    match WebServerBrand::parse("caddy").unwrap_err() {
        IpcError::Validation { message, .. } => assert_eq!(message, "unknown web server \"caddy\""),
        other => panic!("expected Validation, got {other:?}"),
    }
}

#[test]
fn rows_list_apache_and_report_nginx_from_the_given_paths() {
    let p = sample_paths();
    let listed = web_server_rows(&p, Some("1.27.3".into()), Some(true), None, true);

    let nginx = listed
        .iter()
        .find(|r| r.id == "nginx")
        .unwrap_or_else(|| panic!("nginx must be listed, got {listed:?}"));
    assert!(nginx.supported);
    assert_eq!(nginx.service_id.as_deref(), Some("nginx"));
    assert_eq!(nginx.version.as_deref(), Some("1.27.3"));
    assert_eq!(nginx.binary_path.as_deref(), p.nginx_bin.as_deref());
    assert_eq!(nginx.config_path.as_deref(), Some(p.nginx_conf.as_str()));
    assert_eq!(nginx.config_exists, Some(true));

    let apache = listed
        .iter()
        .find(|r| r.id == "apache")
        .unwrap_or_else(|| panic!("apache must be listed, got {listed:?}"));
    assert!(!apache.supported);
    assert!(apache.binary_path.is_none());
    assert!(apache.config_path.is_none());
    assert!(apache.service_id.is_none());
}

#[test]
fn the_nginx_row_passes_its_probed_state_through_unchanged() {
    let p = StackPaths { nginx_bin: None, ..sample_paths() };
    let listed = web_server_rows(&p, None, None, Some(NginxRuntimeSourceDto::Homebrew), false);
    assert_eq!(listed.len(), 2);
    assert_eq!(listed[0].id, "nginx");
    assert_eq!(listed[0].binary_path, None);
    assert_eq!(listed[0].config_exists, None);
    assert_eq!(listed[0].source, Some(NginxRuntimeSourceDto::Homebrew));
    assert!(!listed[0].supports_hot_reload);
    assert_eq!(listed[1].id, "apache");
}

#[test]
fn unsupported_brand_is_rejected_before_any_path_is_touched() {
    let p = sample_paths();
    match WebServerBrand::Apache.live_config_path(&p) {
        Err(IpcError::Validation { field, message }) => {
            assert_eq!(field, "id");
            assert!(message.to_lowercase().contains("apache"));
        }
        Err(other) => panic!("expected Validation, got {other:?}"),
        Ok(path) => panic!("apache must not yield a path, got {path}"),
    }
    assert_eq!(WebServerBrand::Nginx.live_config_path(&p).unwrap(), &p.nginx_conf);
    assert!(WebServerBrand::Nginx.require_supported().is_ok());
    assert!(WebServerBrand::Apache.require_supported().is_err());
}

#[test]
fn the_validator_invocation_is_resolved_as_one_unit_from_the_brand() {
    let p = sample_paths();
    let err_log = format!("{}/logs/nginx.error.log", p.home);
    let prefix = format!("{}/run/nginx-prefix", p.home);
    match WebServerBrand::Nginx.validation_target(&p, err_log.clone(), prefix.clone()) {
        Ok(ValidationTarget::NginxT { bin, conf, err_log: e, home }) => {
            assert_eq!(Some(bin), p.nginx_bin.clone());
            assert_eq!(conf, p.nginx_conf);
            assert_eq!(e, err_log);
            assert_eq!(home, prefix);
            assert_ne!(home, p.home, "-p must never be the real home");
        }
        Err(e) => panic!("nginx must yield a validator invocation, got {e:?}"),
    }
    match WebServerBrand::Apache.validation_target(&p, err_log, prefix) {
        Err(IpcError::Validation { field, .. }) => assert_eq!(field, "id"),
        Err(other) => panic!("expected Validation, got {other:?}"),
        Ok(_) => panic!("apache must not yield a validator invocation"),
    }
}

#[test]
fn validation_target_refuses_honestly_when_no_nginx_binary_was_found() {
    let p = StackPaths { nginx_bin: None, ..sample_paths() };
    match WebServerBrand::Nginx.validation_target(&p, String::new(), String::new()) {
        Err(IpcError::Core { message }) => {
            assert_eq!(message, "no nginx binary was found on this machine");
        }
        Err(other) => panic!("expected Core, got {other:?}"),
        Ok(_) => panic!("nginx must not yield a validator invocation with no binary"),
    }
}

#[test]
fn the_unsupported_message_names_the_brand_that_was_asked_for() {
    assert_eq!(WebServerBrand::Nginx.display_name(), "nginx");
    assert_eq!(WebServerBrand::Apache.display_name(), "Apache");
    let err = WebServerBrand::Apache.require_supported().unwrap_err();
    match err {
        IpcError::Validation { field, message } => {
            assert_eq!(field, "id");
            assert!(message.contains(WebServerBrand::Apache.display_name()));
            assert_eq!(
                message,
                "OpenVHost cannot serve Apache sites yet — it only generates nginx config"
            );
        }
        other => panic!("expected Validation, got {other:?}"),
    }
}

#[test]
fn apache_never_claims_a_confirmed_config() {
    let apache = WebServerDto::apache();
    assert_eq!(apache.config_path, None);
    assert_eq!(apache.config_exists, Some(false));
}

#[test]
fn a_rejection_message_keeps_the_reason_and_drops_the_throwaway_path() {
    assert_eq!(
        rejection_message("nginx: [emerg] value must be between 1 and 9 in /h/nginx.conf:17\n"),
        "nginx rejected this value: value must be between 1 and 9"
    );
    assert_eq!(
        rejection_message(
            "nginx: [emerg] \"client_max_body_size\" directive invalid value in /h/x.conf:7"
        ),
        "nginx rejected this value: \"client_max_body_size\" directive invalid value"
    );
}

#[test]
fn a_rejection_message_we_cannot_parse_is_shown_whole() {
    assert_eq!(rejection_message("total nonsense\n"), "total nonsense");
    assert_eq!(
        rejection_message("nginx: [emerg] no line reference here"),
        "nginx rejected this value: no line reference here"
    );
}

#[test]
fn only_the_first_emerg_line_counts_and_a_location_needs_a_line_number() {
    let stderr = "nginx: [warn] something harmless\r\nnginx: [emerg] bad value in /h/a.conf:3\nnginx: [emerg] second\n";
    assert_eq!(rejection_message(stderr), "nginx rejected this value: bad value");
    assert_eq!(
        rejection_message("nginx: [emerg] set in stone"),
        "nginx rejected this value: set in stone"
    );
    assert_eq!(rejection_message("  \n"), "");
}

#[test]
fn a_rejection_marks_its_field_and_stores_nothing() {
    let verdict = SettingsCheckResult::Answered(SettingsVerdict::Rejected {
        field: Some("gzip_comp_level".to_string()),
        stderr: "nginx: [emerg] value must be between 1 and 9 in /h/n.conf:1\n".to_string(),
    });
    match settings_save_decision(Some(verdict)) {
        Err(IpcError::Validation { field, message }) => {
            assert_eq!(field, "gzip_comp_level");
            assert_eq!(message, "nginx rejected this value: value must be between 1 and 9");
        }
        other => panic!("expected a field mark, got {other:?}"),
    }
}

#[test]
fn an_untraceable_rejection_is_a_banner() {
    let verdict = SettingsCheckResult::Answered(SettingsVerdict::Rejected {
        field: None,
        stderr: "total nonsense".to_string(),
    });
    match settings_save_decision(Some(verdict)) {
        Err(IpcError::Core { message }) => assert_eq!(message, "total nonsense"),
        other => panic!("expected a banner, got {other:?}"),
    }
}

#[test]
fn the_save_proceeds_unchecked_without_a_runnable_nginx() {
    assert!(settings_save_decision(None).is_ok());
    assert!(settings_save_decision(Some(SettingsCheckResult::SpawnFailed)).is_ok());
    assert!(settings_save_decision(Some(SettingsCheckResult::Answered(SettingsVerdict::Accepted))).is_ok());
}

#[test]
fn any_other_check_failure_stores_nothing() {
    let failed = SettingsCheckResult::Failed(ConfFailure::Other {
        message: "nginx -t timed out".to_string(),
    });
    match settings_save_decision(Some(failed)) {
        Err(IpcError::Core { message }) => assert_eq!(message, "nginx -t timed out"),
        other => panic!("expected a banner, got {other:?}"),
    }
}

#[test]
fn no_stack_is_an_honest_refusal() {
    match stack_paths(&None) {
        Err(IpcError::Core { message }) => {
            assert_eq!(message, "no web server stack is configured for this platform")
        }
        other => panic!("expected Core, got {other:?}"),
    }
    let p = Some(sample_paths());
    assert_eq!(stack_paths(&p).unwrap().home, "/nonexistent/openvhost-test-home");
}
