use package_fast::sandbox::ProcessOutcome;
use package_fast::service::{SecurityService, SecurityServiceConfig};
use package_fast::vuln::VulnerabilityReport;

#[test]
fn test_security_service_creation() {
    let config = SecurityServiceConfig::default();
    assert!(config.verify_integrity);
    assert!(config.scan_vulnerabilities);
    assert!(config.generate_audit_trail);
    assert!(config.enable_runtime_protection);
    let service = SecurityService::new();
    assert_eq!(service.audit_trail().events().len(), 0);
}

#[test]
fn test_security_service_with_config() {
    let config = SecurityServiceConfig {
        verify_integrity: false,
        scan_vulnerabilities: false,
        generate_audit_trail: false,
        enable_runtime_protection: false,
        audit_trail_file: Some("test.log".to_string()),
    };

    assert!(!config.verify_integrity);
    assert!(!config.scan_vulnerabilities);
    assert!(!config.generate_audit_trail);
    assert!(!config.enable_runtime_protection);
    assert_eq!(config.audit_trail_file, Some("test.log".to_string()));

    let service = SecurityService::with_config(config);
    assert_eq!(service.audit_trail().output_file(), &Some("test.log".to_string()));
}

#[test]
fn test_calculate_package_file_hash() {
    let service = SecurityService::new();
    let content: Vec<u8> = b"test content\n".to_vec();

    let hash = service.calculate_package_file_hash(&content);
    assert_eq!(hash.len(), 128); // SHA-512 produces 128 hex characters
}

#[test]
fn test_audit_trail_functionality() {
    let mut service = SecurityService::new();

    let content: Vec<u8> = b"artifact".to_vec();
    let good = service.calculate_package_file_hash(&content);
    service
        .verify_package_file_integrity("test-package", "1.0.0", &content, &good)
        .unwrap();
    service
        .scan_package_for_vulnerabilities(
            "test-package",
            "1.0.0",
            Ok(VulnerabilityReport {
                package_name: "test-package".to_string(),
                package_version: "1.0.0".to_string(),
                vulnerability_ids: Vec::new(),
            }),
        )
        .unwrap();

    assert_eq!(service.audit_trail().events().len(), 2);
}

#[test]
fn test_filesystem_access_check() {
    let service = SecurityService::new();
    assert!(service.check_filesystem_access("./package.json", "/work/project").is_ok());
    assert!(service.check_filesystem_access("./../escape", "/work/project").is_err());
}

#[test]
fn failing_verification_still_audits_once() {
    // A failing integrity check still produces exactly one new audit event,
    // unsuccessful and carrying a non-empty error message.
    let mut service = SecurityService::new();
    let content: Vec<u8> = b"artifact".to_vec();

    let before = service.audit_trail().events().len();
    let result = service.verify_package_file_integrity("pkg", "2.0.0", &content, "deadbeef");
    assert!(result.is_err());

    let events = service.audit_trail().events();
    assert_eq!(events.len(), before + 1);
    let event = events.last().unwrap();
    assert_eq!(event.event_type, package_fast::audit::AuditEventType::IntegrityCheck);
    assert_eq!(event.package_name, Some("pkg".to_string()));
    assert_eq!(event.package_version, Some("2.0.0".to_string()));
    assert!(!event.success);
    assert!(!event.error_message.as_ref().unwrap().is_empty());
}

#[test]
fn scan_outcome_passes_through_and_audits() {
    let mut service = SecurityService::new();
    let failed = service.scan_package_for_vulnerabilities(
        "pkg",
        "1.0.0",
        Err("registry unreachable".to_string()),
    );
    match failed {
        Err(msg) => assert_eq!(msg, "registry unreachable"),
        Ok(_) => panic!("Expected the scan failure to pass through"),
    }
    let event = service.audit_trail().events().last().unwrap();
    assert_eq!(event.event_type, package_fast::audit::AuditEventType::VulnerabilityScan);
    assert!(!event.success);
    assert!(event.error_message.as_ref().unwrap().contains("registry unreachable"));
}

#[test]
fn script_execution_maps_outcomes_and_audits() {
    let mut service = SecurityService::new();

    let ok = service
        .execute_package_script(
            "pkg",
            "postinstall",
            ProcessOutcome::Completed {
                exit_code: Some(0),
                stdout: b"done\n".to_vec(),
                stderr: Vec::new(),
            },
        )
        .unwrap();
    assert_eq!(ok.exit_code, Some(0));
    assert!(!ok.timed_out);
    let event = service.audit_trail().events().last().unwrap();
    assert_eq!(event.event_type, package_fast::audit::AuditEventType::RuntimeProtection);
    assert_eq!(event.detail("script_name"), Some(&"postinstall".to_string()));
    assert!(event.success);

    let timed_out = service
        .execute_package_script(
            "pkg",
            "postinstall",
            ProcessOutcome::TimedOut { stdout: b"halfway".to_vec(), stderr: Vec::new() },
        )
        .unwrap();
    assert!(timed_out.timed_out);
    assert_eq!(timed_out.exit_code, None);
    assert_eq!(timed_out.stdout, b"halfway".to_vec());

    let signal_killed = service
        .execute_package_script(
            "pkg",
            "postinstall",
            ProcessOutcome::Completed {
                exit_code: None,
                stdout: Vec::new(),
                stderr: Vec::new(),
            },
        )
        .unwrap();
    assert_eq!(signal_killed.exit_code, None);
    assert!(!signal_killed.timed_out);
    assert!(signal_killed.error.is_some());

    let blocked = service.execute_package_script(
        "pkg",
        "postinstall",
        ProcessOutcome::LaunchFailed { message: "missing interpreter".to_string() },
    );
    match blocked {
        Err(package_fast::runtime::RuntimeProtectionError::ExecutionBlocked { reason }) => {
            assert_eq!(reason, "missing interpreter");
        },
        _ => panic!("Expected ExecutionBlocked"),
    }
    let event = service.audit_trail().events().last().unwrap();
    assert!(!event.success);
    assert!(!event.error_message.as_ref().unwrap().is_empty());
    assert_eq!(service.audit_trail().events().len(), 4);
}

#[test]
fn sink_line_mirrors_the_last_event() {
    let mut service = SecurityService::with_config(SecurityServiceConfig {
        audit_trail_file: Some("audit.log".to_string()),
        ..SecurityServiceConfig::default()
    });
    assert_eq!(service.pending_sink_line(), None);

    let content: Vec<u8> = b"artifact".to_vec();
    let _ = service.verify_package_file_integrity("pkg", "1.0.0", &content, "deadbeef");
    let line = service.pending_sink_line().unwrap();
    let parsed: serde_json::Value = serde_json::from_str(&line).unwrap();
    assert_eq!(parsed["event_type"].as_str().unwrap(), "IntegrityCheck");

    let exported = service.export_audit_trail_to_json();
    assert!(serde_json::from_str::<serde_json::Value>(&exported).is_ok());
    let csv = service.export_audit_trail_to_csv();
    assert!(csv.starts_with("ID,Timestamp,EventType,"));
}

#[test]
fn gateway_policy_checks_delegate() {
    let service = SecurityService::new();
    assert!(service.check_network_access("registry.npmjs.org").is_err());
    assert!(service.check_process_execution("npm").is_err());
}
