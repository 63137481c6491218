use package_fast::sandbox::{SandboxConfig, SandboxRuntimeProtection, ProcessOutcome};

#[test]
fn test_sandbox_config_default() {
    let config = SandboxConfig::default();
    assert!(config.enabled);
    assert!(!config.allow_network);
    assert!(!config.allow_process_creation);
}

#[test]
fn test_sandbox_runtime_protection_default() {
    // The default sandbox is enabled: with no override and an empty
    // allow-set, no host is reachable.
    let protection = SandboxRuntimeProtection::new();
    assert!(!protection.is_network_host_allowed("anywhere.example"));
}

#[test]
fn test_path_allowed() {
    let config = SandboxConfig::default();
    let protection = SandboxRuntimeProtection::with_config(config);
    let cwd = "/work/project";

    // A path inside the working tree is allowed by default.
    assert!(protection.is_path_allowed("./", cwd));

    // The absolute working directory itself is allowed.
    assert!(protection.is_path_allowed(cwd, cwd));
}

#[test]
fn path_rules_follow_components() {
    let protection = SandboxRuntimeProtection::new();
    let cwd = "/work/project";
    assert!(protection.is_path_allowed("./package.json", cwd));
    assert!(protection.is_path_allowed("./node_modules/left-pad", cwd));
    assert!(!protection.is_path_allowed("/etc/passwd", cwd));
    // A sibling directory that shares a name prefix is not inside the tree.
    assert!(!protection.is_path_allowed("/work/project-evil", cwd));
    // Upward traversal cannot escape the allowed tree.
    assert!(!protection.is_path_allowed("./../../etc/passwd", cwd));
    assert!(protection.is_path_allowed("./node_modules/../package.json", cwd));

    let mut disabled = SandboxConfig::default();
    disabled.enabled = false;
    let off = SandboxRuntimeProtection::with_config(disabled);
    assert!(off.is_path_allowed("/etc/passwd", cwd));
}

#[test]
fn test_network_host_allowed() {
    let mut config = SandboxConfig::default();
    config.allowed_network_hosts.push("registry.npmjs.org".to_string());

    let protection = SandboxRuntimeProtection::with_config(config);

    assert!(protection.is_network_host_allowed("registry.npmjs.org"));
    assert!(!protection.is_network_host_allowed("malicious-site.com"));
}

#[test]
fn network_override_allows_everything() {
    let mut config = SandboxConfig::default();
    config.allow_network = true;
    let protection = SandboxRuntimeProtection::with_config(config);
    assert!(protection.is_network_host_allowed("malicious-site.com"));
}

#[test]
fn timeout_dominates_the_result() {
    // A run that the deadline won reports a timeout and no exit code, and
    // the partial output captured before the kill is returned, not lost.
    let protection = SandboxRuntimeProtection::new();
    let result = protection.sandbox_result_from_outcome(ProcessOutcome::TimedOut {
        stdout: b"partial out".to_vec(),
        stderr: b"partial err".to_vec(),
    });
    assert!(result.timed_out);
    assert_eq!(result.exit_code, None);
    assert_eq!(result.stdout, b"partial out".to_vec());
    assert_eq!(result.stderr, b"partial err".to_vec());
    assert_eq!(result.error, Some("Command timed out".to_string()));
}

#[test]
fn completion_passes_through() {
    let protection = SandboxRuntimeProtection::new();
    let result = protection.sandbox_result_from_outcome(ProcessOutcome::Completed {
        exit_code: Some(0),
        stdout: b"test\n".to_vec(),
        stderr: Vec::new(),
    });
    assert_eq!(result.exit_code, Some(0));
    assert_eq!(result.stdout, b"test\n".to_vec());
    assert!(!result.timed_out);
    assert!(result.error.is_none());
}

#[test]
fn missing_exit_code_is_an_execution_failure() {
    // A child killed by an outside signal completes without reporting an
    // exit code: exactly one of the three result shapes must still hold,
    // so the result carries an error description.
    let protection = SandboxRuntimeProtection::new();
    let result = protection.sandbox_result_from_outcome(ProcessOutcome::Completed {
        exit_code: None,
        stdout: b"some output".to_vec(),
        stderr: Vec::new(),
    });
    assert_eq!(result.exit_code, None);
    assert!(!result.timed_out);
    assert_eq!(result.stdout, b"some output".to_vec());
    assert!(!result.error.as_ref().unwrap().is_empty());
}

#[test]
fn result_shapes_are_exhaustive_and_exclusive() {
    let protection = SandboxRuntimeProtection::new();
    let outcomes = vec![
        ProcessOutcome::Completed { exit_code: Some(3), stdout: Vec::new(), stderr: Vec::new() },
        ProcessOutcome::Completed { exit_code: None, stdout: Vec::new(), stderr: Vec::new() },
        ProcessOutcome::TimedOut { stdout: Vec::new(), stderr: Vec::new() },
        ProcessOutcome::LaunchFailed { message: "gone".to_string() },
    ];
    for outcome in outcomes {
        let r = protection.sandbox_result_from_outcome(outcome);
        let completed = r.exit_code.is_some() && !r.timed_out && r.error.is_none();
        let timed_out = r.timed_out && r.exit_code.is_none();
        let failed = !r.timed_out && r.exit_code.is_none() && r.error.is_some();
        assert_eq!(
            [completed, timed_out, failed].iter().filter(|held| **held).count(),
            1
        );
    }
}

#[test]
fn launch_failure_is_reported_as_data() {
    let protection = SandboxRuntimeProtection::new();
    let result = protection.sandbox_result_from_outcome(ProcessOutcome::LaunchFailed {
        message: "No such file or directory".to_string(),
    });
    assert_eq!(result.exit_code, None);
    assert!(!result.timed_out);
    assert_eq!(
        result.stderr,
        b"Failed to execute command: No such file or directory".to_vec()
    );
    assert_eq!(result.error, Some("No such file or directory".to_string()));
}
