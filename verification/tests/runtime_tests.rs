use package_fast::runtime::{RuntimeProtection, RuntimeProtectionConfig, RuntimeProtectionError};

#[test]
fn test_runtime_protection_default_config() {
    let config = RuntimeProtectionConfig::default();
    assert!(config.restrict_filesystem);
    assert!(config.restrict_network);
    assert!(config.restrict_process_execution);
}

#[test]
fn test_filesystem_access_allowed() {
    let protection = RuntimeProtection::new();
    assert!(protection.check_filesystem_access("./package.json", "/work/project").is_ok());
}

#[test]
fn test_filesystem_access_blocked() {
    let protection = RuntimeProtection::new();
    assert!(protection.check_filesystem_access("/etc/passwd", "/work/project").is_err());
}

#[test]
fn filesystem_check_defeats_traversal() {
    // Resolving against the working directory before matching stops a
    // relative path from escaping the allowed tree.
    let protection = RuntimeProtection::new();
    let cwd = "/work/project";
    assert!(protection.check_filesystem_access("./node_modules/left-pad", cwd).is_ok());
    assert!(protection.check_filesystem_access("./../../etc/passwd", cwd).is_err());
    assert!(protection.check_filesystem_access("./node_modules/../../other", cwd).is_err());
    assert!(protection.check_filesystem_access("./node_modules/../package.json", cwd).is_ok());
}

#[test]
fn test_network_access_allowed() {
    let mut config = RuntimeProtectionConfig::default();
    config.allowed_hosts.push("registry.npmjs.org".to_string());

    let protection = RuntimeProtection::with_config(config);
    assert!(protection.check_network_access("registry.npmjs.org").is_ok());
}

#[test]
fn test_network_access_blocked() {
    let protection = RuntimeProtection::new();
    assert!(protection.check_network_access("malicious-site.com").is_err());
}

#[test]
fn test_process_execution_allowed() {
    let mut config = RuntimeProtectionConfig::default();
    config.allowed_commands.push("npm".to_string());

    let protection = RuntimeProtection::with_config(config);
    assert!(protection.check_process_execution("npm").is_ok());
}

#[test]
fn test_process_execution_blocked() {
    let protection = RuntimeProtection::new();
    assert!(protection.check_process_execution("rm").is_err());
}

#[test]
fn policy_default_deny_with_empty_allow_sets() {
    // restrict=true with empty allow-sets denies everything ...
    let config = RuntimeProtectionConfig {
        restrict_filesystem: true,
        allowed_directories: Vec::new(),
        restrict_network: true,
        allowed_hosts: Vec::new(),
        restrict_process_execution: true,
        allowed_commands: Vec::new(),
        execution_timeout: 300,
    };
    let protection = RuntimeProtection::with_config(config);
    for path in ["./package.json", "/tmp/x", ""] {
        assert!(protection.check_filesystem_access(path, "/work/project").is_err());
    }
    for host in ["registry.npmjs.org", "localhost"] {
        assert!(protection.check_network_access(host).is_err());
    }
    for command in ["npm", "sh"] {
        assert!(protection.check_process_execution(command).is_err());
    }

    // ... and restrict=false allows everything regardless of the sets.
    let open_config = RuntimeProtectionConfig {
        restrict_filesystem: false,
        allowed_directories: Vec::new(),
        restrict_network: false,
        allowed_hosts: Vec::new(),
        restrict_process_execution: false,
        allowed_commands: Vec::new(),
        execution_timeout: 300,
    };
    let open_protection = RuntimeProtection::with_config(open_config);
    assert!(open_protection.check_filesystem_access("/etc/passwd", "/work/project").is_ok());
    assert!(open_protection.check_network_access("malicious-site.com").is_ok());
    assert!(open_protection.check_process_execution("rm").is_ok());
}

#[test]
fn policy_allow_list_membership() {
    let mut config = RuntimeProtectionConfig::default();
    config.allowed_hosts.push("good.example".to_string());
    let protection = RuntimeProtection::with_config(config);
    assert!(protection.check_network_access("good.example").is_ok());
    assert!(protection.check_network_access("other.example").is_err());
}

#[test]
fn policy_violations_carry_the_request() {
    let protection = RuntimeProtection::new();
    match protection.check_filesystem_access("/etc/passwd", "/work/project") {
        Err(RuntimeProtectionError::FileSystemViolation { path }) => {
            assert_eq!(path, "/etc/passwd");
        },
        _ => panic!("Expected FileSystemViolation"),
    }
    match protection.check_network_access("evil.example") {
        Err(RuntimeProtectionError::NetworkViolation { host }) => {
            assert_eq!(host, "evil.example");
        },
        _ => panic!("Expected NetworkViolation"),
    }
    match protection.check_process_execution("rm") {
        Err(RuntimeProtectionError::ProcessViolation { command }) => {
            assert_eq!(command, "rm");
        },
        _ => panic!("Expected ProcessViolation"),
    }
    let blocked = RuntimeProtectionError::ExecutionBlocked { reason: "no".to_string() };
    assert!(blocked.message().starts_with("Script execution blocked: "));
}
