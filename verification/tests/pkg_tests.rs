use package_fast::pkg::{get_package_info, install_all_dependencies, package_info_from_version,
    parse_package_spec, select_latest_version, InstallOptions, PackageDistribution, PackageInfo,
    PackageMetadata, PackageVersion};
use package_fast::{SecurityConfig, SecurityContext};

#[test]
fn test_package_info_creation() {
    let pkg = PackageInfo::new("test-package", "1.0.0");
    assert_eq!(pkg.name, "test-package");
    assert_eq!(pkg.version, "1.0.0");
}

#[test]
fn test_get_package_info() {
    let pkg = get_package_info("test-package");
    assert_eq!(pkg.name, "test-package");
    assert_eq!(pkg.version, "1.0.0");
}

#[test]
fn package_specs_split_on_a_single_at() {
    let (name, version) = parse_package_spec("left-pad@1.3.0");
    assert_eq!(name, "left-pad");
    assert_eq!(version, Some("1.3.0".to_string()));

    let (bare, none) = parse_package_spec("left-pad");
    assert_eq!(bare, "left-pad");
    assert_eq!(none, None);

    // More than one separator leaves the specifier whole.
    let (odd, still_none) = parse_package_spec("a@b@c");
    assert_eq!(odd, "a@b@c");
    assert_eq!(still_none, None);
}

fn metadata_with(latest: Option<&str>, versions: Vec<&str>) -> PackageMetadata {
    PackageMetadata {
        name: "demo".to_string(),
        dist_tags: latest
            .map(|v| vec![("latest".to_string(), v.to_string())])
            .unwrap_or_default(),
        versions: versions
            .into_iter()
            .map(|v| {
                (
                    v.to_string(),
                    PackageVersion {
                        name: "demo".to_string(),
                        version: v.to_string(),
                        dependencies: None,
                        dev_dependencies: None,
                        dist: PackageDistribution {
                            tarball: "https://registry.example/demo.tgz".to_string(),
                            shasum: "0".to_string(),
                        },
                    },
                )
            })
            .collect(),
    }
}

#[test]
fn latest_version_follows_the_latest_tag() {
    let metadata = metadata_with(Some("2.0.0"), vec!["1.0.0", "2.0.0"]);
    let latest = select_latest_version(&metadata).unwrap();
    assert_eq!(latest.version, "2.0.0");

    let no_tag = metadata_with(None, vec!["1.0.0"]);
    assert!(select_latest_version(&no_tag).is_err());

    let dangling = metadata_with(Some("3.0.0"), vec!["1.0.0"]);
    assert!(select_latest_version(&dangling).is_err());
}

#[test]
fn package_info_takes_declared_dependencies() {
    let version = PackageVersion {
        name: "demo".to_string(),
        version: "1.0.0".to_string(),
        dependencies: Some(vec![("left-pad".to_string(), "^1.0.0".to_string())]),
        dev_dependencies: None,
        dist: PackageDistribution { tarball: "t".to_string(), shasum: "s".to_string() },
    };
    let info = package_info_from_version(&version);
    assert_eq!(info.name, "demo");
    assert_eq!(info.dependencies, vec![("left-pad".to_string(), "^1.0.0".to_string())]);
    assert!(info.dev_dependencies.is_empty());
}

#[test]
fn installing_nothing_installs_nothing() {
    let result = install_all_dependencies(&InstallOptions::default());
    assert!(result.installed_packages.is_empty());
    assert_eq!(result.total_size, 0);
}

#[test]
fn security_context_defaults_enable_everything() {
    let ctx = SecurityContext::new();
    assert!(ctx.config().verify_integrity);
    assert!(ctx.config().scan_vulnerabilities);
    assert!(ctx.config().generate_audit_trail);
    assert!(ctx.config().enable_runtime_protection);

    let custom = SecurityContext::with_config(SecurityConfig {
        verify_integrity: false,
        scan_vulnerabilities: true,
        generate_audit_trail: true,
        enable_runtime_protection: false,
    });
    assert!(!custom.config().verify_integrity);
    assert!(!custom.config().enable_runtime_protection);
}
