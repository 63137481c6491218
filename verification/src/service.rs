//! The security gateway: one front door for integrity verification,
//! vulnerability scanning and protected script execution.
//!
//! Every operation is wrapped the same way: exactly one audit event is
//! appended — carrying the outcome, with the error text on failure — one
//! timing sample is recorded, and the delegated result is returned
//! unchanged.  Audit and timing never gate the operation itself.

use vstd::prelude::*;
use crate::audit::{AuditTrail, AuditEvent, AuditEventType};
use crate::integrity::{verify_package_integrity, calculate_package_hash, IntegrityError,
    fold_hex, hex_of, sha512_of};
use crate::performance::{PerformanceMonitor, MetricType};
use crate::runtime::{RuntimeProtection, RuntimeProtectionError, filesystem_allowed,
    network_allowed, process_allowed, is_default_runtime_config};
use crate::sandbox::{SandboxRuntimeProtection, SandboxResult, ProcessOutcome,
    is_default_sandbox_config};
use crate::vuln::VulnerabilityReport;

verus! {

/// Security service configuration.
#[derive(Debug, Clone)]
pub struct SecurityServiceConfig {
    /// Whether to enable integrity verification
    pub verify_integrity: bool,
    /// Whether to enable vulnerability scanning
    pub scan_vulnerabilities: bool,
    /// Whether to generate audit trails
    pub generate_audit_trail: bool,
    /// Whether to enable runtime protection
    pub enable_runtime_protection: bool,
    /// Durable audit sink path, if any
    pub audit_trail_file: Option<String>,
}

impl Default for SecurityServiceConfig {
    /// Every feature on; no durable sink.
    fn default() -> (c: Self)
        ensures
            c.verify_integrity,
            c.scan_vulnerabilities,
            c.generate_audit_trail,
            c.enable_runtime_protection,
            c.audit_trail_file is None,
    {
        SecurityServiceConfig {
            verify_integrity: true,
            scan_vulnerabilities: true,
            generate_audit_trail: true,
            enable_runtime_protection: true,
            audit_trail_file: None,
        }
    }
}

/// The security gateway: owns one audit trail, one policy engine, one
/// sandbox and one performance monitor.
#[derive(Debug)]
pub struct SecurityService {
    config: SecurityServiceConfig,
    audit_trail: AuditTrail,
    runtime_protection: RuntimeProtection,
    sandbox_protection: SandboxRuntimeProtection,
    performance_monitor: PerformanceMonitor,
}

/// What the gateway guarantees of the one audit event it appends around an
/// operation: the log grew by exactly that event, of the right kind, naming
/// the package, carrying the outcome, with a non-empty error text on
/// failure.
pub open spec fn audited_once(
    old_events: Seq<AuditEvent>,
    new_events: Seq<AuditEvent>,
    kind: AuditEventType,
    package_name: Seq<char>,
    ok: bool,
) -> bool {
    &&& new_events.len() == old_events.len() + 1
    &&& new_events == old_events.push(new_events.last())
    &&& new_events.last()@.event_type == kind
    &&& new_events.last()@.package_name == Some(package_name)
    &&& new_events.last()@.success == ok
    &&& !ok ==> (new_events.last()@.error_message matches Some(msg) && msg.len() > 0)
}

impl SecurityService {
    /// The gateway's configuration, for contracts.
    pub closed spec fn spec_config(&self) -> SecurityServiceConfig {
        self.config
    }

    /// The gateway's audit trail, for contracts.
    pub closed spec fn spec_audit_trail(&self) -> AuditTrail {
        self.audit_trail
    }

    /// The gateway's policy engine, for contracts.
    pub closed spec fn spec_runtime_protection(&self) -> RuntimeProtection {
        self.runtime_protection
    }

    /// The gateway's sandbox, for contracts.
    pub closed spec fn spec_sandbox_protection(&self) -> SandboxRuntimeProtection {
        self.sandbox_protection
    }

    /// The gateway's performance monitor, for contracts.
    pub closed spec fn spec_performance_monitor(&self) -> PerformanceMonitor {
        self.performance_monitor
    }

    /// Create a new security service with default configuration.
    pub fn new() -> (s: Self)
        ensures
            s.spec_config().verify_integrity,
            s.spec_config().scan_vulnerabilities,
            s.spec_config().generate_audit_trail,
            s.spec_config().enable_runtime_protection,
            s.spec_config().audit_trail_file is None,
            s.spec_audit_trail().spec_events().len() == 0,
            s.spec_audit_trail().spec_output_file() is None,
            is_default_runtime_config(s.spec_runtime_protection().spec_config()),
            is_default_sandbox_config(s.spec_sandbox_protection().spec_config()),
            s.spec_performance_monitor().spec_metrics().len() == 0,
    {
        SecurityService {
            config: Default::default(),
            audit_trail: AuditTrail::new(),
            runtime_protection: RuntimeProtection::new(),
            sandbox_protection: SandboxRuntimeProtection::new(),
            performance_monitor: PerformanceMonitor::new(),
        }
    }

    /// Create a new security service with custom configuration.  The audit
    /// trail mirrors the configured sink path.
    pub fn with_config(config: SecurityServiceConfig) -> (s: Self)
        ensures
            s.spec_config() == config,
            s.spec_audit_trail().spec_events().len() == 0,
            s.spec_audit_trail().spec_output_file() == config.audit_trail_file,
            is_default_runtime_config(s.spec_runtime_protection().spec_config()),
            is_default_sandbox_config(s.spec_sandbox_protection().spec_config()),
            s.spec_performance_monitor().spec_metrics().len() == 0,
    {
        let audit_trail = match &config.audit_trail_file {
            Some(file) => AuditTrail::with_output_file(file.clone()),
            None => AuditTrail::new(),
        };
        SecurityService {
            config,
            audit_trail,
            runtime_protection: RuntimeProtection::new(),
            sandbox_protection: SandboxRuntimeProtection::new(),
            performance_monitor: PerformanceMonitor::new(),
        }
    }

    /// Verify the integrity of package artifact bytes.  The verifier's
    /// result is returned unchanged; around it, exactly one audit event of
    /// kind `IntegrityCheck` is appended — with `success` mirroring the
    /// outcome and the error text attached on failure — and one timing
    /// sample of kind `IntegrityVerification` is recorded.
    pub fn verify_package_file_integrity(
        &mut self,
        package_name: &str,
        package_version: &str,
        content: &Vec<u8>,
        expected_hash: &str,
    ) -> (r: Result<(), IntegrityError>)
        ensures
            r is Ok <==> fold_hex(expected_hash@) == hex_of(sha512_of(content@)),
            r is Err ==> (r matches Err(IntegrityError::HashMismatch { expected, actual })
                && expected@ == expected_hash@ && actual@ == hex_of(sha512_of(content@))),
            audited_once(
                old(self).spec_audit_trail().spec_events(),
                final(self).spec_audit_trail().spec_events(),
                AuditEventType::IntegrityCheck,
                package_name@,
                r is Ok,
            ),
            final(self).spec_audit_trail().spec_events().last()@.package_version == Some(
                package_version@,
            ),
            old(self).spec_performance_monitor().spec_config().enabled ==> (final(self).spec_performance_monitor().spec_metrics() == old(self).spec_performance_monitor().spec_metrics().push(
                final(self).spec_performance_monitor().spec_metrics().last(),
            ) && final(self).spec_performance_monitor().spec_metrics().last().metric_type
                == MetricType::IntegrityVerification),
            !old(self).spec_performance_monitor().spec_config().enabled ==> final(self).spec_performance_monitor().spec_metrics() == old(self).spec_performance_monitor().spec_metrics(),
            final(self).spec_performance_monitor().spec_config() == old(self).spec_performance_monitor().spec_config(),
            final(self).spec_runtime_protection() == old(self).spec_runtime_protection(),
            final(self).spec_sandbox_protection() == old(self).spec_sandbox_protection(),
            final(self).spec_config() == old(self).spec_config(),
            final(self).spec_audit_trail().spec_output_file() == old(self).spec_audit_trail().spec_output_file(),
    {
        let start = self.performance_monitor.start_timing();
        let result = verify_package_integrity(content, expected_hash);
        let mut event = AuditEvent::new(AuditEventType::IntegrityCheck).with_package_name(
            package_name.to_owned(),
        ).with_package_version(package_version.to_owned());
        match &result {
            Ok(_) => {},
            Err(e) => {
                event = event.with_error(e.message());
            },
        }
        let _ = self.audit_trail.add_event(event);
        self.performance_monitor.end_timing(start, MetricType::IntegrityVerification);
        result
    }

    /// Calculate the digest of package artifact bytes, as lowercase hex.
    pub fn calculate_package_file_hash(&self, content: &Vec<u8>) -> (r: String)
        ensures
            r@ == hex_of(sha512_of(content@)),
    {
        calculate_package_hash(content)
    }

    /// Record a vulnerability scan.  The collaborator's outcome — produced
    /// by whatever queried the databases — is returned unchanged; around
    /// it, exactly one audit event of kind `VulnerabilityScan` is appended
    /// and one timing sample of kind `VulnerabilityScan` is recorded.
    pub fn scan_package_for_vulnerabilities(
        &mut self,
        package_name: &str,
        package_version: &str,
        scan: Result<VulnerabilityReport, String>,
    ) -> (r: Result<VulnerabilityReport, String>)
        ensures
            r == scan,
            audited_once(
                old(self).spec_audit_trail().spec_events(),
                final(self).spec_audit_trail().spec_events(),
                AuditEventType::VulnerabilityScan,
                package_name@,
                scan is Ok,
            ),
            final(self).spec_audit_trail().spec_events().last()@.package_version == Some(
                package_version@,
            ),
            old(self).spec_performance_monitor().spec_config().enabled ==> (final(self).spec_performance_monitor().spec_metrics() == old(self).spec_performance_monitor().spec_metrics().push(
                final(self).spec_performance_monitor().spec_metrics().last(),
            ) && final(self).spec_performance_monitor().spec_metrics().last().metric_type
                == MetricType::VulnerabilityScan),
            !old(self).spec_performance_monitor().spec_config().enabled ==> final(self).spec_performance_monitor().spec_metrics() == old(self).spec_performance_monitor().spec_metrics(),
            final(self).spec_performance_monitor().spec_config() == old(self).spec_performance_monitor().spec_config(),
            final(self).spec_runtime_protection() == old(self).spec_runtime_protection(),
            final(self).spec_sandbox_protection() == old(self).spec_sandbox_protection(),
            final(self).spec_config() == old(self).spec_config(),
            final(self).spec_audit_trail().spec_output_file() == old(self).spec_audit_trail().spec_output_file(),
    {
        proof {
            reveal_strlit("vulnerability scan failed: ");
        }
        let start = self.performance_monitor.start_timing();
        let mut event = AuditEvent::new(AuditEventType::VulnerabilityScan).with_package_name(
            package_name.to_owned(),
        ).with_package_version(package_version.to_owned());
        match &scan {
            Ok(_) => {},
            Err(e) => {
                let mut msg: String = "vulnerability scan failed: ".to_owned();
                msg.append(e.as_str());
                event = event.with_error(msg);
            },
        }
        let _ = self.audit_trail.add_event(event);
        self.performance_monitor.end_timing(start, MetricType::VulnerabilityScan);
        scan
    }

    /// Run one protected script execution to its conclusion.  What the
    /// supervisor observed is mapped to the caller's result: completions
    /// and timeouts become a `SandboxResult`, a launch failure becomes
    /// `ExecutionBlocked` with the reason preserved.  Around it, exactly
    /// one audit event of kind `RuntimeProtection` — recording the script
    /// name as a detail — and one `SandboxExecution` timing sample.
    pub fn execute_package_script(
        &mut self,
        package_name: &str,
        script_name: &str,
        outcome: ProcessOutcome,
    ) -> (r: Result<SandboxResult, RuntimeProtectionError>)
        ensures
            r is Ok <==> !(outcome is LaunchFailed),
            outcome matches ProcessOutcome::Completed { exit_code, stdout, stderr } ==> (r matches
                Ok(sr) && sr.exit_code == exit_code && sr.stdout == stdout && sr.stderr == stderr
                && !sr.timed_out && (sr.error is Some <==> exit_code is None)),
            outcome matches ProcessOutcome::TimedOut { stdout, stderr } ==> (r matches Ok(sr)
                && sr.timed_out && sr.exit_code is None && sr.stdout == stdout && sr.stderr
                == stderr),
            outcome matches ProcessOutcome::LaunchFailed { message } ==> (r matches Err(
                RuntimeProtectionError::ExecutionBlocked { reason },
            ) && reason@ == message@),
            audited_once(
                old(self).spec_audit_trail().spec_events(),
                final(self).spec_audit_trail().spec_events(),
                AuditEventType::RuntimeProtection,
                package_name@,
                !(outcome is LaunchFailed),
            ),
            final(self).spec_audit_trail().spec_events().last()@.details.len() == 1,
            final(self).spec_audit_trail().spec_events().last()@.details[0].0 == "script_name"@,
            final(self).spec_audit_trail().spec_events().last()@.details[0].1 == script_name@,
            old(self).spec_performance_monitor().spec_config().enabled ==> (final(self).spec_performance_monitor().spec_metrics() == old(self).spec_performance_monitor().spec_metrics().push(
                final(self).spec_performance_monitor().spec_metrics().last(),
            ) && final(self).spec_performance_monitor().spec_metrics().last().metric_type
                == MetricType::SandboxExecution),
            !old(self).spec_performance_monitor().spec_config().enabled ==> final(self).spec_performance_monitor().spec_metrics() == old(self).spec_performance_monitor().spec_metrics(),
            final(self).spec_performance_monitor().spec_config() == old(self).spec_performance_monitor().spec_config(),
            final(self).spec_runtime_protection() == old(self).spec_runtime_protection(),
            final(self).spec_sandbox_protection() == old(self).spec_sandbox_protection(),
            final(self).spec_config() == old(self).spec_config(),
            final(self).spec_audit_trail().spec_output_file() == old(self).spec_audit_trail().spec_output_file(),
    {
        let start = self.performance_monitor.start_timing();
        let mut event = AuditEvent::new(AuditEventType::RuntimeProtection).with_package_name(
            package_name.to_owned(),
        ).with_detail("script_name".to_owned(), script_name.to_owned());
        let result: Result<SandboxResult, RuntimeProtectionError> = match outcome {
            ProcessOutcome::LaunchFailed { message } => {
                let reason = message.clone();
                let blocked = RuntimeProtectionError::ExecutionBlocked { reason };
                event = event.with_error(blocked.message());
                Err(RuntimeProtectionError::ExecutionBlocked { reason: message })
            },
            other => Ok(self.sandbox_protection.sandbox_result_from_outcome(other)),
        };
        let _ = self.audit_trail.add_event(event);
        self.performance_monitor.end_timing(start, MetricType::SandboxExecution);
        result
    }

    /// Get the performance monitor, where an operator can read the
    /// recorded samples and the raised alerts.
    pub fn performance_monitor(&self) -> (r: &PerformanceMonitor)
        ensures
            *r == self.spec_performance_monitor(),
    {
        &self.performance_monitor
    }

    /// Get the audit trail.
    pub fn audit_trail(&self) -> (r: &AuditTrail)
        ensures
            *r == self.spec_audit_trail(),
    {
        &self.audit_trail
    }

    /// The serialized sink line for the most recent event, when a durable
    /// sink is configured: the caller appends it to the sink file.
    pub fn pending_sink_line(&self) -> (r: Option<String>)
        ensures
            r is Some <==> (self.spec_audit_trail().spec_output_file() is Some
                && self.spec_audit_trail().spec_events().len() > 0),
            r matches Some(line) ==> line@ == crate::json::event_json(
                self.spec_audit_trail().spec_events().last()@,
            ),
    {
        match self.audit_trail.output_file() {
            Some(_) => {
                let events = self.audit_trail.events();
                if events.len() > 0 {
                    Some(AuditTrail::event_json_line(&events[events.len() - 1]))
                } else {
                    None
                }
            },
            None => None,
        }
    }

    /// Export the audit trail as pretty-printed JSON.
    pub fn export_audit_trail_to_json(&self) -> (r: String)
        ensures
            r@ == crate::json::json_export(
                crate::audit::views_of_events(self.spec_audit_trail().spec_events()),
            ),
    {
        self.audit_trail.export_to_json()
    }

    /// Export the audit trail as ten-column CSV.
    pub fn export_audit_trail_to_csv(&self) -> (r: String)
        ensures
            r@ == crate::audit::csv_text(
                crate::audit::views_of_events(self.spec_audit_trail().spec_events()),
            ),
    {
        self.audit_trail.export_to_csv()
    }

    /// Check if a file system access is allowed, with relative paths
    /// resolved against the working directory `cwd`.
    pub fn check_filesystem_access(&self, path: &str, cwd: &str) -> (r: Result<
        (),
        RuntimeProtectionError,
    >)
        ensures
            r is Ok <==> filesystem_allowed(
                self.spec_runtime_protection().spec_config(),
                path@,
                cwd@,
            ),
            r is Err ==> (r matches Err(RuntimeProtectionError::FileSystemViolation { path: p })
                && p@ == path@),
    {
        self.runtime_protection.check_filesystem_access(path, cwd)
    }

    /// Check if network access to a host is allowed.
    pub fn check_network_access(&self, host: &str) -> (r: Result<(), RuntimeProtectionError>)
        ensures
            r is Ok <==> network_allowed(self.spec_runtime_protection().spec_config(), host@),
            r is Err ==> (r matches Err(RuntimeProtectionError::NetworkViolation { host: h })
                && h@ == host@),
    {
        self.runtime_protection.check_network_access(host)
    }

    /// Check if process execution is allowed.
    pub fn check_process_execution(&self, command: &str) -> (r: Result<
        (),
        RuntimeProtectionError,
    >)
        ensures
            r is Ok <==> process_allowed(self.spec_runtime_protection().spec_config(), command@),
            r is Err ==> (r matches Err(RuntimeProtectionError::ProcessViolation { command: c })
                && c@ == command@),
    {
        self.runtime_protection.check_process_execution(command)
    }
}

impl Default for SecurityService {
    /// Same as `SecurityService::new`.
    fn default() -> (s: Self)
        ensures
            s.spec_config().verify_integrity,
            s.spec_audit_trail().spec_events().len() == 0,
    {
        SecurityService::new()
    }
}

} // verus!
