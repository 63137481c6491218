//! Package security gateway: integrity verification, policy evaluation,
//! sandboxed execution results, audit trails and performance monitoring
//! for third-party package installation.

pub mod audit;
pub mod integrity;
pub mod json;
pub mod paths;
pub mod performance;
pub mod runtime;
pub mod sandbox;
pub mod service;
pub mod pkg;
pub mod text;
pub mod vuln;

use vstd::prelude::*;

verus! {

/// Security module configuration: one toggle per protection feature.
#[derive(Debug, Clone)]
pub struct SecurityConfig {
    /// Whether to enable integrity verification
    pub verify_integrity: bool,
    /// Whether to enable vulnerability scanning
    pub scan_vulnerabilities: bool,
    /// Whether to generate audit trails
    pub generate_audit_trail: bool,
    /// Whether to enable runtime protection
    pub enable_runtime_protection: bool,
}

impl Default for SecurityConfig {
    /// Every protection feature is on by default.
    fn default() -> (c: Self)
        ensures
            c.verify_integrity,
            c.scan_vulnerabilities,
            c.generate_audit_trail,
            c.enable_runtime_protection,
    {
        SecurityConfig {
            verify_integrity: true,
            scan_vulnerabilities: true,
            generate_audit_trail: true,
            enable_runtime_protection: true,
        }
    }
}

/// Main security context that holds configuration and state.
#[derive(Debug)]
pub struct SecurityContext {
    config: SecurityConfig,
}

impl SecurityContext {
    /// The configuration held by this context, for use in contracts.
    pub closed spec fn spec_config(&self) -> SecurityConfig {
        self.config
    }

    /// Create a new security context with default configuration.
    pub fn new() -> (ctx: Self)
        ensures
            ctx.spec_config().verify_integrity,
            ctx.spec_config().scan_vulnerabilities,
            ctx.spec_config().generate_audit_trail,
            ctx.spec_config().enable_runtime_protection,
    {
        SecurityContext { config: Default::default() }
    }

    /// Create a new security context with custom configuration.
    pub fn with_config(config: SecurityConfig) -> (ctx: Self)
        ensures
            ctx.spec_config() == config,
    {
        SecurityContext { config }
    }

    /// Get a reference to the current configuration.
    pub fn config(&self) -> (c: &SecurityConfig)
        ensures
            c == self.spec_config(),
    {
        &self.config
    }
}

impl Default for SecurityContext {
    /// Same as `SecurityContext::new`.
    fn default() -> (ctx: Self)
        ensures
            ctx.spec_config().verify_integrity,
            ctx.spec_config().scan_vulnerabilities,
            ctx.spec_config().generate_audit_trail,
            ctx.spec_config().enable_runtime_protection,
    {
        SecurityContext::new()
    }
}

} // verus!
