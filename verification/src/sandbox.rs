//! Sandboxed execution: configuration, pre-flight access predicates and the
//! structured result of one supervised run.
//!
//! The process itself is launched and supervised outside this crate; what is
//! verified here is every decision around it: whether a path or host is
//! reachable under the sandbox configuration, and how the supervisor's
//! outcome — completion, timeout or launch failure — maps to a
//! `SandboxResult`.  Exactly one of those three outcomes holds of any run.

use vstd::prelude::*;
use vstd::slice::slice_to_vec;
use crate::paths::{comps_prefix, comps_is_prefix, norm_components, path_components,
    resolved_components, resolved_path, views_of};
use crate::text::{chars_vec, contains_string, seq_has_string};

verus! {

/// Sandbox configuration: policy axes plus numeric resource ceilings.
#[derive(Debug, Clone)]
pub struct SandboxConfig {
    /// Whether to enable the sandbox
    pub enabled: bool,
    /// Allowed directories for file system access
    pub allowed_directories: Vec<String>,
    /// Allowed network hosts
    pub allowed_network_hosts: Vec<String>,
    /// Maximum execution time (in seconds)
    pub max_execution_time: u64,
    /// Maximum memory usage (in MB)
    pub max_memory_mb: u64,
    /// Maximum number of file descriptors
    pub max_file_descriptors: u64,
    /// Whether to allow network access regardless of the allowed hosts
    pub allow_network: bool,
    /// Whether to allow process creation
    pub allow_process_creation: bool,
}

/// The default sandbox: enabled, working tree only, no network, no process
/// creation, five-minute timeout, 1 GB memory, 1024 descriptors.
pub open spec fn is_default_sandbox_config(c: SandboxConfig) -> bool {
    &&& c.enabled
    &&& c.allowed_directories@.len() == 3
    &&& c.allowed_directories@[0]@ == "./"@
    &&& c.allowed_directories@[1]@ == "./node_modules/"@
    &&& c.allowed_directories@[2]@ == "./package.json"@
    &&& c.allowed_network_hosts@.len() == 0
    &&& c.max_execution_time == 300
    &&& c.max_memory_mb == 1024
    &&& c.max_file_descriptors == 1024
    &&& !c.allow_network
    &&& !c.allow_process_creation
}

impl Default for SandboxConfig {
    /// The default sandbox configuration described by
    /// `is_default_sandbox_config`.
    fn default() -> (c: Self)
        ensures
            is_default_sandbox_config(c),
    {
        let mut dirs: Vec<String> = Vec::new();
        dirs.push("./".to_owned());
        dirs.push("./node_modules/".to_owned());
        dirs.push("./package.json".to_owned());
        SandboxConfig {
            enabled: true,
            allowed_directories: dirs,
            allowed_network_hosts: Vec::new(),
            max_execution_time: 300,
            max_memory_mb: 1024,
            max_file_descriptors: 1024,
            allow_network: false,
            allow_process_creation: false,
        }
    }
}

/// Sandbox execution result.  Exactly one of three shapes holds: normal
/// completion with an exit code, a timeout, or an execution failure with an
/// error description.
#[derive(Debug)]
pub struct SandboxResult {
    /// Exit code of the process, absent if it was killed or never started
    pub exit_code: Option<i32>,
    /// Captured standard output
    pub stdout: Vec<u8>,
    /// Captured standard error
    pub stderr: Vec<u8>,
    /// Whether the process was terminated on timeout
    pub timed_out: bool,
    /// Any error that occurred during execution
    pub error: Option<String>,
}

/// What the process supervisor observed of one run: the process completed,
/// was forcibly terminated on timeout, or could not be launched at all.
#[derive(Debug)]
pub enum ProcessOutcome {
    /// The process ran to completion before the deadline.
    Completed {
        /// Exit code, if the platform reported one
        exit_code: Option<i32>,
        /// Captured standard output
        stdout: Vec<u8>,
        /// Captured standard error
        stderr: Vec<u8>,
    },
    /// The deadline won the race and the process was killed; whatever had
    /// been captured from its streams before the kill is carried along.
    TimedOut {
        /// Standard output captured before the kill
        stdout: Vec<u8>,
        /// Standard error captured before the kill
        stderr: Vec<u8>,
    },
    /// The command could not be started.
    LaunchFailed {
        /// The launch error, as text
        message: String,
    },
}

/// The sandbox allows the path: disabled sandboxes allow everything; with no
/// explicitly allowed directories the working directory and everything under
/// it is reachable; otherwise the resolved path must lie under some resolved
/// allowed directory.
pub open spec fn sandbox_path_allowed(c: SandboxConfig, path: Seq<char>, cwd: Seq<char>) -> bool {
    if !c.enabled {
        true
    } else if c.allowed_directories@.len() == 0 {
        comps_prefix(norm_components(cwd), resolved_components(cwd, path))
    } else {
        exists|i: int|
            0 <= i < c.allowed_directories@.len() && comps_prefix(
                resolved_components(cwd, #[trigger] c.allowed_directories@[i]@),
                resolved_components(cwd, path),
            )
    }
}

/// The sandbox allows the host: disabled sandboxes and the global network
/// override allow everything, otherwise the host must be in the allowed set.
pub open spec fn sandbox_host_allowed(c: SandboxConfig, host: Seq<char>) -> bool {
    !c.enabled || c.allow_network || seq_has_string(c.allowed_network_hosts@, host)
}

/// Advanced runtime protection with sandboxing.
#[derive(Debug)]
pub struct SandboxRuntimeProtection {
    config: SandboxConfig,
}

impl SandboxRuntimeProtection {
    /// The configuration this sandbox evaluates against, for contracts.
    pub closed spec fn spec_config(&self) -> SandboxConfig {
        self.config
    }

    /// Create a new sandbox runtime protection instance.
    pub fn new() -> (p: Self)
        ensures
            is_default_sandbox_config(p.spec_config()),
    {
        SandboxRuntimeProtection { config: Default::default() }
    }

    /// Create a new sandbox runtime protection instance with custom
    /// configuration.
    pub fn with_config(config: SandboxConfig) -> (p: Self)
        ensures
            p.spec_config() == config,
    {
        SandboxRuntimeProtection { config }
    }

    /// Pre-flight path check: whether the sandbox would allow access to
    /// `path`, with relative paths resolved against the working directory
    /// `cwd` and compared component-wise against the allowed directories.
    pub fn is_path_allowed(&self, path: &str, cwd: &str) -> (r: bool)
        ensures
            r == sandbox_path_allowed(self.spec_config(), path@, cwd@),
    {
        if !self.config.enabled {
            return true;
        }
        let path_chars = chars_vec(path);
        let cwd_chars = chars_vec(cwd);
        let resolved = resolved_path(&path_chars, &cwd_chars);
        if self.config.allowed_directories.len() == 0 {
            let cwd_comps = path_components(&cwd_chars);
            return comps_is_prefix(&cwd_comps, &resolved);
        }
        let n = self.config.allowed_directories.len();
        let mut i: usize = 0;
        while i < n
            invariant
                n == self.config.allowed_directories@.len(),
                0 <= i <= n,
                path_chars@ == path@,
                cwd_chars@ == cwd@,
                views_of(resolved@) == resolved_components(cwd@, path@),
                forall|j: int| 0 <= j < i
                    ==> !comps_prefix(
                        resolved_components(cwd@, #[trigger] self.config.allowed_directories@[j]@),
                        resolved_components(cwd@, path@),
                    ),
            decreases n - i,
        {
            let dir_chars = chars_vec(self.config.allowed_directories[i].as_str());
            let dir_comps = resolved_path(&dir_chars, &cwd_chars);
            if comps_is_prefix(&dir_comps, &resolved) {
                return true;
            }
            i = i + 1;
        }
        false
    }

    /// Pre-flight host check: whether the sandbox would allow network access
    /// to `host`.
    pub fn is_network_host_allowed(&self, host: &str) -> (r: bool)
        ensures
            r == sandbox_host_allowed(self.spec_config(), host@),
    {
        if !self.config.enabled || self.config.allow_network {
            return true;
        }
        contains_string(&self.config.allowed_network_hosts, host)
    }

    /// Map what the supervisor observed to the structured result handed to
    /// callers, so that exactly one of the three result shapes holds.
    /// Completion with an exit code passes everything through; completion
    /// whose exit code the platform withheld (a signal-killed child) is an
    /// execution failure and carries an error description; a timeout yields
    /// `timed_out` with no exit code and returns the partial output captured
    /// before the kill — discarded-process output is returned, not lost; a
    /// launch failure carries the error text.
    pub fn sandbox_result_from_outcome(&self, outcome: ProcessOutcome) -> (r: SandboxResult)
        ensures
            outcome matches ProcessOutcome::Completed { exit_code, stdout, stderr } ==> (
                r.exit_code == exit_code && r.stdout == stdout && r.stderr == stderr
                && !r.timed_out && (r.error is Some <==> exit_code is None) && (exit_code is None
                ==> (r.error matches Some(e) && e@.len() > 0))),
            outcome matches ProcessOutcome::TimedOut { stdout, stderr } ==> (r.exit_code is None
                && r.timed_out && r.stdout == stdout && r.stderr == stderr && (r.error matches
            Some(e) && e@ == "Command timed out"@)),
            outcome matches ProcessOutcome::LaunchFailed { message } ==> (r.exit_code is None
                && !r.timed_out && r.stdout@.len() == 0 && (r.error matches Some(e) && e@
                == message@)),
            (r.exit_code is Some && !r.timed_out && r.error is None) || (r.timed_out
                && r.exit_code is None) || (!r.timed_out && r.exit_code is None
                && r.error is Some),
    {
        proof {
            reveal_strlit("Process terminated without reporting an exit code");
        }
        match outcome {
            ProcessOutcome::Completed { exit_code, stdout, stderr } => match exit_code {
                Some(code) => SandboxResult {
                    exit_code: Some(code),
                    stdout,
                    stderr,
                    timed_out: false,
                    error: None,
                },
                None => SandboxResult {
                    exit_code: None,
                    stdout,
                    stderr,
                    timed_out: false,
                    error: Some("Process terminated without reporting an exit code".to_owned()),
                },
            },
            ProcessOutcome::TimedOut { stdout, stderr } => SandboxResult {
                exit_code: None,
                stdout,
                stderr,
                timed_out: true,
                error: Some("Command timed out".to_owned()),
            },
            ProcessOutcome::LaunchFailed { message } => {
                let mut stderr: Vec<u8> = slice_to_vec("Failed to execute command: ".as_bytes());
                let mut tail = slice_to_vec(message.as_str().as_bytes());
                stderr.append(&mut tail);
                SandboxResult {
                    exit_code: None,
                    stdout: Vec::new(),
                    stderr,
                    timed_out: false,
                    error: Some(message),
                }
            },
        }
    }
}

impl Default for SandboxRuntimeProtection {
    /// Same as `SandboxRuntimeProtection::new`.
    fn default() -> (p: Self)
        ensures
            is_default_sandbox_config(p.spec_config()),
    {
        SandboxRuntimeProtection::new()
    }
}

} // verus!
