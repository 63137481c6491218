//! Runtime protection: the policy engine.
//!
//! Three independent axes — filesystem, network, process execution — each
//! with a restriction flag and an allow-set.  When an axis is not restricted
//! every request on it is allowed; when it is restricted the allow-set is
//! evaluated as a default-deny list: filesystem paths must start with an
//! allowed prefix, hosts and commands must match exactly.

use vstd::prelude::*;
use vstd::string::StringExecFns;
use crate::paths::{comps_prefix, comps_is_prefix, resolved_components, resolved_path};
use crate::text::{chars_vec, contains_string, seq_has_string};

verus! {

/// Error taxonomy of runtime protection: each axis has its own violation.
#[derive(Debug)]
pub enum RuntimeProtectionError {
    /// Script execution was blocked before or during launch.
    ExecutionBlocked { reason: String },
    /// A filesystem access outside the allowed directories.
    FileSystemViolation { path: String },
    /// A network access to a host outside the allowed set.
    NetworkViolation { host: String },
    /// An attempt to run a command outside the allowed set.
    ProcessViolation { command: String },
}

impl RuntimeProtectionError {
    /// A human-readable description, never empty.
    pub fn message(&self) -> (r: String)
        ensures
            r@.len() > 0,
    {
        proof {
            reveal_strlit("Script execution blocked: ");
            reveal_strlit("File system access violation: ");
            reveal_strlit("Network access violation: ");
            reveal_strlit("Process execution violation: ");
        }
        match self {
            RuntimeProtectionError::ExecutionBlocked { reason } => {
                let mut s: String = "Script execution blocked: ".to_owned();
                s.append(reason.as_str());
                s
            },
            RuntimeProtectionError::FileSystemViolation { path } => {
                let mut s: String = "File system access violation: ".to_owned();
                s.append(path.as_str());
                s
            },
            RuntimeProtectionError::NetworkViolation { host } => {
                let mut s: String = "Network access violation: ".to_owned();
                s.append(host.as_str());
                s
            },
            RuntimeProtectionError::ProcessViolation { command } => {
                let mut s: String = "Process execution violation: ".to_owned();
                s.append(command.as_str());
                s
            },
        }
    }
}

/// Runtime protection configuration: three axes plus an execution timeout.
#[derive(Debug, Clone)]
pub struct RuntimeProtectionConfig {
    /// Whether to enable file system restrictions
    pub restrict_filesystem: bool,
    /// Allowed directory prefixes for file system access
    pub allowed_directories: Vec<String>,
    /// Whether to enable network restrictions
    pub restrict_network: bool,
    /// Allowed hosts for network access
    pub allowed_hosts: Vec<String>,
    /// Whether to enable process execution restrictions
    pub restrict_process_execution: bool,
    /// Allowed commands for process execution
    pub allowed_commands: Vec<String>,
    /// Timeout for script execution (in seconds)
    pub execution_timeout: u64,
}

/// Some allowed directory, resolved against the working directory, is a
/// component-wise prefix of the resolved request.
pub open spec fn path_has_allowed_prefix(
    dirs: Seq<String>,
    path: Seq<char>,
    cwd: Seq<char>,
) -> bool {
    exists|i: int|
        0 <= i < dirs.len() && comps_prefix(
            resolved_components(cwd, #[trigger] dirs[i]@),
            resolved_components(cwd, path),
        )
}

/// The filesystem axis allows the path: either the axis is unrestricted or
/// the path, resolved to an absolute component sequence against the working
/// directory, starts with an allowed directory resolved the same way —
/// resolution defeats relative-path traversal.
pub open spec fn filesystem_allowed(
    config: RuntimeProtectionConfig,
    path: Seq<char>,
    cwd: Seq<char>,
) -> bool {
    !config.restrict_filesystem || path_has_allowed_prefix(
        config.allowed_directories@,
        path,
        cwd,
    )
}

/// The network axis allows the host: unrestricted, or an exact match.
pub open spec fn network_allowed(config: RuntimeProtectionConfig, host: Seq<char>) -> bool {
    !config.restrict_network || seq_has_string(config.allowed_hosts@, host)
}

/// The process axis allows the command: unrestricted, or an exact match.
pub open spec fn process_allowed(config: RuntimeProtectionConfig, command: Seq<char>) -> bool {
    !config.restrict_process_execution || seq_has_string(config.allowed_commands@, command)
}

/// The default policy: all three axes restricted, only the working tree
/// reachable, no hosts, no commands, a five-minute timeout.
pub open spec fn is_default_runtime_config(c: RuntimeProtectionConfig) -> bool {
    &&& c.restrict_filesystem
    &&& c.restrict_network
    &&& c.restrict_process_execution
    &&& c.allowed_directories@.len() == 3
    &&& c.allowed_directories@[0]@ == "./"@
    &&& c.allowed_directories@[1]@ == "./node_modules/"@
    &&& c.allowed_directories@[2]@ == "./package.json"@
    &&& c.allowed_hosts@.len() == 0
    &&& c.allowed_commands@.len() == 0
    &&& c.execution_timeout == 300
}

impl Default for RuntimeProtectionConfig {
    /// All three axes restricted; only the working tree is reachable; no
    /// hosts, no commands; five-minute timeout.
    fn default() -> (c: Self)
        ensures
            is_default_runtime_config(c),
    {
        let mut dirs: Vec<String> = Vec::new();
        dirs.push("./".to_owned());
        dirs.push("./node_modules/".to_owned());
        dirs.push("./package.json".to_owned());
        RuntimeProtectionConfig {
            restrict_filesystem: true,
            allowed_directories: dirs,
            restrict_network: true,
            allowed_hosts: Vec::new(),
            restrict_process_execution: true,
            allowed_commands: Vec::new(),
            execution_timeout: 300,
        }
    }
}

/// Runtime protection context: evaluates requests against its configuration.
#[derive(Debug)]
pub struct RuntimeProtection {
    config: RuntimeProtectionConfig,
}

impl RuntimeProtection {
    /// The configuration this instance evaluates against, for contracts.
    pub closed spec fn spec_config(&self) -> RuntimeProtectionConfig {
        self.config
    }

    /// Create a new runtime protection instance with default configuration.
    pub fn new() -> (p: Self)
        ensures
            is_default_runtime_config(p.spec_config()),
    {
        RuntimeProtection { config: Default::default() }
    }

    /// Create a new runtime protection instance with custom configuration.
    pub fn with_config(config: RuntimeProtectionConfig) -> (p: Self)
        ensures
            p.spec_config() == config,
    {
        RuntimeProtection { config }
    }

    /// Check if a file system access is allowed: `Ok` exactly when the axis
    /// is unrestricted or the path, resolved against the working directory
    /// `cwd`, lies under an allowed directory resolved the same way.
    pub fn check_filesystem_access(&self, path: &str, cwd: &str) -> (r: Result<
        (),
        RuntimeProtectionError,
    >)
        ensures
            r is Ok <==> filesystem_allowed(self.spec_config(), path@, cwd@),
            r is Err ==> (r matches Err(RuntimeProtectionError::FileSystemViolation { path: p })
                && p@ == path@),
    {
        if !self.config.restrict_filesystem {
            return Ok(());
        }
        let path_chars = chars_vec(path);
        let cwd_chars = chars_vec(cwd);
        let resolved = resolved_path(&path_chars, &cwd_chars);
        let n = self.config.allowed_directories.len();
        let mut i: usize = 0;
        while i < n
            invariant
                n == self.config.allowed_directories@.len(),
                0 <= i <= n,
                path_chars@ == path@,
                cwd_chars@ == cwd@,
                crate::paths::views_of(resolved@) == resolved_components(cwd@, path@),
                forall|j: int| 0 <= j < i
                    ==> !comps_prefix(
                        resolved_components(cwd@, #[trigger] self.config.allowed_directories@[j]@),
                        resolved_components(cwd@, path@),
                    ),
            decreases n - i,
        {
            let dir_chars = chars_vec(self.config.allowed_directories[i].as_str());
            let dir_comps = resolved_path(&dir_chars, &cwd_chars);
            if comps_is_prefix(&dir_comps, &resolved) {
                return Ok(());
            }
            i = i + 1;
        }
        Err(RuntimeProtectionError::FileSystemViolation { path: path.to_owned() })
    }

    /// Check if network access to a host is allowed: `Ok` exactly when the
    /// axis is unrestricted or the host is in the allowed set.
    pub fn check_network_access(&self, host: &str) -> (r: Result<(), RuntimeProtectionError>)
        ensures
            r is Ok <==> network_allowed(self.spec_config(), host@),
            r is Err ==> (r matches Err(RuntimeProtectionError::NetworkViolation { host: h })
                && h@ == host@),
    {
        if !self.config.restrict_network {
            return Ok(());
        }
        if contains_string(&self.config.allowed_hosts, host) {
            Ok(())
        } else {
            Err(RuntimeProtectionError::NetworkViolation { host: host.to_owned() })
        }
    }

    /// Check if process execution is allowed: `Ok` exactly when the axis is
    /// unrestricted or the command is in the allowed set.
    pub fn check_process_execution(&self, command: &str) -> (r: Result<(), RuntimeProtectionError>)
        ensures
            r is Ok <==> process_allowed(self.spec_config(), command@),
            r is Err ==> (r matches Err(RuntimeProtectionError::ProcessViolation { command: c })
                && c@ == command@),
    {
        if !self.config.restrict_process_execution {
            return Ok(());
        }
        if contains_string(&self.config.allowed_commands, command) {
            Ok(())
        } else {
            Err(RuntimeProtectionError::ProcessViolation { command: command.to_owned() })
        }
    }
}

impl Default for RuntimeProtection {
    /// Same as `RuntimeProtection::new`.
    fn default() -> (p: Self)
        ensures
            is_default_runtime_config(p.spec_config()),
    {
        RuntimeProtection::new()
    }
}

/// Policy default-deny: with a restricted axis and an empty allow-set every
/// request on that axis is denied; with the axis unrestricted every request
/// is allowed regardless of the allow-set contents.
pub proof fn lemma_policy_default_deny(
    config: RuntimeProtectionConfig,
    path: Seq<char>,
    cwd: Seq<char>,
    host: Seq<char>,
    command: Seq<char>,
)
    ensures
        config.restrict_filesystem && config.allowed_directories@.len() == 0
            ==> !filesystem_allowed(config, path, cwd),
        config.restrict_network && config.allowed_hosts@.len() == 0
            ==> !network_allowed(config, host),
        config.restrict_process_execution && config.allowed_commands@.len() == 0
            ==> !process_allowed(config, command),
        !config.restrict_filesystem ==> filesystem_allowed(config, path, cwd),
        !config.restrict_network ==> network_allowed(config, host),
        !config.restrict_process_execution ==> process_allowed(config, command),
{
}

/// Policy allow-list membership: adding host `h` to the allowed set makes a
/// check of `h` succeed, and any other host is allowed afterwards exactly
/// when it was allowed before.
pub proof fn lemma_allow_list_membership(
    config: RuntimeProtectionConfig,
    extended: RuntimeProtectionConfig,
    h: String,
    other: Seq<char>,
)
    requires
        extended.restrict_network == config.restrict_network,
        extended.allowed_hosts@ == config.allowed_hosts@.push(h),
    ensures
        network_allowed(extended, h@),
        other != h@ ==> (network_allowed(extended, other) <==> network_allowed(config, other)),
{
    let hosts = config.allowed_hosts@;
    assert(extended.allowed_hosts@[hosts.len() as int]@ == h@);
    assert(seq_has_string(extended.allowed_hosts@, h@));
    if other != h@ {
        if seq_has_string(extended.allowed_hosts@, other) {
            let i = choose|i: int|
                0 <= i < extended.allowed_hosts@.len()
                    && #[trigger] extended.allowed_hosts@[i]@ == other;
            assert(i < hosts.len());
            assert(hosts[i]@ == other);
            assert(seq_has_string(hosts, other));
        }
        if seq_has_string(hosts, other) {
            let i = choose|i: int| 0 <= i < hosts.len() && #[trigger] hosts[i]@ == other;
            assert(extended.allowed_hosts@[i]@ == other);
            assert(seq_has_string(extended.allowed_hosts@, other));
        }
    }
}

} // verus!
