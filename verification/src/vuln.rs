//! Vulnerability database records.
//!
//! Typed records for the three query surfaces — NVD, the GitHub Advisory
//! Database and OSV — and the report the gateway hands back after a scan.
//! The queries themselves are network I/O and live outside this crate; the
//! records here carry their results as plain values.

use vstd::prelude::*;

verus! {

/// What a vulnerability scan found for one package.
#[derive(Debug)]
pub struct VulnerabilityReport {
    /// The scanned package
    pub package_name: String,
    /// The scanned version
    pub package_version: String,
    /// Identifiers of the vulnerabilities found
    pub vulnerability_ids: Vec<String>,
}

/// NVD CVE description.
#[derive(Debug, Clone)]
pub struct NvdDescription {
    /// Language tag
    pub lang: String,
    /// Description text
    pub value: String,
}

/// NVD weakness.
#[derive(Debug, Clone)]
pub struct NvdWeakness {
    /// Assigning source
    pub source: String,
    /// Weakness kind
    pub kind: String,
    /// Weakness descriptions
    pub description: Vec<NvdDescription>,
}

/// NVD configuration.
#[derive(Debug)]
pub struct NvdConfiguration {
    /// Configuration nodes
    pub nodes: Vec<NvdNode>,
}

/// NVD configuration node.
#[derive(Debug)]
pub struct NvdNode {
    /// Boolean operator joining the matches
    pub operator: String,
    /// Whether the node is negated
    pub negate: Option<bool>,
    /// CPE matches
    pub cpe_match: Option<Vec<CpeMatch>>,
    /// Child nodes
    pub children: Option<Vec<NvdNode>>,
}

/// CPE match.
#[derive(Debug, Clone)]
pub struct CpeMatch {
    /// Whether matching products are vulnerable
    pub vulnerable: bool,
    /// CPE criteria string
    pub criteria: String,
    /// Inclusive lower version bound
    pub version_start_including: Option<String>,
    /// Exclusive lower version bound
    pub version_start_excluding: Option<String>,
    /// Inclusive upper version bound
    pub version_end_including: Option<String>,
    /// Exclusive upper version bound
    pub version_end_excluding: Option<String>,
}

/// NVD reference.
#[derive(Debug, Clone)]
pub struct NvdReference {
    /// Reference URL
    pub url: String,
    /// Assigning source
    pub source: Option<String>,
    /// Reference tags
    pub tags: Option<Vec<String>>,
}

/// Advisory identifier.
#[derive(Debug, Clone)]
pub struct Identifier {
    /// Identifier kind
    pub kind: String,
    /// Identifier value
    pub value: String,
}

/// Advisory author.
#[derive(Debug, Clone)]
pub struct Author {
    /// Login name
    pub login: String,
    /// Account id
    pub id: u32,
    /// Node id
    pub node_id: String,
    /// Avatar URL
    pub avatar_url: String,
    /// Gravatar id
    pub gravatar_id: String,
    /// API URL
    pub url: String,
    /// Web URL
    pub html_url: String,
    /// Followers URL
    pub followers_url: String,
    /// Following URL
    pub following_url: String,
    /// Gists URL
    pub gists_url: String,
    /// Starred URL
    pub starred_url: String,
    /// Subscriptions URL
    pub subscriptions_url: String,
    /// Organizations URL
    pub organizations_url: String,
    /// Repositories URL
    pub repos_url: String,
    /// Events URL
    pub events_url: String,
    /// Received events URL
    pub received_events_url: String,
    /// Account kind
    pub kind: String,
    /// Whether the account is a site admin
    pub site_admin: bool,
}

/// Advisory publisher.
#[derive(Debug, Clone)]
pub struct Publisher {
    /// Login name
    pub login: String,
    /// Account id
    pub id: u32,
    /// Node id
    pub node_id: String,
    /// Avatar URL
    pub avatar_url: String,
    /// Gravatar id
    pub gravatar_id: String,
    /// API URL
    pub url: String,
    /// Web URL
    pub html_url: String,
    /// Followers URL
    pub followers_url: String,
    /// Following URL
    pub following_url: String,
    /// Gists URL
    pub gists_url: String,
    /// Starred URL
    pub starred_url: String,
    /// Subscriptions URL
    pub subscriptions_url: String,
    /// Organizations URL
    pub organizations_url: String,
    /// Repositories URL
    pub repos_url: String,
    /// Events URL
    pub events_url: String,
    /// Received events URL
    pub received_events_url: String,
    /// Account kind
    pub kind: String,
    /// Whether the account is a site admin
    pub site_admin: bool,
}

/// Advisory reference.
#[derive(Debug, Clone)]
pub struct Reference {
    /// Reference URL
    pub url: String,
}

/// GitHub vulnerability entry.
#[derive(Debug, Clone)]
pub struct GithubVulnerability {
    /// Affected package
    pub package: Package,
    /// Severity label
    pub severity: String,
    /// Vulnerable version range
    pub vulnerable_version_range: String,
    /// First patched version, if any
    pub first_patched_version: Option<FirstPatchedVersion>,
}

/// Affected package.
#[derive(Debug, Clone)]
pub struct Package {
    /// Package ecosystem
    pub ecosystem: String,
    /// Package name
    pub name: String,
}

/// First patched version.
#[derive(Debug, Clone)]
pub struct FirstPatchedVersion {
    /// Version identifier
    pub identifier: String,
}

/// CWE entry.
#[derive(Debug, Clone)]
pub struct Cwe {
    /// CWE identifier
    pub cwe_id: String,
    /// CWE name
    pub name: String,
}

/// Advisory credit.
#[derive(Debug, Clone)]
pub struct Credit {
    /// Credited login
    pub login: String,
    /// Credit kind
    pub kind: String,
}

/// OSV package.
#[derive(Debug, Clone)]
pub struct OsvPackage {
    /// Package name
    pub name: String,
    /// Package ecosystem
    pub ecosystem: String,
    /// Package URL, if any
    pub purl: Option<String>,
}

/// OSV range event.
#[derive(Debug, Clone)]
pub struct OsvEvent {
    /// Version that introduced the vulnerability
    pub introduced: Option<String>,
    /// Version that fixed it
    pub fixed: Option<String>,
    /// Range limit
    pub limit: Option<String>,
    /// Last affected version
    pub last_affected: Option<String>,
}

/// OSV reference.
#[derive(Debug, Clone)]
pub struct OsvReference {
    /// Reference kind
    pub kind: String,
    /// Reference URL
    pub url: String,
}

} // verus!
