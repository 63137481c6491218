//! Package metadata and installation planning.
//!
//! Registry metadata arrives from the network edge as plain values; the
//! decisions made over it — parsing a package specifier, choosing a version,
//! deriving the information to install — are verified here.

use vstd::prelude::*;
use vstd::string::StringExecFns;
use crate::text::{chars_vec, string_from_chars, string_eq_str};

verus! {

/// Package information.
#[derive(Debug)]
pub struct PackageInfo {
    /// Package name
    pub name: String,
    /// Package version
    pub version: String,
    /// Runtime dependencies: name and version requirement
    pub dependencies: Vec<(String, String)>,
    /// Development dependencies: name and version requirement
    pub dev_dependencies: Vec<(String, String)>,
}

impl PackageInfo {
    /// Create a new package info instance with no dependencies.
    pub fn new(name: &str, version: &str) -> (p: Self)
        ensures
            p.name@ == name@,
            p.version@ == version@,
            p.dependencies@.len() == 0,
            p.dev_dependencies@.len() == 0,
    {
        PackageInfo {
            name: name.to_owned(),
            version: version.to_owned(),
            dependencies: Vec::new(),
            dev_dependencies: Vec::new(),
        }
    }
}

/// Registry package metadata.
#[derive(Debug)]
pub struct PackageMetadata {
    /// Package name
    pub name: String,
    /// Distribution tags: tag name to version
    pub dist_tags: Vec<(String, String)>,
    /// Published versions: version string to version record
    pub versions: Vec<(String, PackageVersion)>,
}

/// One published package version.
#[derive(Debug)]
pub struct PackageVersion {
    /// Package name
    pub name: String,
    /// Version string
    pub version: String,
    /// Runtime dependencies, if declared
    pub dependencies: Option<Vec<(String, String)>>,
    /// Development dependencies, if declared
    pub dev_dependencies: Option<Vec<(String, String)>>,
    /// Distribution information
    pub dist: PackageDistribution,
}

/// Package distribution information.
#[derive(Debug)]
pub struct PackageDistribution {
    /// Tarball URL
    pub tarball: String,
    /// Declared digest
    pub shasum: String,
}

/// Installation options.
#[derive(Debug, Clone, PartialEq, Eq, Structural)]
pub struct InstallOptions {
    /// Install development dependencies only
    pub dev_only: bool,
    /// Install production dependencies only
    pub prod_only: bool,
    /// Force reinstallation
    pub force: bool,
}

impl Default for InstallOptions {
    /// No restriction, no force.
    fn default() -> (o: Self)
        ensures
            !o.dev_only,
            !o.prod_only,
            !o.force,
    {
        InstallOptions { dev_only: false, prod_only: false, force: false }
    }
}

/// Package installation result.
#[derive(Debug)]
pub struct InstallResult {
    /// The packages that were installed
    pub installed_packages: Vec<PackageInfo>,
    /// How long the installation took, in milliseconds
    pub duration_ms: u64,
    /// Total bytes installed
    pub total_size: u64,
}

/// Get package information for a name alone: a placeholder version with no
/// dependencies.
pub fn get_package_info(name: &str) -> (p: PackageInfo)
    ensures
        p.name@ == name@,
        p.version@ == "1.0.0"@,
        p.dependencies@.len() == 0,
        p.dev_dependencies@.len() == 0,
{
    PackageInfo::new(name, "1.0.0")
}

/// How many times `c` occurs in `s`.
pub open spec fn occurrences(s: Seq<char>, c: char) -> nat
    decreases s.len(),
{
    if s.len() == 0 {
        0
    } else {
        occurrences(s.drop_last(), c) + (if s.last() == c {
            1nat
        } else {
            0nat
        })
    }
}

/// A package specifier splits into a name and a version exactly when it
/// holds a single `@`.
pub open spec fn spec_splits(s: Seq<char>, at: int) -> bool {
    0 <= at < s.len() && s[at] == '@' && occurrences(s, '@') == 1
}

/// Parse a `name@version` package specifier.  With exactly one `@` the
/// specifier splits there into name and requested version; any other shape
/// is a bare name with no version requested.
pub fn parse_package_spec(spec: &str) -> (r: (String, Option<String>))
    ensures
        occurrences(spec@, '@') != 1 ==> (r.0@ == spec@ && r.1 is None),
        forall|at: int|
            spec_splits(spec@, at) ==> (r.0@ == spec@.take(at) && (r.1 matches Some(v) && v@
                == spec@.skip(at + 1))),
{
    let cs = chars_vec(spec);
    let n = cs.len();
    let mut count: usize = 0;
    let mut pos: usize = 0;
    let mut i: usize = 0;
    while i < n
        invariant
            n == cs@.len(),
            cs@ == spec@,
            0 <= i <= n,
            count == occurrences(spec@.take(i as int), '@'),
            count <= i,
            count > 0 ==> (pos < i && spec@[pos as int] == '@' && occurrences(
                spec@.take(pos as int),
                '@',
            ) == 0),
        decreases n - i,
    {
        proof {
            assert(spec@.take(i + 1).drop_last() =~= spec@.take(i as int));
            assert(spec@.take(i + 1).last() == spec@[i as int]);
        }
        if cs[i] == '@' {
            if count == 0 {
                pos = i;
            }
            count = count + 1;
        }
        i = i + 1;
    }
    proof {
        assert(spec@.take(n as int) =~= spec@);
    }
    if count == 1 {
        let mut name: Vec<char> = Vec::new();
        let mut version: Vec<char> = Vec::new();
        let mut j: usize = 0;
        while j < pos
            invariant
                pos < n == cs@.len(),
                cs@ == spec@,
                0 <= j <= pos,
                name@ == spec@.take(pos as int).take(j as int),
            decreases pos - j,
        {
            name.push(cs[j]);
            proof {
                assert(name@ =~= spec@.take(pos as int).take(j + 1));
            }
            j = j + 1;
        }
        let mut k: usize = pos + 1;
        while k < n
            invariant
                pos < n == cs@.len(),
                cs@ == spec@,
                pos + 1 <= k <= n,
                version@ == spec@.skip(pos + 1).take(k - pos - 1),
            decreases n - k,
        {
            version.push(cs[k]);
            proof {
                assert(version@ =~= spec@.skip(pos + 1).take(k + 1 - pos - 1));
            }
            k = k + 1;
        }
        proof {
            assert(spec@.take(pos as int).take(pos as int) =~= spec@.take(pos as int));
            assert(spec@.skip(pos + 1).take(n - pos - 1) =~= spec@.skip(pos + 1));
            assert forall|at: int| spec_splits(spec@, at) implies at == pos as int by {
                if spec_splits(spec@, at) && at != pos as int {
                    lemma_two_occurrences(spec@, pos as int, at);
                }
            }
        }
        (string_from_chars(&name), Some(string_from_chars(&version)))
    } else {
        (spec.to_owned(), None)
    }
}

proof fn lemma_occurrence_at(s: Seq<char>, c: char, at: int)
    requires
        0 <= at < s.len(),
        s[at] == c,
    ensures
        occurrences(s, c) >= occurrences(s.take(at), c) + 1,
    decreases s.len(),
{
    if at == s.len() - 1 {
        assert(s.drop_last() =~= s.take(at));
    } else {
        lemma_occurrence_at(s.drop_last(), c, at);
        assert(s.drop_last().take(at) =~= s.take(at));
    }
}

proof fn lemma_occurrences_grow(s: Seq<char>, c: char, i: int, j: int)
    requires
        0 <= i <= j <= s.len(),
    ensures
        occurrences(s.take(j), c) >= occurrences(s.take(i), c),
    decreases j - i,
{
    if i < j {
        lemma_occurrences_grow(s, c, i, j - 1);
        assert(s.take(j).drop_last() =~= s.take(j - 1));
    }
}

proof fn lemma_two_occurrences(s: Seq<char>, p: int, q: int)
    requires
        0 <= p < s.len(),
        0 <= q < s.len(),
        p != q,
        s[p] == '@',
        s[q] == '@',
        occurrences(s.take(p), '@') == 0,
    ensures
        occurrences(s, '@') >= 2,
{
    let lo = if p < q {
        p
    } else {
        q
    };
    let hi = if p < q {
        q
    } else {
        p
    };
    lemma_occurrence_at(s.take(hi), '@', lo);
    lemma_occurrence_at(s, '@', hi);
    if q < p {
        lemma_occurrences_grow(s, '@', q + 1, p);
        lemma_occurrence_at(s.take(q + 1), '@', q);
        assert(s.take(q + 1).take(q) =~= s.take(q));
        assert(occurrences(s.take(p), '@') >= 1);
    } else {
        assert(s.take(hi).take(lo) =~= s.take(lo));
        lemma_occurrences_grow(s, '@', lo, p);
    }
}

/// The first entry for a key in an association list, if any.
pub open spec fn tag_value(entries: Seq<(String, String)>, key: Seq<char>) -> Option<Seq<char>>
    decreases entries.len(),
{
    if entries.len() == 0 {
        None
    } else if entries[0].0@ == key {
        Some(entries[0].1@)
    } else {
        tag_value(entries.drop_first(), key)
    }
}

/// Whether the version table has an entry for this version string.
pub open spec fn has_version(entries: Seq<(String, PackageVersion)>, key: Seq<char>) -> bool {
    exists|i: int| 0 <= i < entries.len() && #[trigger] entries[i].0@ == key
}

/// Look up a distribution tag by name: the first matching entry wins.
pub fn dist_tag<'a>(metadata: &'a PackageMetadata, tag: &str) -> (r: Option<&'a String>)
    ensures
        match r {
            Some(v) => tag_value(metadata.dist_tags@, tag@) == Some(v@),
            None => tag_value(metadata.dist_tags@, tag@) is None,
        },
{
    let n = metadata.dist_tags.len();
    proof {
        assert(metadata.dist_tags@.skip(0) =~= metadata.dist_tags@);
    }
    let mut i: usize = 0;
    while i < n
        invariant
            n == metadata.dist_tags@.len(),
            0 <= i <= n,
            tag_value(metadata.dist_tags@, tag@) == tag_value(
                metadata.dist_tags@.skip(i as int),
                tag@,
            ),
        decreases n - i,
    {
        proof {
            assert(metadata.dist_tags@.skip(i as int)[0] == metadata.dist_tags@[i as int]);
            assert(metadata.dist_tags@.skip(i as int).drop_first() =~= metadata.dist_tags@.skip(
                i + 1,
            ));
        }
        if string_eq_str(&metadata.dist_tags[i].0, tag) {
            return Some(&metadata.dist_tags[i].1);
        }
        i = i + 1;
    }
    proof {
        assert(metadata.dist_tags@.skip(n as int) =~= Seq::<(String, String)>::empty());
    }
    None
}

/// Look up a published version record by version string.
pub fn find_version<'a>(metadata: &'a PackageMetadata, version: &str) -> (r: Option<
    &'a PackageVersion,
>)
    ensures
        r is Some <==> has_version(metadata.versions@, version@),
        r matches Some(v) ==> exists|i: int|
            0 <= i < metadata.versions@.len() && #[trigger] metadata.versions@[i].0@ == version@
                && v == &metadata.versions@[i].1,
    {
    let n = metadata.versions.len();
    let mut i: usize = 0;
    while i < n
        invariant
            n == metadata.versions@.len(),
            0 <= i <= n,
            forall|j: int| 0 <= j < i ==> #[trigger] metadata.versions@[j].0@ != version@,
        decreases n - i,
    {
        if string_eq_str(&metadata.versions[i].0, version) {
            return Some(&metadata.versions[i].1);
        }
        i = i + 1;
    }
    None
}

/// Select the version that the `latest` distribution tag names.  Succeeds
/// exactly when the tag exists and names a published version, and returns
/// that version's record.
pub fn select_latest_version<'a>(metadata: &'a PackageMetadata) -> (r: Result<
    &'a PackageVersion,
    String,
>)
    ensures
        match tag_value(metadata.dist_tags@, "latest"@) {
            Some(tag) => (r is Ok <==> has_version(metadata.versions@, tag)),
            None => r is Err,
        },
        r matches Ok(v) ==> (tag_value(metadata.dist_tags@, "latest"@) matches Some(tag)
            && exists|i: int|
            0 <= i < metadata.versions@.len() && #[trigger] metadata.versions@[i].0@ == tag && v
                == &metadata.versions@[i].1),
        r matches Err(e) ==> e@.len() > 0,
{
    proof {
        reveal_strlit("latest");
        reveal_strlit("Latest version not found in package metadata");
        reveal_strlit("No latest tag found in package metadata");
    }
    match dist_tag(metadata, "latest") {
        Some(tag) => {
            let tag_copy = tag.clone();
            match find_version(metadata, tag_copy.as_str()) {
                Some(v) => Ok(v),
                None => Err("Latest version not found in package metadata".to_owned()),
            }
        },
        None => Err("No latest tag found in package metadata".to_owned()),
    }
}

/// Derive the information to install from a published version record:
/// name, version, and whichever dependency tables were declared.
pub fn package_info_from_version(v: &PackageVersion) -> (p: PackageInfo)
    ensures
        p.name@ == v.name@,
        p.version@ == v.version@,
        match v.dependencies {
            Some(deps) => p.dependencies@ == deps@,
            None => p.dependencies@.len() == 0,
        },
        match v.dev_dependencies {
            Some(deps) => p.dev_dependencies@ == deps@,
            None => p.dev_dependencies@.len() == 0,
        },
{
    let mut p = PackageInfo::new(v.name.as_str(), v.version.as_str());
    match &v.dependencies {
        Some(deps) => {
            p.dependencies = clone_pairs(deps);
        },
        None => {},
    }
    match &v.dev_dependencies {
        Some(deps) => {
            p.dev_dependencies = clone_pairs(deps);
        },
        None => {},
    }
    p
}

fn clone_pairs(v: &Vec<(String, String)>) -> (r: Vec<(String, String)>)
    ensures
        r@ == v@,
{
    let mut r: Vec<(String, String)> = Vec::new();
    let n = v.len();
    let mut i: usize = 0;
    while i < n
        invariant
            n == v@.len(),
            0 <= i <= n,
            r@ == v@.take(i as int),
        decreases n - i,
    {
        r.push((v[i].0.clone(), v[i].1.clone()));
        proof {
            assert(r@ =~= v@.take(i + 1));
        }
        i = i + 1;
    }
    proof {
        assert(v@.take(n as int) =~= v@);
    }
    r
}

/// Install all dependencies declared in the project manifest.  No manifest
/// reading happens here: with nothing handed in, the result is empty.
pub fn install_all_dependencies(options: &InstallOptions) -> (r: InstallResult)
    ensures
        r.installed_packages@.len() == 0,
        r.duration_ms == 0,
        r.total_size == 0,
{
    InstallResult { installed_packages: Vec::new(), duration_ms: 0, total_size: 0 }
}

} // verus!
