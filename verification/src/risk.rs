//! How risky a file is, judged from its path.

use vstd::prelude::*;
use crate::paths::{extension_of, file_name_of, path_extension, path_file_name};
use crate::text::{
    chars_of, contains_chars, lowercase, seq_contains, seq_starts_with, starts_with_chars,
    str_equal, to_lowercase,
};

verus! {

/// Risk level for a file based on its type and content.
#[derive(Debug, Clone, Copy, PartialEq, Eq, Structural, PartialOrd, Ord, Hash)]
pub enum RiskLevel {
    /// Low risk - regular source code
    Low,
    /// Medium risk - configuration files
    Medium,
    /// High risk - sensitive config files
    High,
    /// Critical risk - environment/secrets files
    Critical,
}

impl RiskLevel {
    /// The level as a number from 1 (low) to 4 (critical); levels compare by it.
    pub open spec fn severity(self) -> nat {
        match self {
            RiskLevel::Low => 1,
            RiskLevel::Medium => 2,
            RiskLevel::High => 3,
            RiskLevel::Critical => 4,
        }
    }

    /// Returns the risk multiplier for scoring.
    pub fn multiplier(&self) -> (m: usize)
        ensures
            m == self.severity(),
    {
        match self {
            RiskLevel::Low => 1,
            RiskLevel::Medium => 2,
            RiskLevel::High => 3,
            RiskLevel::Critical => 4,
        }
    }

    /// Whether this level is at least `other`.
    pub fn at_least(&self, other: RiskLevel) -> (b: bool)
        ensures
            b == (self.severity() >= other.severity()),
    {
        self.multiplier() >= other.multiplier()
    }
}

/// File-name fragments of the files that hold secrets.
pub open spec fn critical_file_patterns() -> Seq<&'static str> {
    seq![
        ".env",
        ".env.local",
        ".env.development",
        ".env.production",
        ".env.staging",
        ".envrc",
        "secrets",
        "credentials",
        ".secrets",
        ".credentials",
        "id_rsa",
        "id_ed25519",
        ".pem",
        ".key",
        ".p12",
        ".pfx",
        ".htpasswd",
        ".netrc",
        ".npmrc",
        ".pypirc",
        ".dockerconfigjson",
        "service_account",
        "serviceaccount",
    ]
}

/// Name and path fragments of infrastructure and sensitive configuration.
pub open spec fn high_risk_file_patterns() -> Seq<&'static str> {
    seq![
        "docker-compose",
        "dockerfile",
        "terraform.tfvars",
        "terraform.tfstate",
        ".tfvars",
        "ansible",
        "vault",
        "consul",
        "kubernetes",
        "k8s",
        "helm",
        "kustomize",
        "application.yml",
        "application.yaml",
        "application.properties",
        "appsettings.json",
        "config.yml",
        "config.yaml",
        "config.json",
        "settings.yml",
        "settings.yaml",
        "settings.json",
        "parameters.yml",
        "parameters.yaml",
        "database.yml",
    ]
}

/// Extensions of configuration files.
pub open spec fn medium_risk_extensions() -> Seq<&'static str> {
    seq!["yml", "yaml", "toml", "ini", "cfg", "conf", "config", "properties"]
}

fn critical_file_pattern_list() -> (v: Vec<&'static str>)
    ensures
        v@ == critical_file_patterns(),
{
    let v = vec![
        ".env",
        ".env.local",
        ".env.development",
        ".env.production",
        ".env.staging",
        ".envrc",
        "secrets",
        "credentials",
        ".secrets",
        ".credentials",
        "id_rsa",
        "id_ed25519",
        ".pem",
        ".key",
        ".p12",
        ".pfx",
        ".htpasswd",
        ".netrc",
        ".npmrc",
        ".pypirc",
        ".dockerconfigjson",
        "service_account",
        "serviceaccount",
    ];
    assert(v@ =~= critical_file_patterns());
    v
}

fn high_risk_file_pattern_list() -> (v: Vec<&'static str>)
    ensures
        v@ == high_risk_file_patterns(),
{
    let v = vec![
        "docker-compose",
        "dockerfile",
        "terraform.tfvars",
        "terraform.tfstate",
        ".tfvars",
        "ansible",
        "vault",
        "consul",
        "kubernetes",
        "k8s",
        "helm",
        "kustomize",
        "application.yml",
        "application.yaml",
        "application.properties",
        "appsettings.json",
        "config.yml",
        "config.yaml",
        "config.json",
        "settings.yml",
        "settings.yaml",
        "settings.json",
        "parameters.yml",
        "parameters.yaml",
        "database.yml",
    ];
    assert(v@ =~= high_risk_file_patterns());
    v
}

fn medium_risk_extension_list() -> (v: Vec<&'static str>)
    ensures
        v@ == medium_risk_extensions(),
{
    let v = vec!["yml", "yaml", "toml", "ini", "cfg", "conf", "config", "properties"];
    assert(v@ =~= medium_risk_extensions());
    v
}

/// The lower-cased file name of a path, empty where it has none.
pub open spec fn lower_file_name(path: Seq<char>) -> Seq<char> {
    match path_file_name(path) {
        Some(name) => lowercase(name),
        None => Seq::empty(),
    }
}

/// Critical pattern `i` occurs in the (lower-cased) file name.
pub open spec fn critical_hit(name: Seq<char>, i: int) -> bool {
    seq_contains(name, critical_file_patterns()[i]@) || seq_starts_with(
        name,
        critical_file_patterns()[i]@,
    )
}

/// The file name matches some critical pattern.
pub open spec fn is_critical_name(name: Seq<char>) -> bool {
    exists|i: int| 0 <= i < critical_file_patterns().len() && #[trigger] critical_hit(name, i)
}

/// High-risk pattern `i` occurs in the file name or in the whole path.
pub open spec fn high_hit(name: Seq<char>, lower_path: Seq<char>, i: int) -> bool {
    seq_contains(name, high_risk_file_patterns()[i]@) || seq_contains(
        lower_path,
        high_risk_file_patterns()[i]@,
    )
}

/// Some high-risk pattern occurs in the file name or the path.
pub open spec fn is_high_risk_path(name: Seq<char>, lower_path: Seq<char>) -> bool {
    exists|i: int|
        0 <= i < high_risk_file_patterns().len() && #[trigger] high_hit(name, lower_path, i)
}

/// The extension is one of the configuration extensions.
pub open spec fn is_medium_extension(ext: Seq<char>) -> bool {
    exists|i: int| 0 <= i < medium_risk_extensions().len() && #[trigger] medium_risk_extensions()[i]@ == ext
}

/// The risk level of a file, from its path: critical for a secrets file
/// name, high for infrastructure configuration named in the file name or the
/// path, medium for a configuration extension, low otherwise.
pub open spec fn risk_level_of(path: Seq<char>) -> RiskLevel {
    let name = lower_file_name(path);
    if is_critical_name(name) {
        RiskLevel::Critical
    } else if is_high_risk_path(name, lowercase(path)) {
        RiskLevel::High
    } else if path_extension(path) matches Some(ext) && is_medium_extension(lowercase(ext)) {
        RiskLevel::Medium
    } else {
        RiskLevel::Low
    }
}

/// The lower-cased file name of a path, empty where it has none.
pub fn lower_file_name_of(path: &str) -> (r: String)
    ensures
        r@ == lower_file_name(path@),
{
    match file_name_of(path) {
        Some(name) => to_lowercase(&name),
        None => String::new(),
    }
}

/// Whether the lower-cased file name matches a critical pattern.
pub fn critical_name(name: &str) -> (b: bool)
    ensures
        b == is_critical_name(name@),
{
    let patterns = critical_file_pattern_list();
    let nc = chars_of(name);
    let mut i: usize = 0;
    while i < patterns.len()
        invariant
            nc@ == name@,
            patterns@ == critical_file_patterns(),
            i <= patterns@.len(),
            forall|j: int| 0 <= j < i ==> !critical_hit(name@, j),
        decreases patterns@.len() - i,
    {
        let pc = chars_of(patterns[i]);
        if contains_chars(&nc, &pc) || starts_with_chars(&nc, &pc) {
            assert(critical_hit(name@, i as int));
            return true;
        }
        i = i + 1;
    }
    false
}

/// Whether a high-risk pattern occurs in the file name or the lower-cased path.
fn high_risk_path(name: &str, lower_path: &str) -> (b: bool)
    ensures
        b == is_high_risk_path(name@, lower_path@),
{
    let patterns = high_risk_file_pattern_list();
    let nc = chars_of(name);
    let lc = chars_of(lower_path);
    let mut i: usize = 0;
    while i < patterns.len()
        invariant
            nc@ == name@,
            lc@ == lower_path@,
            patterns@ == high_risk_file_patterns(),
            i <= patterns@.len(),
            forall|j: int| 0 <= j < i ==> !high_hit(name@, lower_path@, j),
        decreases patterns@.len() - i,
    {
        let pc = chars_of(patterns[i]);
        if contains_chars(&nc, &pc) || contains_chars(&lc, &pc) {
            assert(high_hit(name@, lower_path@, i as int));
            return true;
        }
        i = i + 1;
    }
    false
}

/// Whether an extension is one of the configuration extensions.
fn medium_extension(ext: &str) -> (b: bool)
    ensures
        b == is_medium_extension(ext@),
{
    let exts = medium_risk_extension_list();
    let mut i: usize = 0;
    while i < exts.len()
        invariant
            exts@ == medium_risk_extensions(),
            i <= exts@.len(),
            forall|j: int| 0 <= j < i ==> medium_risk_extensions()[j]@ != ext@,
        decreases exts@.len() - i,
    {
        if str_equal(exts[i], ext) {
            return true;
        }
        i = i + 1;
    }
    false
}

/// Determines the risk level for a file based on its path and name.
pub fn get_file_risk_level(path: &str) -> (r: RiskLevel)
    ensures
        r == risk_level_of(path@),
{
    let name = lower_file_name_of(path);
    if critical_name(&name) {
        return RiskLevel::Critical;
    }
    let lower_path = to_lowercase(path);
    if high_risk_path(&name, &lower_path) {
        return RiskLevel::High;
    }
    match extension_of(path) {
        Some(ext) => {
            let lower_ext = to_lowercase(&ext);
            if medium_extension(&lower_ext) {
                return RiskLevel::Medium;
            }
        },
        None => {},
    }
    RiskLevel::Low
}

/// A readable name for a risk level.
pub open spec fn risk_level_label(level: RiskLevel) -> Seq<char> {
    match level {
        RiskLevel::Low => "source file"@,
        RiskLevel::Medium => "config file"@,
        RiskLevel::High => "sensitive config"@,
        RiskLevel::Critical => "secrets file"@,
    }
}

/// Helper to get a readable name for risk level.
pub fn risk_level_name(level: RiskLevel) -> (s: &'static str)
    ensures
        s@ == risk_level_label(level),
{
    match level {
        RiskLevel::Low => "source file",
        RiskLevel::Medium => "config file",
        RiskLevel::High => "sensitive config",
        RiskLevel::Critical => "secrets file",
    }
}

/// The marker that the text report shows for a risk level.
pub open spec fn risk_marker(level: RiskLevel) -> Seq<char> {
    match level {
        RiskLevel::Critical => "🔴"@,
        RiskLevel::High => "🟠"@,
        RiskLevel::Medium => "🟡"@,
        RiskLevel::Low => "🟢"@,
    }
}

/// The marker that the text report shows for a risk level.
pub fn risk_icon(level: &RiskLevel) -> (s: &'static str)
    ensures
        s@ == risk_marker(*level),
{
    match level {
        RiskLevel::Critical => "🔴",
        RiskLevel::High => "🟠",
        RiskLevel::Medium => "🟡",
        RiskLevel::Low => "🟢",
    }
}

} // verus!
