//! Plugin metadata and semantic versions.

use crate::wasm::error::WasmError;
use vstd::prelude::*;

verus! {

/// A parsed semantic version.
#[derive(Debug, Clone, PartialEq, Eq)]
pub struct SemVersion {
    /// Major version.
    pub major: u64,
    /// Minor version.
    pub minor: u64,
    /// Patch version.
    pub patch: u64,
    /// Pre-release identifiers (empty if none).
    pub pre: String,
    /// Build metadata (empty if none).
    pub build: String,
}

/// What `semver::Version::parse` makes of `text`: major, minor, patch,
/// pre-release and build metadata, or the text of the error it reports.
pub uninterp spec fn semver_parse(text: Seq<char>) -> Result<
    (u64, u64, u64, Seq<char>, Seq<char>),
    Seq<char>,
>;

/// `v` holds the components `parsed`.
pub open spec fn version_is(v: SemVersion, parsed: (u64, u64, u64, Seq<char>, Seq<char>)) -> bool {
    v.major == parsed.0 && v.minor == parsed.1 && v.patch == parsed.2 && v.pre@ == parsed.3
        && v.build@ == parsed.4
}

/// Parses a semantic version with `semver::Version::parse`.
///
/// The contract ties the result to `semver_parse` of the text, the error by
/// its displayed message: the grammar (three numeric components without
/// leading zeros, optional pre-release and build metadata) is the `semver`
/// crate's and is not restated.
#[verifier::external_body]
fn parse_semver(text: &str) -> (r: Result<SemVersion, String>)
    ensures
        match semver_parse(text@) {
            Ok(parsed) => r matches Ok(v) && version_is(v, parsed),
            Err(msg) => r matches Err(e) && e@ == msg,
        },
{
    match semver::Version::parse(text) {
        Ok(v) => Ok(
            SemVersion {
                major: v.major,
                minor: v.minor,
                patch: v.patch,
                pre: v.pre.as_str().to_string(),
                build: v.build.as_str().to_string(),
            },
        ),
        Err(e) => Err(e.to_string()),
    }
}

/// Metadata record of a policy plugin.
#[derive(Debug, Clone, PartialEq, Eq)]
pub struct PluginMetadata {
    /// Unique plugin identifier (e.g. "pii-filter").
    pub plugin_id: String,
    /// Semantic version string (e.g. "1.2.0").
    pub version: String,
    /// Author or organisation.
    pub author: String,
    /// Hex-encoded SHA-256 hash of the WASM binary.
    pub sha256_hash: String,
    /// Optional minimum gateway version required.
    pub min_gateway_version: Option<String>,
}

impl PluginMetadata {
    /// Creates a metadata record with no minimum gateway version.
    pub fn new(plugin_id: &str, version: &str, author: &str, sha256_hash: &str) -> (r: Self)
        ensures
            r.plugin_id@ == plugin_id@,
            r.version@ == version@,
            r.author@ == author@,
            r.sha256_hash@ == sha256_hash@,
            r.min_gateway_version is None,
    {
        PluginMetadata {
            plugin_id: String::from_str(plugin_id),
            version: String::from_str(version),
            author: String::from_str(author),
            sha256_hash: String::from_str(sha256_hash),
            min_gateway_version: None,
        }
    }

    /// The plugin's version as a semantic version; `InvalidMetadata` naming the
    /// version and the parser's complaint when it is not valid semver.
    pub fn parsed_version(&self) -> (r: Result<SemVersion, WasmError>)
        ensures
            match semver_parse(self.version@) {
                Ok(parsed) => r matches Ok(v) && version_is(v, parsed),
                Err(e) => r matches Err(WasmError::InvalidMetadata(m)) && m@ == "Invalid semver '"@
                    + self.version@ + "': "@ + e,
            },
    {
        match parse_semver(self.version.as_str()) {
            Ok(v) => Ok(v),
            Err(e) => {
                let mut m = String::from_str("Invalid semver '");
                m.append(self.version.as_str());
                m.append("': ");
                m.append(e.as_str());
                Err(WasmError::InvalidMetadata(m))
            },
        }
    }
}

} // verus!
