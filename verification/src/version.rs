//! Validation of a requested version against the upstream version manifest.

use vstd::prelude::*;
use vstd::string::*;
use crate::upstream::{Fetched, UpstreamFailure};

verus! {

/// The grammar of version strings, as a regular expression: `1.`, one or two
/// digits, `.`, one or two digits, and nothing before or after.
pub const VERSION_PATTERN: &'static str = r"^1\.\d{1,2}\.\d{1,2}$";

/// The address of the version manifest.
pub const MANIFEST_URL: &'static str =
    "https://piston-meta.mojang.com/mc/game/version_manifest_v2.json";

/// What the `regex` crate answers for `pattern` on `text`: `None` where the
/// pattern does not compile, otherwise whether the compiled expression
/// matches somewhere in `text`.
pub uninterp spec fn regex_match(pattern: Seq<char>, text: Seq<char>) -> Option<bool>;

/// Compiles `pattern` with `regex::Regex::new` and asks `Regex::is_match` for
/// `text`. Both are deterministic functions of their string arguments; the
/// contract only gives their combined answer a name.
#[verifier::external_body]
fn regex_is_match(pattern: &str, text: &str) -> (r: Option<bool>)
    ensures
        r == regex_match(pattern@, text@),
{
    match regex::Regex::new(pattern) {
        Ok(re) => Some(re.is_match(text)),
        Err(_) => None,
    }
}

/// One version known upstream.
#[derive(Clone, Debug, PartialEq, Eq)]
pub struct VersionEntry {
    pub id: String,
    pub version_type: String,
}

/// The newest release and snapshot.
#[derive(Clone, Debug, PartialEq, Eq)]
pub struct LatestVersions {
    pub release: String,
    pub snapshot: String,
}

/// The upstream version manifest.
#[derive(Clone, Debug, PartialEq, Eq)]
pub struct VersionManifest {
    pub latest: LatestVersions,
    pub versions: Vec<VersionEntry>,
}

impl VersionManifest {
    /// The identifiers of all listed versions.
    pub open spec fn ids(&self) -> Set<Seq<char>> {
        Set::new(
            |id: Seq<char>|
                exists|i: int| 0 <= i < self.versions@.len() && #[trigger] self.versions@[i].id@ == id,
        )
    }

    /// Whether `id` is among the listed versions.
    pub fn lists(&self, id: &str) -> (r: bool)
        ensures
            r == self.ids().contains(id@),
    {
        let wanted = String::from_str(id);
        let mut i: usize = 0;
        while i < self.versions.len()
            invariant
                i <= self.versions@.len(),
                wanted@ == id@,
                forall|j: int| 0 <= j < i ==> #[trigger] self.versions@[j].id@ != id@,
            decreases self.versions@.len() - i,
        {
            if self.versions[i].id == wanted {
                return true;
            }
            i += 1;
        }
        false
    }
}

/// The judgement on a requested version.
#[derive(Clone, Copy, Debug, PartialEq, Eq, Structural)]
pub enum VersionVerdict {
    /// Well formed and listed upstream.
    Valid,
    /// Not a version string at all.
    BadFormat,
    /// The manifest could not be had.
    Upstream(UpstreamFailure),
    /// Well formed, but not listed in the manifest.
    Unknown,
}

/// What to do first with a requested version.
#[derive(Clone, Copy, Debug, PartialEq, Eq, Structural)]
pub enum ValidationStep {
    /// The string is rejected as it stands; the manifest is not asked for.
    Reject,
    /// The manifest is to be fetched from [`MANIFEST_URL`].
    FetchManifest,
}

/// Whether `text` follows the version grammar.
pub open spec fn well_formed_version(text: Seq<char>) -> bool {
    regex_match(VERSION_PATTERN@, text) == Some(true)
}

/// The judgement on `text`, given whether it follows the grammar and what the
/// request for the manifest came back with. A malformed string is rejected
/// whatever the manifest says.
pub open spec fn verdict_of(format_ok: bool, text: Seq<char>, fetched: &Fetched<VersionManifest>) -> VersionVerdict {
    if !format_ok {
        VersionVerdict::BadFormat
    } else if fetched.failure() is Some {
        VersionVerdict::Upstream(fetched.failure()->0)
    } else if fetched.document().ids().contains(text) {
        VersionVerdict::Valid
    } else {
        VersionVerdict::Unknown
    }
}

/// The first step of a validation: only a well-formed string is worth a
/// request to the manifest.
pub open spec fn first_step_of(text: Seq<char>) -> ValidationStep {
    if well_formed_version(text) {
        ValidationStep::FetchManifest
    } else {
        ValidationStep::Reject
    }
}

/// Reads the answer of the pattern match: only a pattern that compiled and
/// matched accepts the text.
pub fn accepts(answer: Option<bool>) -> (r: bool)
    ensures
        r == (answer == Some(true)),
{
    match answer {
        Some(matched) => matched,
        None => false,
    }
}

/// Whether `text` follows the version grammar.
pub fn has_version_format(text: &str) -> (r: bool)
    ensures
        r == well_formed_version(text@),
{
    accepts(regex_is_match(VERSION_PATTERN, text))
}

/// The first step of a validation, once the format is known.
pub fn first_step(format_ok: bool) -> (r: ValidationStep)
    ensures
        r == (if format_ok {
            ValidationStep::FetchManifest
        } else {
            ValidationStep::Reject
        }),
{
    if format_ok {
        ValidationStep::FetchManifest
    } else {
        ValidationStep::Reject
    }
}

/// Decides the first step of a validation.
pub fn validation_step(version: &str) -> (r: ValidationStep)
    ensures
        r == first_step_of(version@),
{
    first_step(has_version_format(version))
}

/// Judges `version` once its format is known and the manifest request has
/// been answered.
pub fn judge_version(format_ok: bool, version: &str, fetched: &Fetched<VersionManifest>) -> (r: VersionVerdict)
    ensures
        r == verdict_of(format_ok, version@, fetched),
{
    if !format_ok {
        return VersionVerdict::BadFormat;
    }
    match fetched.body() {
        Err(e) => VersionVerdict::Upstream(e),
        Ok(manifest) => {
            if manifest.lists(version) {
                VersionVerdict::Valid
            } else {
                VersionVerdict::Unknown
            }
        },
    }
}

/// Judges `version` against the grammar and the manifest.
pub fn validate_version(version: &str, fetched: &Fetched<VersionManifest>) -> (r: VersionVerdict)
    ensures
        r == verdict_of(well_formed_version(version@), version@, fetched),
{
    let format_ok = has_version_format(version);
    judge_version(format_ok, version, fetched)
}

/// Whether `version_to_check` is a well-formed version that the manifest
/// lists. Every upstream failure counts as "no".
pub fn check_valid_version(version_to_check: &str, fetched: &Fetched<VersionManifest>) -> (r: bool)
    ensures
        r == (verdict_of(well_formed_version(version_to_check@), version_to_check@, fetched)
            == VersionVerdict::Valid),
        r == (well_formed_version(version_to_check@) && fetched.failure() is None
            && fetched.document().ids().contains(version_to_check@)),
{
    match validate_version(version_to_check, fetched) {
        VersionVerdict::Valid => true,
        _ => false,
    }
}

/// A string outside the grammar is rejected before any request is made, and
/// no manifest can make it valid.
pub proof fn lemma_malformed_is_rejected(text: Seq<char>, fetched: &Fetched<VersionManifest>)
    requires
        !well_formed_version(text),
    ensures
        first_step_of(text) == ValidationStep::Reject,
        verdict_of(well_formed_version(text), text, fetched) == VersionVerdict::BadFormat,
        verdict_of(well_formed_version(text), text, fetched) != VersionVerdict::Valid,
{
}

/// A well-formed string that the manifest does not list is not valid.
pub proof fn lemma_unlisted_is_rejected(text: Seq<char>, fetched: &Fetched<VersionManifest>)
    requires
        well_formed_version(text),
        fetched.failure() is None,
        !fetched.document().ids().contains(text),
    ensures
        verdict_of(well_formed_version(text), text, fetched) == VersionVerdict::Unknown,
        verdict_of(well_formed_version(text), text, fetched) != VersionVerdict::Valid,
{
}

/// Without a manifest nothing is valid.
pub proof fn lemma_upstream_failure_is_rejected(text: Seq<char>, fetched: &Fetched<VersionManifest>)
    requires
        fetched.failure() is Some,
    ensures
        verdict_of(well_formed_version(text), text, fetched) != VersionVerdict::Valid,
{
}

} // verus!
