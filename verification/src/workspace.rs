//! The working directory of a run: where it lies, what it is called, and
//! what is found in it.

use rand::Rng;
use vstd::prelude::*;
use vstd::string::*;
use crate::paths::{is_rooted, join_path, joined, lemma_joined_is_injective, lemma_joined_lies_under_base};
use crate::software::Software;
use crate::text::{same_text, text_of};

verus! {

/// The value of a working directory that asks for an ephemeral workspace.
pub const EPHEMERAL: &'static str = "none";

/// The fixed scratch location that is preferred where the user may write to it.
pub const FIXED_SCRATCH: &'static str = "/var/tmp";

/// The directory under the scratch root that holds all ephemeral workspaces.
pub const SCRATCH_PARENT: &'static str = "mcsdk";

/// The name prefix of a scratch root made under the platform's temporary
/// directory.
pub const TEMP_PREFIX: &'static str = "mcsdk-tmp";

/// The name of the consent marker file.
pub const CONSENT_FILE: &'static str = "eula.txt";

/// The exact contents of the consent marker file.
pub const CONSENT_TEXT: &'static str = "eula=true";

/// The name of the plugins subdirectory.
pub const PLUGINS_DIR: &'static str = "plugins";

/// The number of random characters at the end of an ephemeral workspace's name.
pub const SUFFIX_LEN: usize = 8;

/// The permission bit that lets the owner write.
pub const OWNER_WRITE: u32 = 0o200;

/// ASCII letters and digits.
pub open spec fn is_alphanumeric(c: char) -> bool {
    ('a' <= c <= 'z') || ('A' <= c <= 'Z') || ('0' <= c <= '9')
}

/// A random suffix: `len` characters, each an ASCII letter or digit.
pub open spec fn is_suffix(s: Seq<char>, len: nat) -> bool {
    s.len() == len && forall|i: int| 0 <= i < s.len() ==> is_alphanumeric(#[trigger] s[i])
}

/// Draws `len` samples of `rand::distributions::Alphanumeric` from
/// `rand::thread_rng()` and collects them as characters. Each sample is one
/// of the 62 ASCII letters and digits; which ones come is left open. (The
/// generator is seeded from the operating system and gives up with a panic
/// where that source cannot be read.)
#[verifier::external_body]
fn random_alphanumeric(len: usize) -> (r: String)
    ensures
        is_suffix(r@, len as nat),
{
    rand::thread_rng().sample_iter(&rand::distributions::Alphanumeric).take(len).map(char::from).collect()
}

/// A fresh random suffix for the name of an ephemeral workspace.
pub fn generate_random_uuid() -> (r: String)
    ensures
        is_suffix(r@, SUFFIX_LEN as nat),
{
    random_alphanumeric(SUFFIX_LEN)
}

/// The name of an ephemeral workspace: family, `:`, version, `-`, suffix.
pub open spec fn leaf_name(software: Software, version: Seq<char>, suffix: Seq<char>) -> Seq<char> {
    software.label() + seq![':'] + version + seq!['-'] + suffix
}

/// Builds the name of an ephemeral workspace.
pub fn leaf_dir_name(software: Software, version: &str, suffix: &str) -> (r: String)
    ensures
        r@ == leaf_name(software, version@, suffix@),
{
    proof {
        reveal_strlit(":");
        reveal_strlit("-");
    }
    let mut out = String::from_str(software.name());
    out.append(":");
    out.append(version);
    out.append("-");
    out.append(suffix);
    assert(out@ =~= leaf_name(software, version@, suffix@));
    out
}

/// The path of the consent marker in workspace `wd`.
pub open spec fn consent_path_of(wd: Seq<char>) -> Seq<char> {
    joined(wd, CONSENT_FILE@)
}

/// The path of the plugins directory in workspace `wd`.
pub open spec fn plugins_dir_of(wd: Seq<char>) -> Seq<char> {
    joined(wd, PLUGINS_DIR@)
}

/// The path of an ephemeral workspace under scratch root `root`.
pub open spec fn ephemeral_path_of(root: Seq<char>, leaf: Seq<char>) -> Seq<char> {
    joined(joined(root, SCRATCH_PARENT@), leaf)
}

/// The path of the consent marker in workspace `wd`.
pub fn consent_path(wd: &str) -> (r: String)
    ensures
        r@ == consent_path_of(wd@),
{
    join_path(wd, CONSENT_FILE)
}

/// The path of the plugins directory in workspace `wd`.
pub fn plugins_dir(wd: &str) -> (r: String)
    ensures
        r@ == plugins_dir_of(wd@),
{
    join_path(wd, PLUGINS_DIR)
}

/// What to do about a directory that must be there.
#[derive(Clone, Copy, Debug, PartialEq, Eq, Structural)]
pub enum DirStep {
    /// It exists: leave it alone.
    Keep,
    /// It is missing: create it (the one level only). A failure to do so
    /// ends the run.
    Create,
}

/// Decides what to do about a directory, given whether something exists at
/// its path.
pub fn createdir(present: bool) -> (r: DirStep)
    ensures
        r == (if present {
            DirStep::Keep
        } else {
            DirStep::Create
        }),
{
    if present {
        DirStep::Keep
    } else {
        DirStep::Create
    }
}

/// The judgement on the working directory that was asked for.
#[derive(Clone, Copy, Debug, PartialEq, Eq, Structural)]
pub enum DirectoryCheck {
    /// None was named: an ephemeral workspace will be made.
    Ephemeral,
    /// The named path is a directory.
    Usable,
    /// The named path is something else than a directory.
    NotADirectory,
}

/// Judges the working directory `wd` that was asked for, where `is_dir` says
/// whether a directory is at that path.
pub fn check_working_directory(wd: &str, is_dir: bool) -> (r: DirectoryCheck)
    ensures
        r == (if wd@ == EPHEMERAL@ {
            DirectoryCheck::Ephemeral
        } else if is_dir {
            DirectoryCheck::Usable
        } else {
            DirectoryCheck::NotADirectory
        }),
{
    if same_text(wd, EPHEMERAL) {
        DirectoryCheck::Ephemeral
    } else if is_dir {
        DirectoryCheck::Usable
    } else {
        DirectoryCheck::NotADirectory
    }
}

/// What was found at a candidate scratch location: the permission bits of
/// the directory, or `None` where it could not be inspected.
#[derive(Clone, Debug, PartialEq, Eq)]
pub struct ScratchProbe {
    pub path: String,
    pub mode: Option<u32>,
}

/// Where the scratch root of an ephemeral workspace comes from.
#[derive(Clone, Debug, PartialEq, Eq)]
pub enum ScratchRoot {
    /// An existing directory.
    Fixed(String),
    /// A directory to be made under `parent`, its name starting with `prefix`
    /// and made unique by the caller.
    FreshUnder { parent: String, prefix: String },
}

/// [`ScratchRoot`] over plain text.
pub enum ScratchRootView {
    Fixed(Seq<char>),
    FreshUnder { parent: Seq<char>, prefix: Seq<char> },
}

impl View for ScratchRoot {
    type V = ScratchRootView;

    open spec fn view(&self) -> ScratchRootView {
        match self {
            ScratchRoot::Fixed(p) => ScratchRootView::Fixed(p@),
            ScratchRoot::FreshUnder { parent, prefix } => ScratchRootView::FreshUnder {
                parent: parent@,
                prefix: prefix@,
            },
        }
    }
}

/// Why there is no scratch root.
#[derive(Clone, Copy, Debug, PartialEq, Eq, Structural)]
pub enum ScratchError {
    /// No candidate is writable and the platform names no usable temporary
    /// directory.
    NoPlatformTemp,
}

/// Whether permission bits `mode` let the owner write.
pub open spec fn owner_may_write(mode: u32) -> bool {
    mode & OWNER_WRITE != 0
}

impl ScratchProbe {
    /// A candidate is usable when it could be inspected and its owner may
    /// write to it.
    pub open spec fn usable(&self) -> bool {
        self.mode is Some && owner_may_write(self.mode->0)
    }
}

/// The path of the first usable candidate of `probes`, if any is usable.
pub open spec fn first_usable_path(probes: Seq<ScratchProbe>) -> Option<Seq<char>>
    decreases probes.len(),
{
    if probes.len() == 0 {
        None
    } else if probes[0].usable() {
        Some(probes[0].path@)
    } else {
        first_usable_path(probes.skip(1))
    }
}

/// The scratch root for what was found: the first usable candidate, else a
/// fresh directory under the platform's temporary directory, else nothing.
pub open spec fn scratch_root_of(probes: Seq<ScratchProbe>, platform_temp: Option<Seq<char>>) -> Result<
    ScratchRootView,
    ScratchError,
> {
    match first_usable_path(probes) {
        Some(path) => Ok(ScratchRootView::Fixed(path)),
        None => match platform_temp {
            Some(parent) => Ok(ScratchRootView::FreshUnder { parent: parent, prefix: TEMP_PREFIX@ }),
            None => Err(ScratchError::NoPlatformTemp),
        },
    }
}

/// The first usable candidate is usable, nothing before it is, and where
/// there is none, no candidate is usable.
pub proof fn lemma_first_usable_path(probes: Seq<ScratchProbe>)
    ensures
        match first_usable_path(probes) {
            Some(path) => exists|i: int|
                0 <= i < probes.len() && (#[trigger] probes[i]).usable() && probes[i].path@ == path && (forall|
                    j: int,
                |
                    0 <= j < i ==> !(#[trigger] probes[j]).usable()),
            None => forall|j: int| 0 <= j < probes.len() ==> !(#[trigger] probes[j]).usable(),
        },
    decreases probes.len(),
{
    if probes.len() > 0 && !probes[0].usable() {
        let rest = probes.skip(1);
        lemma_first_usable_path(rest);
        match first_usable_path(rest) {
            Some(path) => {
                let i = choose|i: int|
                    0 <= i < rest.len() && (#[trigger] rest[i]).usable() && rest[i].path@ == path && (forall|j: int|
                        0 <= j < i ==> !(#[trigger] rest[j]).usable());
                assert(probes[i + 1] == rest[i]);
                assert forall|j: int| 0 <= j < i + 1 implies !(#[trigger] probes[j]).usable() by {
                    if j > 0 {
                        assert(probes[j] == rest[j - 1]);
                    }
                }
            },
            None => {
                assert forall|j: int| 0 <= j < probes.len() implies !(#[trigger] probes[j]).usable() by {
                    if j > 0 {
                        assert(probes[j] == rest[j - 1]);
                    }
                }
            },
        }
    } else if probes.len() > 0 {
        assert(probes[0].usable());
    }
}

/// Whether permission bits `mode` let the owner write.
pub fn is_user_writable(mode: u32) -> (r: bool)
    ensures
        r == owner_may_write(mode),
{
    mode & OWNER_WRITE != 0
}

/// The fixed locations to inspect for a scratch root, in order of preference.
pub fn scratch_candidates() -> (r: Vec<String>)
    ensures
        r@.len() == 1,
        r@[0]@ == FIXED_SCRATCH@,
{
    let mut out: Vec<String> = Vec::new();
    out.push(String::from_str(FIXED_SCRATCH));
    out
}

/// Chooses the scratch root from what was found at the candidates, in the
/// order given, and from the platform's temporary directory `platform_temp`.
pub fn get_temp_folder(probes: &Vec<ScratchProbe>, platform_temp: Option<&str>) -> (r: Result<
    ScratchRoot,
    ScratchError,
>)
    ensures
        match r {
            Ok(root) => scratch_root_of(probes@, text_of(platform_temp)) == Ok::<ScratchRootView, ScratchError>(
                root@,
            ),
            Err(e) => scratch_root_of(probes@, text_of(platform_temp)) == Err::<ScratchRootView, ScratchError>(e),
        },
{
    let mut i: usize = 0;
    assert(probes@.skip(0) =~= probes@);
    while i < probes.len()
        invariant
            i <= probes@.len(),
            first_usable_path(probes@.skip(i as int)) == first_usable_path(probes@),
        decreases probes@.len() - i,
    {
        let ghost rest = probes@.skip(i as int);
        assert(rest[0] == probes@[i as int]);
        assert(rest.skip(1) =~= probes@.skip(i + 1));
        let usable = match probes[i].mode {
            Some(mode) => is_user_writable(mode),
            None => false,
        };
        if usable {
            return Ok(ScratchRoot::Fixed(probes[i].path.clone()));
        }
        i += 1;
    }
    match platform_temp {
        Some(parent) => Ok(
            ScratchRoot::FreshUnder { parent: String::from_str(parent), prefix: String::from_str(TEMP_PREFIX) },
        ),
        None => Err(ScratchError::NoPlatformTemp),
    }
}

/// The name of an ephemeral workspace never starts at the root, so it always
/// lies under the directory it is joined to.
pub proof fn lemma_leaf_name_is_relative(software: Software, version: Seq<char>, suffix: Seq<char>)
    ensures
        !is_rooted(leaf_name(software, version, suffix)),
{
    reveal_strlit("Paper");
    reveal_strlit("Spigot");
    let label = software.label();
    assert(label.len() > 0 && label[0] != '/');
    assert(leaf_name(software, version, suffix)[0] == label[0]);
}

/// Everything that is derived from a working directory lies in it: the
/// consent marker and the plugins directory begin with the path of the
/// working directory and end with their own fixed names.
pub proof fn lemma_derived_paths_lie_in_workspace(wd: Seq<char>)
    ensures
        consent_path_of(wd).subrange(0, wd.len() as int) == wd,
        consent_path_of(wd).subrange(consent_path_of(wd).len() - CONSENT_FILE@.len(), consent_path_of(wd).len() as int)
            == CONSENT_FILE@,
        plugins_dir_of(wd).subrange(0, wd.len() as int) == wd,
        plugins_dir_of(wd).subrange(plugins_dir_of(wd).len() - PLUGINS_DIR@.len(), plugins_dir_of(wd).len() as int)
            == PLUGINS_DIR@,
        consent_path_of(wd) != plugins_dir_of(wd),
{
    reveal_strlit("eula.txt");
    reveal_strlit("plugins");
    lemma_joined_lies_under_base(wd, CONSENT_FILE@);
    lemma_joined_lies_under_base(wd, PLUGINS_DIR@);
    if consent_path_of(wd) == plugins_dir_of(wd) {
        lemma_joined_is_injective(wd, CONSENT_FILE@, PLUGINS_DIR@);
        assert(CONSENT_FILE@[0] != PLUGINS_DIR@[0]);
    }
}

/// Workspaces of one family and version whose suffixes differ have different
/// names, and so different paths under any scratch root.
pub proof fn lemma_distinct_suffixes_never_collide(
    root: Seq<char>,
    software: Software,
    version: Seq<char>,
    first: Seq<char>,
    second: Seq<char>,
)
    requires
        first != second,
    ensures
        leaf_name(software, version, first) != leaf_name(software, version, second),
        ephemeral_path_of(root, leaf_name(software, version, first)) != ephemeral_path_of(
            root,
            leaf_name(software, version, second),
        ),
{
    let front = software.label() + seq![':'] + version + seq!['-'];
    let a = leaf_name(software, version, first);
    let b = leaf_name(software, version, second);
    assert(a =~= front + first);
    assert(b =~= front + second);
    if a == b {
        assert(first =~= (front + first).subrange(front.len() as int, (front + first).len() as int));
        assert(second =~= (front + second).subrange(front.len() as int, (front + second).len() as int));
        assert(false);
    }
    lemma_leaf_name_is_relative(software, version, first);
    lemma_leaf_name_is_relative(software, version, second);
    if ephemeral_path_of(root, a) == ephemeral_path_of(root, b) {
        lemma_joined_is_injective(joined(root, SCRATCH_PARENT@), a, b);
    }
}

/// Among suffixes of one length, the name of a workspace tells its family,
/// its version and its suffix apart: two names are equal only if all three
/// are.
pub proof fn lemma_leaf_name_is_injective(
    software_a: Software,
    version_a: Seq<char>,
    suffix_a: Seq<char>,
    software_b: Software,
    version_b: Seq<char>,
    suffix_b: Seq<char>,
)
    requires
        suffix_a.len() == suffix_b.len(),
        leaf_name(software_a, version_a, suffix_a) == leaf_name(software_b, version_b, suffix_b),
    ensures
        software_a == software_b,
        version_a == version_b,
        suffix_a == suffix_b,
{
    reveal_strlit("Paper");
    reveal_strlit("Spigot");
    let a = leaf_name(software_a, version_a, suffix_a);
    let b = leaf_name(software_b, version_b, suffix_b);
    let label_a = software_a.label();
    let label_b = software_b.label();
    assert(a[0] == label_a[0]);
    assert(b[0] == label_b[0]);
    assert(software_a == software_b);
    let head = label_a.len() + 1;
    assert(a.len() == head + version_a.len() + 1 + suffix_a.len());
    assert(b.len() == head + version_b.len() + 1 + suffix_b.len());
    assert(version_a.len() == version_b.len());
    assert forall|i: int| 0 <= i < version_a.len() implies version_a[i] == version_b[i] by {
        assert(a[head + i] == version_a[i]);
        assert(b[head + i] == version_b[i]);
    }
    assert(version_a =~= version_b);
    let tail = head + version_a.len() + 1;
    assert forall|i: int| 0 <= i < suffix_a.len() implies suffix_a[i] == suffix_b[i] by {
        assert(a[tail + i] == suffix_a[i]);
        assert(b[tail + i] == suffix_b[i]);
    }
    assert(suffix_a =~= suffix_b);
}

} // verus!
