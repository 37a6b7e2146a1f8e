//! The server of one run: its description, its life, and the steps that
//! make it ready.
//!
//! Provisioning is written as a machine. The caller holds the state, performs
//! the action that a step asks for, and comes back with the event that tells
//! how it went.

use vstd::prelude::*;
use vstd::string::*;
use crate::paths::{join_path, joined};
use crate::resolver::{
    artifact_for, download_server_software, ArtifactReference, ArtifactTarget, DownloadCatalog, ResolutionError,
    ResolutionFailure, ARTIFACT_FILE,
};
use crate::software::Software;
use crate::text::{clone_texts, same_text, texts};
use crate::upstream::Fetched;
use crate::workspace::{
    consent_path, consent_path_of, generate_random_uuid, get_temp_folder, is_suffix, leaf_dir_name, leaf_name,
    plugins_dir, plugins_dir_of, scratch_root_of, ScratchProbe, ScratchRoot, ScratchRootView, CONSENT_TEXT,
    EPHEMERAL, SCRATCH_PARENT, SUFFIX_LEN,
};

verus! {

/// The program that runs the server artifact.
pub const RUNTIME: &'static str = "java";

/// The flag that fixes the minimum heap.
pub const MIN_HEAP_FLAG: &'static str = "-Xms256M";

/// The flag that names the artifact to run.
pub const ARTIFACT_FLAG: &'static str = "-jar";

/// The flag that keeps the server from opening a window.
pub const NO_GUI_FLAG: &'static str = "--nogui";

/// A server to provision and run.
#[derive(Clone, Debug, PartialEq, Eq)]
pub struct Server {
    /// The working directory, or [`EPHEMERAL`] to have one made.
    pub wd: String,
    pub software: Software,
    pub version: String,
    /// The plugin files to stage, in order.
    pub plugins: Vec<String>,
    /// Extra launch arguments, in order.
    pub args: Vec<String>,
    /// The maximum heap in megabytes.
    pub mem: u32,
}

/// [`Server`] over plain text.
pub struct ServerView {
    pub wd: Seq<char>,
    pub software: Software,
    pub version: Seq<char>,
    pub plugins: Seq<Seq<char>>,
    pub args: Seq<Seq<char>>,
    pub mem: u32,
}

impl View for Server {
    type V = ServerView;

    open spec fn view(&self) -> ServerView {
        ServerView {
            wd: self.wd@,
            software: self.software,
            version: self.version@,
            plugins: texts(self.plugins@),
            args: texts(self.args@),
            mem: self.mem,
        }
    }
}

/// The steps of making a server ready, in the order in which a run passes
/// through them. Each names what the caller has been asked to do.
#[derive(Clone, Copy, Debug, PartialEq, Eq, Structural)]
pub enum InitPhase {
    /// Inspecting the scratch candidates.
    ProbingScratch,
    /// Making a fresh scratch root under the platform's temporary directory.
    MakingScratch,
    /// Making sure of the directory that holds all ephemeral workspaces.
    CreatingParent,
    /// Making sure of the ephemeral workspace itself.
    CreatingLeaf,
    /// Resolving a supplied working directory to its absolute path.
    Canonicalizing,
    /// Fetching the lookup document of the software family.
    Resolving,
    /// Downloading the artifact.
    Downloading,
    /// Writing the consent marker.
    WritingConsent,
    /// Making sure of the plugins directory.
    CreatingPlugins,
    /// Staging the plugin files.
    Staging,
}

/// The life of a server.
#[derive(Clone, Copy, Debug, PartialEq, Eq, Structural)]
pub enum Lifecycle {
    Uninitialized,
    Initializing(InitPhase),
    /// Provisioned; not launched, or the launch failed.
    Ready,
    /// The child process runs under supervision.
    Running,
    /// The child exited on its own.
    Stopped,
    /// The child was terminated after an interrupt.
    Killed,
    /// Provisioning met a fatal condition; the run is over.
    Failed,
}

/// What the caller reports while a server is made ready.
#[derive(Clone, Debug, PartialEq, Eq)]
pub enum InitEvent {
    /// Start.
    Begin,
    /// The scratch candidates were inspected; `platform_temp` is the
    /// platform's temporary directory where it can be named.
    ScratchProbed { probes: Vec<ScratchProbe>, platform_temp: Option<String> },
    /// The fresh scratch root that was made, or `None` where that failed.
    ScratchMade(Option<String>),
    /// Whether the directory is there now.
    DirectoryReady(bool),
    /// The absolute path of the supplied directory, or `None` where it has
    /// none.
    Canonical(Option<String>),
    /// What the request for the lookup document came back with.
    Catalog(Fetched<DownloadCatalog>),
    /// Whether the artifact arrived in full.
    Downloaded(bool),
    /// Whether the consent marker was written.
    ConsentWritten(bool),
    /// The staging plan was carried out.
    PluginsStaged,
}

/// Why provisioning ended.
#[derive(Clone, Debug, PartialEq, Eq)]
pub enum InitError {
    /// No scratch root could be had.
    NoScratch,
    /// A directory that must be there could not be created.
    DirectoryNotCreated,
    /// The supplied working directory has no absolute path.
    NotCanonical,
    /// No artifact could be named.
    Resolution(ResolutionError),
    /// The consent marker could not be written.
    ConsentNotWritten,
}

/// [`InitError`] over plain text.
pub enum InitErrorView {
    NoScratch,
    DirectoryNotCreated,
    NotCanonical,
    Resolution(ResolutionFailure),
    ConsentNotWritten,
}

impl View for InitError {
    type V = InitErrorView;

    open spec fn view(&self) -> InitErrorView {
        match self {
            InitError::NoScratch => InitErrorView::NoScratch,
            InitError::DirectoryNotCreated => InitErrorView::DirectoryNotCreated,
            InitError::NotCanonical => InitErrorView::NotCanonical,
            InitError::Resolution(e) => InitErrorView::Resolution(e@),
            InitError::ConsentNotWritten => InitErrorView::ConsentNotWritten,
        }
    }
}

/// What the caller is to do next while a server is made ready.
#[derive(Clone, Debug, PartialEq, Eq)]
pub enum InitAction {
    /// Inspect the scratch candidates and name the platform's temporary
    /// directory; answer with [`InitEvent::ScratchProbed`].
    ProbeScratch,
    /// Make a directory under `parent` whose name starts with `prefix`;
    /// answer with [`InitEvent::ScratchMade`].
    MakeScratch { parent: String, prefix: String },
    /// Make sure the directory exists, creating this one level where it is
    /// missing; answer with [`InitEvent::DirectoryReady`].
    EnsureDirectory(String),
    /// Resolve the path to its absolute form; answer with
    /// [`InitEvent::Canonical`].
    Canonicalize(String),
    /// Fetch the lookup document from this address; answer with
    /// [`InitEvent::Catalog`].
    FetchCatalog(String),
    /// Download the artifact; answer with [`InitEvent::Downloaded`]. A failed
    /// download is reported to the operator and does not end the run.
    Download(ArtifactReference),
    /// Write exactly `contents` to the file at `path`; answer with
    /// [`InitEvent::ConsentWritten`].
    WriteConsent { path: String, contents: String },
    /// Stage `sources` into `folder`; answer with
    /// [`InitEvent::PluginsStaged`].
    StagePlugins { sources: Vec<String>, folder: String },
    /// The server is ready.
    Done,
    /// Give up: the run ends with a non-zero status.
    Abort(InitError),
    /// The event does not belong to the current state: nothing to do.
    Idle,
}

/// [`InitAction`] over plain text.
pub enum InitActionView {
    ProbeScratch,
    MakeScratch { parent: Seq<char>, prefix: Seq<char> },
    EnsureDirectory(Seq<char>),
    Canonicalize(Seq<char>),
    FetchCatalog(Seq<char>),
    Download(ArtifactTarget),
    WriteConsent { path: Seq<char>, contents: Seq<char> },
    StagePlugins { sources: Seq<Seq<char>>, folder: Seq<char> },
    Done,
    Abort(InitErrorView),
    Idle,
}

impl View for InitAction {
    type V = InitActionView;

    open spec fn view(&self) -> InitActionView {
        match self {
            InitAction::ProbeScratch => InitActionView::ProbeScratch,
            InitAction::MakeScratch { parent, prefix } => InitActionView::MakeScratch {
                parent: parent@,
                prefix: prefix@,
            },
            InitAction::EnsureDirectory(p) => InitActionView::EnsureDirectory(p@),
            InitAction::Canonicalize(p) => InitActionView::Canonicalize(p@),
            InitAction::FetchCatalog(url) => InitActionView::FetchCatalog(url@),
            InitAction::Download(artifact) => InitActionView::Download(artifact@),
            InitAction::WriteConsent { path, contents } => InitActionView::WriteConsent {
                path: path@,
                contents: contents@,
            },
            InitAction::StagePlugins { sources, folder } => InitActionView::StagePlugins {
                sources: texts(sources@),
                folder: folder@,
            },
            InitAction::Done => InitActionView::Done,
            InitAction::Abort(e) => InitActionView::Abort(e@),
            InitAction::Idle => InitActionView::Idle,
        }
    }
}

/// The result of one provisioning step: the working directory from now on,
/// the next state, and the action to perform.
pub struct InitOutcome {
    pub wd: Seq<char>,
    pub state: Lifecycle,
    pub action: InitActionView,
}

/// Nothing happens.
pub open spec fn stay(server: ServerView, state: Lifecycle) -> InitOutcome {
    InitOutcome { wd: server.wd, state: state, action: InitActionView::Idle }
}

/// The run ends.
pub open spec fn fail(server: ServerView, error: InitErrorView) -> InitOutcome {
    InitOutcome { wd: server.wd, state: Lifecycle::Failed, action: InitActionView::Abort(error) }
}

/// With scratch root `root` in hand, the shared parent of all ephemeral
/// workspaces becomes the working directory and is made sure of.
pub open spec fn enter_scratch(root: Seq<char>) -> InitOutcome {
    InitOutcome {
        wd: joined(root, SCRATCH_PARENT@),
        state: Lifecycle::Initializing(InitPhase::CreatingParent),
        action: InitActionView::EnsureDirectory(joined(root, SCRATCH_PARENT@)),
    }
}

/// With the working directory settled at `wd`, the consent marker is written.
pub open spec fn enter_consent(wd: Seq<char>) -> InitOutcome {
    InitOutcome {
        wd: wd,
        state: Lifecycle::Initializing(InitPhase::WritingConsent),
        action: InitActionView::WriteConsent { path: consent_path_of(wd), contents: CONSENT_TEXT@ },
    }
}

/// With the working directory settled at `wd`, the artifact is resolved: the
/// lookup document is fetched for a family that has one; for a family that
/// has none there is nothing to download, and the run moves on.
pub open spec fn enter_resolution(server: ServerView, wd: Seq<char>) -> InitOutcome {
    match server.software.lookup_address() {
        Some(url) => InitOutcome {
            wd: wd,
            state: Lifecycle::Initializing(InitPhase::Resolving),
            action: InitActionView::FetchCatalog(url),
        },
        None => enter_consent(wd),
    }
}

/// One provisioning step. `suffix` is the random suffix that the name of an
/// ephemeral workspace gets; it matters in the one step that names it.
pub open spec fn init_step(server: ServerView, state: Lifecycle, event: InitEvent, suffix: Seq<char>) -> InitOutcome {
    match (state, event) {
        (Lifecycle::Uninitialized, InitEvent::Begin) => if server.wd == EPHEMERAL@ {
            InitOutcome {
                wd: server.wd,
                state: Lifecycle::Initializing(InitPhase::ProbingScratch),
                action: InitActionView::ProbeScratch,
            }
        } else {
            InitOutcome {
                wd: server.wd,
                state: Lifecycle::Initializing(InitPhase::Canonicalizing),
                action: InitActionView::Canonicalize(server.wd),
            }
        },
        (
            Lifecycle::Initializing(InitPhase::ProbingScratch),
            InitEvent::ScratchProbed { probes, platform_temp },
        ) => match scratch_root_of(probes@, owned_text_of(platform_temp)) {
            Ok(ScratchRootView::Fixed(root)) => enter_scratch(root),
            Ok(ScratchRootView::FreshUnder { parent, prefix }) => InitOutcome {
                wd: server.wd,
                state: Lifecycle::Initializing(InitPhase::MakingScratch),
                action: InitActionView::MakeScratch { parent: parent, prefix: prefix },
            },
            Err(_) => fail(server, InitErrorView::NoScratch),
        },
        (Lifecycle::Initializing(InitPhase::MakingScratch), InitEvent::ScratchMade(made)) => match made {
            Some(root) => enter_scratch(root@),
            None => fail(server, InitErrorView::NoScratch),
        },
        (Lifecycle::Initializing(InitPhase::CreatingParent), InitEvent::DirectoryReady(ready)) => if ready {
            InitOutcome {
                wd: joined(server.wd, leaf_name(server.software, server.version, suffix)),
                state: Lifecycle::Initializing(InitPhase::CreatingLeaf),
                action: InitActionView::EnsureDirectory(
                    joined(server.wd, leaf_name(server.software, server.version, suffix)),
                ),
            }
        } else {
            fail(server, InitErrorView::DirectoryNotCreated)
        },
        (Lifecycle::Initializing(InitPhase::CreatingLeaf), InitEvent::DirectoryReady(ready)) => if ready {
            enter_resolution(server, server.wd)
        } else {
            fail(server, InitErrorView::DirectoryNotCreated)
        },
        (Lifecycle::Initializing(InitPhase::Canonicalizing), InitEvent::Canonical(resolved)) => match resolved {
            Some(path) => enter_resolution(server, path@),
            None => fail(server, InitErrorView::NotCanonical),
        },
        (Lifecycle::Initializing(InitPhase::Resolving), InitEvent::Catalog(fetched)) => match artifact_for(
            server.software,
            server.version,
            server.wd,
            &fetched,
        ) {
            Ok(Some(artifact)) => InitOutcome {
                wd: server.wd,
                state: Lifecycle::Initializing(InitPhase::Downloading),
                action: InitActionView::Download(artifact),
            },
            Ok(None) => enter_consent(server.wd),
            Err(e) => fail(server, InitErrorView::Resolution(e)),
        },
        (Lifecycle::Initializing(InitPhase::Downloading), InitEvent::Downloaded(_)) => enter_consent(server.wd),
        (Lifecycle::Initializing(InitPhase::WritingConsent), InitEvent::ConsentWritten(written)) => if written {
            InitOutcome {
                wd: server.wd,
                state: Lifecycle::Initializing(InitPhase::CreatingPlugins),
                action: InitActionView::EnsureDirectory(plugins_dir_of(server.wd)),
            }
        } else {
            fail(server, InitErrorView::ConsentNotWritten)
        },
        (Lifecycle::Initializing(InitPhase::CreatingPlugins), InitEvent::DirectoryReady(ready)) => if ready {
            InitOutcome {
                wd: server.wd,
                state: Lifecycle::Initializing(InitPhase::Staging),
                action: InitActionView::StagePlugins { sources: server.plugins, folder: plugins_dir_of(server.wd) },
            }
        } else {
            fail(server, InitErrorView::DirectoryNotCreated)
        },
        (Lifecycle::Initializing(InitPhase::Staging), InitEvent::PluginsStaged) => InitOutcome {
            wd: server.wd,
            state: Lifecycle::Ready,
            action: InitActionView::Done,
        },
        _ => stay(server, state),
    }
}

/// The text of an optional owned string.
pub open spec fn owned_text_of(s: Option<String>) -> Option<Seq<char>> {
    match s {
        Some(t) => Some(t@),
        None => None,
    }
}

/// A step was carried out as `out` says: the working directory is the new
/// one, nothing else about the server changed, and state and action are the
/// ones named.
pub open spec fn carried_out(before: ServerView, after: ServerView, r: (Lifecycle, InitAction), out: InitOutcome) -> bool {
    &&& after == (ServerView { wd: out.wd, ..before })
    &&& r.0 == out.state
    &&& r.1@ == out.action
}

impl Server {
    fn stay(&self, state: Lifecycle) -> (r: (Lifecycle, InitAction))
        ensures
            carried_out(self@, self@, r, stay(self@, state)),
    {
        (state, InitAction::Idle)
    }

    fn fail(&self, error: InitError) -> (r: (Lifecycle, InitAction))
        ensures
            carried_out(self@, self@, r, fail(self@, error@)),
    {
        (Lifecycle::Failed, InitAction::Abort(error))
    }

    fn enter_scratch(&mut self, root: &str) -> (r: (Lifecycle, InitAction))
        ensures
            carried_out(old(self)@, final(self)@, r, enter_scratch(root@)),
    {
        let base = join_path(root, SCRATCH_PARENT);
        self.wd = base.clone();
        (Lifecycle::Initializing(InitPhase::CreatingParent), InitAction::EnsureDirectory(base))
    }

    fn enter_consent(&self) -> (r: (Lifecycle, InitAction))
        ensures
            carried_out(self@, self@, r, enter_consent(self@.wd)),
    {
        (
            Lifecycle::Initializing(InitPhase::WritingConsent),
            InitAction::WriteConsent {
                path: consent_path(self.wd.as_str()),
                contents: String::from_str(CONSENT_TEXT),
            },
        )
    }

    fn enter_resolution(&self) -> (r: (Lifecycle, InitAction))
        ensures
            carried_out(self@, self@, r, enter_resolution(self@, self@.wd)),
    {
        match self.software.lookup_url() {
            Some(url) => (Lifecycle::Initializing(InitPhase::Resolving), InitAction::FetchCatalog(String::from_str(url))),
            None => self.enter_consent(),
        }
    }

    /// Whether an ephemeral workspace is asked for.
    pub fn wants_ephemeral(&self) -> (r: bool)
        ensures
            r == (self@.wd == EPHEMERAL@),
    {
        same_text(self.wd.as_str(), EPHEMERAL)
    }

    /// Takes one provisioning step, naming an ephemeral workspace with
    /// `suffix` where the step is the one that names it.
    pub fn init_server_with(&mut self, state: Lifecycle, event: InitEvent, suffix: &str) -> (r: (
        Lifecycle,
        InitAction,
    ))
        ensures
            carried_out(old(self)@, final(self)@, r, init_step(old(self)@, state, event, suffix@)),
    {
        match state {
            Lifecycle::Uninitialized => match event {
                InitEvent::Begin => {
                    if self.wants_ephemeral() {
                        (Lifecycle::Initializing(InitPhase::ProbingScratch), InitAction::ProbeScratch)
                    } else {
                        (Lifecycle::Initializing(InitPhase::Canonicalizing), InitAction::Canonicalize(self.wd.clone()))
                    }
                },
                _ => self.stay(state),
            },
            Lifecycle::Initializing(phase) => match (phase, event) {
                (InitPhase::ProbingScratch, InitEvent::ScratchProbed { probes, platform_temp }) => {
                    let temp: Option<&str> = match &platform_temp {
                        Some(t) => Some(t.as_str()),
                        None => None,
                    };
                    match get_temp_folder(&probes, temp) {
                        Ok(ScratchRoot::Fixed(root)) => self.enter_scratch(root.as_str()),
                        Ok(ScratchRoot::FreshUnder { parent, prefix }) => (
                            Lifecycle::Initializing(InitPhase::MakingScratch),
                            InitAction::MakeScratch { parent: parent, prefix: prefix },
                        ),
                        Err(_) => self.fail(InitError::NoScratch),
                    }
                },
                (InitPhase::MakingScratch, InitEvent::ScratchMade(made)) => match made {
                    Some(root) => self.enter_scratch(root.as_str()),
                    None => self.fail(InitError::NoScratch),
                },
                (InitPhase::CreatingParent, InitEvent::DirectoryReady(ready)) => {
                    if ready {
                        let leaf = leaf_dir_name(self.software, self.version.as_str(), suffix);
                        let path = join_path(self.wd.as_str(), leaf.as_str());
                        self.wd = path.clone();
                        (Lifecycle::Initializing(InitPhase::CreatingLeaf), InitAction::EnsureDirectory(path))
                    } else {
                        self.fail(InitError::DirectoryNotCreated)
                    }
                },
                (InitPhase::CreatingLeaf, InitEvent::DirectoryReady(ready)) => {
                    if ready {
                        self.enter_resolution()
                    } else {
                        self.fail(InitError::DirectoryNotCreated)
                    }
                },
                (InitPhase::Canonicalizing, InitEvent::Canonical(resolved)) => match resolved {
                    Some(path) => {
                        self.wd = path;
                        self.enter_resolution()
                    },
                    None => self.fail(InitError::NotCanonical),
                },
                (InitPhase::Resolving, InitEvent::Catalog(fetched)) => {
                    match download_server_software(
                        self.software,
                        self.version.as_str(),
                        self.wd.as_str(),
                        &fetched,
                    ) {
                        Ok(Some(artifact)) => (
                            Lifecycle::Initializing(InitPhase::Downloading),
                            InitAction::Download(artifact),
                        ),
                        Ok(None) => self.enter_consent(),
                        Err(e) => self.fail(InitError::Resolution(e)),
                    }
                },
                (InitPhase::Downloading, InitEvent::Downloaded(_)) => self.enter_consent(),
                (InitPhase::WritingConsent, InitEvent::ConsentWritten(written)) => {
                    if written {
                        (
                            Lifecycle::Initializing(InitPhase::CreatingPlugins),
                            InitAction::EnsureDirectory(plugins_dir(self.wd.as_str())),
                        )
                    } else {
                        self.fail(InitError::ConsentNotWritten)
                    }
                },
                (InitPhase::CreatingPlugins, InitEvent::DirectoryReady(ready)) => {
                    if ready {
                        (
                            Lifecycle::Initializing(InitPhase::Staging),
                            InitAction::StagePlugins {
                                sources: clone_texts(&self.plugins),
                                folder: plugins_dir(self.wd.as_str()),
                            },
                        )
                    } else {
                        self.fail(InitError::DirectoryNotCreated)
                    }
                },
                (InitPhase::Staging, InitEvent::PluginsStaged) => (Lifecycle::Ready, InitAction::Done),
                _ => self.stay(state),
            },
            _ => self.stay(state),
        }
    }

    /// Takes one provisioning step. Where the step names an ephemeral
    /// workspace, its suffix is drawn at random: the outcome is that of
    /// [`Server::init_server_with`] for some suffix of [`SUFFIX_LEN`]
    /// letters and digits.
    pub fn init_server(&mut self, state: Lifecycle, event: InitEvent) -> (r: (Lifecycle, InitAction))
        ensures
            exists|suffix: Seq<char>|
                is_suffix(suffix, SUFFIX_LEN as nat) && carried_out(
                    old(self)@,
                    final(self)@,
                    r,
                    #[trigger] init_step(old(self)@, state, event, suffix),
                ),
    {
        match state {
            Lifecycle::Initializing(InitPhase::CreatingParent) => {
                let suffix = generate_random_uuid();
                self.init_server_with(state, event, suffix.as_str())
            },
            _ => {
                let ghost unused = Seq::new(SUFFIX_LEN as nat, |i: int| 'a');
                let r = self.init_server_with(state, event, "");
                proof {
                    assert(is_suffix(unused, SUFFIX_LEN as nat));
                    assert(init_step(old(self)@, state, event, unused) == init_step(old(self)@, state, event, ""@));
                }
                r
            },
        }
    }
}

/// States in which provisioning is over, or has not been the matter for a
/// while.
pub open spec fn is_settled(state: Lifecycle) -> bool {
    !(state is Uninitialized) && !(state is Initializing)
}

/// Provisioning never leaves a settled state: a ready, running, ended or
/// failed server ignores every provisioning event.
pub proof fn lemma_settled_states_ignore_provisioning(
    server: ServerView,
    state: Lifecycle,
    event: InitEvent,
    suffix: Seq<char>,
)
    requires
        is_settled(state),
    ensures
        init_step(server, state, event, suffix) == stay(server, state),
{
}

/// A server becomes ready in one way only: by the report that the plugins
/// were staged, which is asked for only after the consent marker was written
/// and the plugins directory made sure of.
pub proof fn lemma_ready_only_after_staging(server: ServerView, state: Lifecycle, event: InitEvent, suffix: Seq<char>)
    requires
        init_step(server, state, event, suffix).state == Lifecycle::Ready,
        state != Lifecycle::Ready,
    ensures
        state == Lifecycle::Initializing(InitPhase::Staging),
        event is PluginsStaged,
        init_step(server, state, event, suffix).action == InitActionView::Done,
{
}

/// Staging is asked for only when the plugins directory is there, that
/// directory only when the consent marker was written, and the marker always
/// holds the consent text and lies directly in the working directory.
pub proof fn lemma_consent_comes_before_plugins(
    server: ServerView,
    state: Lifecycle,
    event: InitEvent,
    suffix: Seq<char>,
)
    ensures
        init_step(server, state, event, suffix).action is StagePlugins ==> state == Lifecycle::Initializing(
            InitPhase::CreatingPlugins,
        ) && event == InitEvent::DirectoryReady(true),
        init_step(server, state, event, suffix).state == Lifecycle::Initializing(InitPhase::CreatingPlugins)
            && state != Lifecycle::Initializing(InitPhase::CreatingPlugins) ==> state == Lifecycle::Initializing(
            InitPhase::WritingConsent,
        ) && event == InitEvent::ConsentWritten(true),
        init_step(server, state, event, suffix).action is WriteConsent ==> init_step(
            server,
            state,
            event,
            suffix,
        ).action == (InitActionView::WriteConsent {
            path: consent_path_of(init_step(server, state, event, suffix).wd),
            contents: CONSENT_TEXT@,
        }),
{
}

/// A download is asked for only once the working directory is settled: after
/// the lookup document arrived, which is fetched only when the ephemeral
/// workspace is there or the supplied directory has its absolute path. The
/// artifact goes into the working directory under its fixed name.
pub proof fn lemma_download_into_settled_workspace(
    server: ServerView,
    state: Lifecycle,
    event: InitEvent,
    suffix: Seq<char>,
)
    ensures
        init_step(server, state, event, suffix).action is Download ==> {
            &&& state == Lifecycle::Initializing(InitPhase::Resolving)
            &&& init_step(server, state, event, suffix).wd == server.wd
            &&& init_step(server, state, event, suffix).action->Download_0.directory == server.wd
            &&& init_step(server, state, event, suffix).action->Download_0.file_name == ARTIFACT_FILE@
        },
        init_step(server, state, event, suffix).state == Lifecycle::Initializing(InitPhase::Resolving) && state
            != Lifecycle::Initializing(InitPhase::Resolving) ==> (state == Lifecycle::Initializing(
            InitPhase::CreatingLeaf,
        ) && event == InitEvent::DirectoryReady(true)) || (state == Lifecycle::Initializing(
            InitPhase::Canonicalizing,
        ) && event is Canonical && event->Canonical_0 is Some),
{
}

/// Every fatal condition ends the run at once, and nothing but a fatal
/// condition does: the state is failed exactly when the action is to abort.
pub proof fn lemma_abort_means_failed(server: ServerView, state: Lifecycle, event: InitEvent, suffix: Seq<char>)
    requires
        state != Lifecycle::Failed,
    ensures
        init_step(server, state, event, suffix).state == Lifecycle::Failed <==> init_step(
            server,
            state,
            event,
            suffix,
        ).action is Abort,
        init_step(server, state, event, suffix).state == Lifecycle::Failed ==> init_step(
            server,
            state,
            event,
            suffix,
        ).wd == server.wd,
{
}

} // verus!
