//! What holds of whole provisioning runs: of every sequence of events,
//! whatever the caller reports and in whatever order.

use vstd::prelude::*;
use crate::paths::lemma_joined_lies_under_base;
use crate::resolver::ARTIFACT_FILE;
use crate::server::{enter_scratch, init_step, InitActionView, InitEvent, InitPhase, Lifecycle, ServerView};
use crate::workspace::{
    consent_path_of, ephemeral_path_of, leaf_name, lemma_distinct_suffixes_never_collide,
    lemma_leaf_name_is_relative, plugins_dir_of, CONSENT_TEXT,
};

verus! {

/// The server and the state after a run of events. One suffix serves the
/// whole run: a run names at most one workspace.
pub open spec fn init_run(server: ServerView, state: Lifecycle, events: Seq<InitEvent>, suffix: Seq<char>) -> (
    ServerView,
    Lifecycle,
)
    decreases events.len(),
{
    if events.len() == 0 {
        (server, state)
    } else {
        let out = init_step(server, state, events[0], suffix);
        init_run(ServerView { wd: out.wd, ..server }, out.state, events.skip(1), suffix)
    }
}

/// The actions that a run of events asks for, one for each event.
pub open spec fn init_actions(server: ServerView, state: Lifecycle, events: Seq<InitEvent>, suffix: Seq<char>) -> Seq<
    InitActionView,
>
    decreases events.len(),
{
    if events.len() == 0 {
        Seq::empty()
    } else {
        let out = init_step(server, state, events[0], suffix);
        seq![out.action] + init_actions(ServerView { wd: out.wd, ..server }, out.state, events.skip(1), suffix)
    }
}

/// Among `done` is the request to write the consent text to the marker file
/// of working directory `wd`.
pub open spec fn consent_asked(wd: Seq<char>, done: Seq<InitActionView>) -> bool {
    done.contains(InitActionView::WriteConsent { path: consent_path_of(wd), contents: CONSENT_TEXT@ })
}

/// Among `done` is the request to make sure of the plugins directory of
/// working directory `wd`.
pub open spec fn plugins_dir_asked(wd: Seq<char>, done: Seq<InitActionView>) -> bool {
    done.contains(InitActionView::EnsureDirectory(plugins_dir_of(wd)))
}

/// Among `done` is the request to stage the plugins of `server` into the
/// plugins directory of its working directory.
pub open spec fn staging_asked(server: ServerView, done: Seq<InitActionView>) -> bool {
    done.contains(InitActionView::StagePlugins { sources: server.plugins, folder: plugins_dir_of(server.wd) })
}

/// Among `done` is the request to download an artifact into working
/// directory `wd` under the fixed artifact name.
pub open spec fn download_asked(wd: Seq<char>, done: Seq<InitActionView>) -> bool {
    exists|i: int|
        0 <= i < done.len() && (#[trigger] done[i]) is Download && done[i]->Download_0.directory == wd
            && done[i]->Download_0.file_name == ARTIFACT_FILE@
}

/// What must have been asked for by the time a server is in `state`.
pub open spec fn history_fits(server: ServerView, state: Lifecycle, done: Seq<InitActionView>) -> bool {
    match state {
        Lifecycle::Initializing(InitPhase::Downloading) => download_asked(server.wd, done),
        Lifecycle::Initializing(InitPhase::WritingConsent) => {
            &&& consent_asked(server.wd, done)
            &&& server.software.has_lookup() ==> download_asked(server.wd, done)
        },
        Lifecycle::Initializing(InitPhase::CreatingPlugins) => {
            &&& consent_asked(server.wd, done)
            &&& plugins_dir_asked(server.wd, done)
            &&& server.software.has_lookup() ==> download_asked(server.wd, done)
        },
        Lifecycle::Initializing(InitPhase::Staging) | Lifecycle::Ready => {
            &&& consent_asked(server.wd, done)
            &&& plugins_dir_asked(server.wd, done)
            &&& staging_asked(server, done)
            &&& server.software.has_lookup() ==> download_asked(server.wd, done)
        },
        _ => true,
    }
}

/// States that provisioning itself can lead to.
pub open spec fn is_provisioning_state(state: Lifecycle) -> bool {
    state is Uninitialized || state is Initializing || state is Ready || state is Failed
}

proof fn lemma_step_keeps_history(
    server: ServerView,
    state: Lifecycle,
    event: InitEvent,
    suffix: Seq<char>,
    done: Seq<InitActionView>,
)
    requires
        history_fits(server, state, done),
        is_provisioning_state(state),
    ensures
        history_fits(
            ServerView { wd: init_step(server, state, event, suffix).wd, ..server },
            init_step(server, state, event, suffix).state,
            done.push(init_step(server, state, event, suffix).action),
        ),
        is_provisioning_state(init_step(server, state, event, suffix).state),
{
    let out = init_step(server, state, event, suffix);
    let after = done.push(out.action);
    assert(after[done.len() as int] == out.action);
    assert forall|a: InitActionView| done.contains(a) implies after.contains(a) by {
        let i = choose|i: int| 0 <= i < done.len() && done[i] == a;
        assert(after[i] == a);
    }
    if download_asked(server.wd, done) {
        let i = choose|i: int|
            0 <= i < done.len() && (#[trigger] done[i]) is Download && done[i]->Download_0.directory == server.wd
                && done[i]->Download_0.file_name == ARTIFACT_FILE@;
        assert(after[i] == done[i]);
    }
}

/// Every run keeps its history in step with its state, from wherever it
/// starts.
pub proof fn lemma_run_keeps_history(
    server: ServerView,
    state: Lifecycle,
    events: Seq<InitEvent>,
    suffix: Seq<char>,
    done: Seq<InitActionView>,
)
    requires
        history_fits(server, state, done),
        is_provisioning_state(state),
    ensures
        history_fits(
            init_run(server, state, events, suffix).0,
            init_run(server, state, events, suffix).1,
            done + init_actions(server, state, events, suffix),
        ),
        is_provisioning_state(init_run(server, state, events, suffix).1),
    decreases events.len(),
{
    if events.len() == 0 {
        assert(done + init_actions(server, state, events, suffix) =~= done);
    } else {
        let out = init_step(server, state, events[0], suffix);
        let next = ServerView { wd: out.wd, ..server };
        lemma_step_keeps_history(server, state, events[0], suffix, done);
        lemma_run_keeps_history(next, out.state, events.skip(1), suffix, done.push(out.action));
        assert(done.push(out.action) + init_actions(next, out.state, events.skip(1), suffix) =~= done + init_actions(
            server,
            state,
            events,
            suffix,
        ));
    }
}

/// However a run goes, a server that it leaves ready has been provisioned:
/// the run asked for the consent text to be written to the marker file of the
/// final working directory, for the plugins directory in it, and for the
/// staging of exactly the server's plugins into that directory; and for a
/// family with lookup it asked for the artifact to be downloaded into the
/// final working directory under its fixed name.
pub proof fn lemma_ready_server_was_provisioned(server: ServerView, events: Seq<InitEvent>, suffix: Seq<char>)
    requires
        init_run(server, Lifecycle::Uninitialized, events, suffix).1 == Lifecycle::Ready,
    ensures
        ({
            let ready = init_run(server, Lifecycle::Uninitialized, events, suffix).0;
            let asked = init_actions(server, Lifecycle::Uninitialized, events, suffix);
            &&& ready == (ServerView { wd: ready.wd, ..server })
            &&& consent_asked(ready.wd, asked)
            &&& plugins_dir_asked(ready.wd, asked)
            &&& staging_asked(ready, asked)
            &&& server.software.has_lookup() ==> download_asked(ready.wd, asked)
        }),
{
    lemma_run_keeps_history(server, Lifecycle::Uninitialized, events, suffix, Seq::empty());
    assert(Seq::<InitActionView>::empty() + init_actions(server, Lifecycle::Uninitialized, events, suffix)
        =~= init_actions(server, Lifecycle::Uninitialized, events, suffix));
    lemma_run_changes_only_the_directory(server, Lifecycle::Uninitialized, events, suffix);
}

/// A run changes nothing about a server but its working directory.
pub proof fn lemma_run_changes_only_the_directory(
    server: ServerView,
    state: Lifecycle,
    events: Seq<InitEvent>,
    suffix: Seq<char>,
)
    ensures
        init_run(server, state, events, suffix).0 == (ServerView {
            wd: init_run(server, state, events, suffix).0.wd,
            ..server
        }),
    decreases events.len(),
{
    if events.len() > 0 {
        let out = init_step(server, state, events[0], suffix);
        lemma_run_changes_only_the_directory(ServerView { wd: out.wd, ..server }, out.state, events.skip(1), suffix);
    }
}

/// A failed run stays failed and asks for nothing more.
pub proof fn lemma_failed_run_stays_failed(server: ServerView, events: Seq<InitEvent>, suffix: Seq<char>)
    ensures
        init_run(server, Lifecycle::Failed, events, suffix) == (server, Lifecycle::Failed),
        forall|i: int|
            0 <= i < init_actions(server, Lifecycle::Failed, events, suffix).len() ==> #[trigger] init_actions(
                server,
                Lifecycle::Failed,
                events,
                suffix,
            )[i] == InitActionView::Idle,
    decreases events.len(),
{
    if events.len() > 0 {
        let out = init_step(server, Lifecycle::Failed, events[0], suffix);
        assert(out.wd == server.wd);
        assert(ServerView { wd: out.wd, ..server } == server);
        lemma_failed_run_stays_failed(server, events.skip(1), suffix);
        let rest = init_actions(server, Lifecycle::Failed, events.skip(1), suffix);
        let all = init_actions(server, Lifecycle::Failed, events, suffix);
        assert forall|i: int| 0 <= i < all.len() implies #[trigger] all[i] == InitActionView::Idle by {
            if i > 0 {
                assert(all[i] == rest[i - 1]);
            }
        }
    }
}

/// The caller has confirmed that a directory is at `wd`: at some step the
/// run asked to make sure of that directory and a later event said that it
/// is there, or the run asked for an absolute path and a later event said
/// that `wd` is it.
pub open spec fn directory_confirmed(wd: Seq<char>, seen: Seq<InitEvent>, done: Seq<InitActionView>) -> bool {
    exists|j: int, k: int|
        0 <= j < k < seen.len() && j < done.len() && #[trigger] answers(wd, done[j], #[trigger] seen[k])
}

/// Event `event` confirms, in answer to action `asked`, that a directory is
/// at `wd`.
pub open spec fn answers(wd: Seq<char>, asked: InitActionView, event: InitEvent) -> bool {
    ||| asked == InitActionView::EnsureDirectory(wd) && event == InitEvent::DirectoryReady(true)
    ||| asked is Canonicalize && event is Canonical && event->Canonical_0 is Some && event->Canonical_0->0@ == wd
}

/// Among `done` is the request to make sure of the directory at `wd`.
pub open spec fn directory_asked(wd: Seq<char>, done: Seq<InitActionView>) -> bool {
    done.contains(InitActionView::EnsureDirectory(wd))
}

/// Among `done` is a request for an absolute path.
pub open spec fn canonical_asked(done: Seq<InitActionView>) -> bool {
    exists|j: int| 0 <= j < done.len() && (#[trigger] done[j]) is Canonicalize
}

/// What the caller must have confirmed by the time a server is in `state`.
pub open spec fn confirmation_fits(
    server: ServerView,
    state: Lifecycle,
    seen: Seq<InitEvent>,
    done: Seq<InitActionView>,
) -> bool {
    &&& seen.len() == done.len()
    &&& match state {
        Lifecycle::Initializing(InitPhase::CreatingLeaf) => directory_asked(server.wd, done),
        Lifecycle::Initializing(InitPhase::Canonicalizing) => canonical_asked(done),
        Lifecycle::Initializing(InitPhase::Resolving)
        | Lifecycle::Initializing(InitPhase::Downloading)
        | Lifecycle::Initializing(InitPhase::WritingConsent)
        | Lifecycle::Initializing(InitPhase::CreatingPlugins)
        | Lifecycle::Initializing(InitPhase::Staging)
        | Lifecycle::Ready => directory_confirmed(server.wd, seen, done),
        _ => true,
    }
}

proof fn lemma_confirmation_lasts(
    wd: Seq<char>,
    seen: Seq<InitEvent>,
    done: Seq<InitActionView>,
    event: InitEvent,
    action: InitActionView,
)
    requires
        directory_confirmed(wd, seen, done),
    ensures
        directory_confirmed(wd, seen.push(event), done.push(action)),
{
    let (j, k) = choose|j: int, k: int|
        0 <= j < k < seen.len() && j < done.len() && #[trigger] answers(wd, done[j], #[trigger] seen[k]);
    assert(done.push(action)[j] == done[j]);
    assert(seen.push(event)[k] == seen[k]);
    assert(answers(wd, done.push(action)[j], seen.push(event)[k]));
}

proof fn lemma_step_keeps_confirmation(
    server: ServerView,
    state: Lifecycle,
    event: InitEvent,
    suffix: Seq<char>,
    seen: Seq<InitEvent>,
    done: Seq<InitActionView>,
)
    requires
        confirmation_fits(server, state, seen, done),
        is_provisioning_state(state),
    ensures
        confirmation_fits(
            ServerView { wd: init_step(server, state, event, suffix).wd, ..server },
            init_step(server, state, event, suffix).state,
            seen.push(event),
            done.push(init_step(server, state, event, suffix).action),
        ),
        init_step(server, state, event, suffix).action is Download ==> directory_confirmed(
            init_step(server, state, event, suffix).action->Download_0.directory,
            seen,
            done,
        ),
        is_provisioning_state(init_step(server, state, event, suffix).state),
{
    let out = init_step(server, state, event, suffix);
    let seen2 = seen.push(event);
    let done2 = done.push(out.action);
    let n = seen.len() as int;
    assert(seen2[n] == event);
    assert(done2[n] == out.action);
    if directory_confirmed(server.wd, seen, done) {
        lemma_confirmation_lasts(server.wd, seen, done, event, out.action);
    }
    match state {
        Lifecycle::Initializing(InitPhase::CreatingLeaf) => {
            let j = choose|j: int| 0 <= j < done.len() && done[j] == InitActionView::EnsureDirectory(server.wd);
            assert(done2[j] == done[j]);
            if event == InitEvent::DirectoryReady(true) {
                assert(answers(out.wd, done2[j], seen2[n]));
            }
        },
        Lifecycle::Initializing(InitPhase::Canonicalizing) => {
            let j = choose|j: int| 0 <= j < done.len() && (#[trigger] done[j]) is Canonicalize;
            assert(done2[j] == done[j]);
            if event is Canonical && event->Canonical_0 is Some {
                assert(answers(out.wd, done2[j], seen2[n]));
            }
        },
        _ => {},
    }
}

/// A run asks for exactly one action for each event.
pub proof fn lemma_actions_match_events(
    server: ServerView,
    state: Lifecycle,
    events: Seq<InitEvent>,
    suffix: Seq<char>,
)
    ensures
        init_actions(server, state, events, suffix).len() == events.len(),
    decreases events.len(),
{
    if events.len() > 0 {
        let out = init_step(server, state, events[0], suffix);
        lemma_actions_match_events(ServerView { wd: out.wd, ..server }, out.state, events.skip(1), suffix);
    }
}

proof fn lemma_run_keeps_confirmation(
    server: ServerView,
    state: Lifecycle,
    events: Seq<InitEvent>,
    suffix: Seq<char>,
    seen: Seq<InitEvent>,
    done: Seq<InitActionView>,
    d: int,
)
    requires
        confirmation_fits(server, state, seen, done),
        is_provisioning_state(state),
        0 <= d < events.len(),
        init_actions(server, state, events, suffix).len() == events.len(),
        init_actions(server, state, events, suffix)[d] is Download,
    ensures
        directory_confirmed(
            init_actions(server, state, events, suffix)[d]->Download_0.directory,
            seen + events.take(d),
            done + init_actions(server, state, events, suffix).take(d),
        ),
    decreases events.len(),
{
    let out = init_step(server, state, events[0], suffix);
    let next = ServerView { wd: out.wd, ..server };
    let actions = init_actions(server, state, events, suffix);
    let rest = init_actions(next, out.state, events.skip(1), suffix);
    lemma_step_keeps_confirmation(server, state, events[0], suffix, seen, done);
    if d == 0 {
        assert(seen + events.take(0) =~= seen);
        assert(done + actions.take(0) =~= done);
    } else {
        lemma_actions_match_events(next, out.state, events.skip(1), suffix);
        assert(actions[d] == rest[d - 1]);
        lemma_run_keeps_confirmation(next, out.state, events.skip(1), suffix, seen.push(events[0]), done.push(out.action), d - 1);
        assert(seen.push(events[0]) + events.skip(1).take(d - 1) =~= seen + events.take(d));
        assert(done.push(out.action) + rest.take(d - 1) =~= done + actions.take(d));
    }
}

/// No download begins before the caller has confirmed the working directory:
/// wherever a run asks for a download, the directory that the artifact goes
/// into was, earlier in the same run, asked to be there and reported as
/// there, or asked for and reported as the absolute path of the supplied
/// directory.
pub proof fn lemma_download_only_into_confirmed_directory(
    server: ServerView,
    events: Seq<InitEvent>,
    suffix: Seq<char>,
    d: int,
)
    requires
        0 <= d < events.len(),
        init_actions(server, Lifecycle::Uninitialized, events, suffix)[d] is Download,
    ensures
        directory_confirmed(
            init_actions(server, Lifecycle::Uninitialized, events, suffix)[d]->Download_0.directory,
            events.take(d),
            init_actions(server, Lifecycle::Uninitialized, events, suffix).take(d),
        ),
{
    lemma_actions_match_events(server, Lifecycle::Uninitialized, events, suffix);
    lemma_run_keeps_confirmation(
        server,
        Lifecycle::Uninitialized,
        events,
        suffix,
        Seq::empty(),
        Seq::empty(),
        d,
    );
    let actions = init_actions(server, Lifecycle::Uninitialized, events, suffix);
    assert(Seq::<InitEvent>::empty() + events.take(d) =~= events.take(d));
    assert(Seq::<InitActionView>::empty() + actions.take(d) =~= actions.take(d));
}

/// Ephemeral workspaces share their parent and nothing else. Under one
/// scratch root every run makes sure of the same parent directory, whatever
/// server it is for; and two runs for the same family and version whose
/// suffixes differ then name two different workspaces directly under it.
pub proof fn lemma_ephemeral_workspaces_share_only_their_parent(
    server: ServerView,
    other: ServerView,
    root: Seq<char>,
    first: Seq<char>,
    second: Seq<char>,
)
    requires
        first != second,
    ensures
        ({
            let parent = enter_scratch(root).wd;
            let naming = Lifecycle::Initializing(InitPhase::CreatingParent);
            let ready = InitEvent::DirectoryReady(true);
            let a = init_step(ServerView { wd: parent, ..server }, naming, ready, first);
            let b = init_step(ServerView { wd: parent, ..server }, naming, ready, second);
            let c = init_step(ServerView { wd: parent, ..other }, naming, ready, second);
            &&& enter_scratch(root).action == InitActionView::EnsureDirectory(parent)
            &&& a.wd == ephemeral_path_of(root, leaf_name(server.software, server.version, first))
            &&& b.wd == ephemeral_path_of(root, leaf_name(server.software, server.version, second))
            &&& a.wd != b.wd
            &&& a.wd.subrange(0, parent.len() as int) == parent
            &&& c.wd.subrange(0, parent.len() as int) == parent
            &&& a.action == InitActionView::EnsureDirectory(a.wd)
        }),
{
    let parent = enter_scratch(root).wd;
    lemma_distinct_suffixes_never_collide(root, server.software, server.version, first, second);
    lemma_leaf_name_is_relative(server.software, server.version, first);
    lemma_leaf_name_is_relative(other.software, other.version, second);
    lemma_joined_lies_under_base(parent, leaf_name(server.software, server.version, first));
    lemma_joined_lies_under_base(parent, leaf_name(other.software, other.version, second));
}

} // verus!
