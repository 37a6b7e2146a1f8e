//! Launch and supervision of the server process.
//!
//! Like provisioning, this is a machine: the caller spawns, waits and kills,
//! and reports what happened; the steps here say what that means for the
//! server.

use vstd::prelude::*;
use vstd::string::*;
use crate::resolver::ARTIFACT_FILE;
use crate::server::{Lifecycle, Server, ServerView, ARTIFACT_FLAG, MIN_HEAP_FLAG, NO_GUI_FLAG, RUNTIME};
use crate::software::Software;
use crate::text::{decimal, decimal_text, texts};

verus! {

/// The command that starts the server: the program, its arguments in order,
/// and the directory to run it in. The child shares the standard input,
/// output and error of its parent.
#[derive(Clone, Debug, PartialEq, Eq)]
pub struct LaunchCommand {
    pub program: String,
    pub args: Vec<String>,
    pub current_dir: String,
}

/// [`LaunchCommand`] over plain text.
pub struct LaunchCommandView {
    pub program: Seq<char>,
    pub args: Seq<Seq<char>>,
    pub current_dir: Seq<char>,
}

impl View for LaunchCommand {
    type V = LaunchCommandView;

    open spec fn view(&self) -> LaunchCommandView {
        LaunchCommandView { program: self.program@, args: texts(self.args@), current_dir: self.current_dir@ }
    }
}

/// The flag that sets the maximum heap to `mem` megabytes.
pub open spec fn max_heap_flag(mem: u32) -> Seq<char> {
    "-Xmx"@ + decimal_text(mem as nat) + "M"@
}

/// The launch arguments given on the command line, with the flag that keeps
/// the server from opening a window added at the end unless a window was
/// asked for.
pub open spec fn with_gui_choice(args: Seq<Seq<char>>, gui: bool) -> Seq<Seq<char>> {
    if gui {
        args
    } else {
        args.push(NO_GUI_FLAG@)
    }
}

/// The command that starts `server`: fixed minimum heap, maximum heap from
/// `mem`, the artifact, then the extra arguments in the order given.
pub open spec fn launch_command_of(server: ServerView) -> LaunchCommandView {
    LaunchCommandView {
        program: RUNTIME@,
        args: seq![MIN_HEAP_FLAG@, max_heap_flag(server.mem), ARTIFACT_FLAG@, ARTIFACT_FILE@] + server.args,
        current_dir: server.wd,
    }
}

/// What the caller reports while a server is launched and runs.
#[derive(Clone, Copy, Debug, PartialEq, Eq, Structural)]
pub enum RunEvent {
    /// Start.
    Launch,
    /// Whether the child process was spawned.
    Spawned(bool),
    /// The child exited on its own.
    ChildExited,
    /// The supervisor received an interrupt signal.
    Interrupted,
}

/// What the caller is to do next while a server is launched and runs.
#[derive(Clone, Debug, PartialEq, Eq)]
pub enum RunAction {
    /// Spawn the child; answer with [`RunEvent::Spawned`].
    Spawn(LaunchCommand),
    /// Wait for the child to exit and for an interrupt at once, and answer
    /// with whichever comes first.
    Supervise,
    /// Terminate the child by force, then return.
    Kill,
    /// The child is gone: return normally.
    Finish,
    /// The child could not be spawned: surface the launch error.
    ReportLaunchFailure,
    /// The event does not belong to the current state: nothing to do.
    Idle,
}

/// [`RunAction`] over plain text.
pub enum RunActionView {
    Spawn(LaunchCommandView),
    Supervise,
    Kill,
    Finish,
    ReportLaunchFailure,
    Idle,
}

impl View for RunAction {
    type V = RunActionView;

    open spec fn view(&self) -> RunActionView {
        match self {
            RunAction::Spawn(command) => RunActionView::Spawn(command@),
            RunAction::Supervise => RunActionView::Supervise,
            RunAction::Kill => RunActionView::Kill,
            RunAction::Finish => RunActionView::Finish,
            RunAction::ReportLaunchFailure => RunActionView::ReportLaunchFailure,
            RunAction::Idle => RunActionView::Idle,
        }
    }
}

/// One step of launch and supervision: the next state and the action.
pub open spec fn run_step(server: ServerView, state: Lifecycle, event: RunEvent) -> (Lifecycle, RunActionView) {
    match (state, event) {
        (Lifecycle::Ready, RunEvent::Launch) => (Lifecycle::Ready, RunActionView::Spawn(launch_command_of(server))),
        (Lifecycle::Ready, RunEvent::Spawned(true)) => (Lifecycle::Running, RunActionView::Supervise),
        (Lifecycle::Ready, RunEvent::Spawned(false)) => (Lifecycle::Ready, RunActionView::ReportLaunchFailure),
        (Lifecycle::Running, RunEvent::ChildExited) => (Lifecycle::Stopped, RunActionView::Finish),
        (Lifecycle::Running, RunEvent::Interrupted) => (Lifecycle::Killed, RunActionView::Kill),
        _ => (state, RunActionView::Idle),
    }
}

/// The state after a run of events.
pub open spec fn state_after(server: ServerView, state: Lifecycle, events: Seq<RunEvent>) -> Lifecycle
    decreases events.len(),
{
    if events.len() == 0 {
        state
    } else {
        state_after(server, run_step(server, state, events[0]).0, events.skip(1))
    }
}

/// The number of termination requests that a run of events leads to.
pub open spec fn kills_issued(server: ServerView, state: Lifecycle, events: Seq<RunEvent>) -> nat
    decreases events.len(),
{
    if events.len() == 0 {
        0
    } else {
        let (next, action) = run_step(server, state, events[0]);
        let here: nat = if action is Kill {
            1
        } else {
            0
        };
        here + kills_issued(server, next, events.skip(1))
    }
}

/// Builds the flag that sets the maximum heap.
pub fn heap_flag(mem: u32) -> (r: String)
    ensures
        r@ == max_heap_flag(mem),
{
    let mut out = String::from_str("-Xmx");
    let digits = decimal(mem);
    out.append(digits.as_str());
    out.append("M");
    out
}

/// Adds the flag that keeps the server from opening a window, unless a
/// window was asked for.
pub fn apply_gui_choice(args: Vec<String>, gui: bool) -> (r: Vec<String>)
    ensures
        texts(r@) == with_gui_choice(texts(args@), gui),
{
    let mut out = args;
    if !gui {
        out.push(String::from_str(NO_GUI_FLAG));
        assert(texts(out@) =~= texts(args@).push(NO_GUI_FLAG@));
    }
    out
}

impl Server {
    /// Describes a server from what was asked for on the command line.
    pub fn new(
        software: Software,
        version: String,
        plugins: Vec<String>,
        working_directory: String,
        args: Vec<String>,
        mem: u32,
        gui: bool,
    ) -> (r: Server)
        ensures
            r@ == (ServerView {
                wd: working_directory@,
                software: software,
                version: version@,
                plugins: texts(plugins@),
                args: with_gui_choice(texts(args@), gui),
                mem: mem,
            }),
    {
        Server {
            wd: working_directory,
            software: software,
            version: version,
            plugins: plugins,
            args: apply_gui_choice(args, gui),
            mem: mem,
        }
    }

    /// Assembles the command that starts this server.
    pub fn launch_command(&self) -> (r: LaunchCommand)
        ensures
            r@ == launch_command_of(self@),
    {
        let mut args: Vec<String> = Vec::new();
        args.push(String::from_str(MIN_HEAP_FLAG));
        args.push(heap_flag(self.mem));
        args.push(String::from_str(ARTIFACT_FLAG));
        args.push(String::from_str(ARTIFACT_FILE));
        let ghost fixed = seq![MIN_HEAP_FLAG@, max_heap_flag(self.mem), ARTIFACT_FLAG@, ARTIFACT_FILE@];
        assert(texts(args@) =~= fixed);
        let mut i: usize = 0;
        while i < self.args.len()
            invariant
                i <= self.args@.len(),
                texts(args@) == fixed + texts(self.args@).take(i as int),
            decreases self.args@.len() - i,
        {
            let ghost before = texts(args@);
            args.push(self.args[i].clone());
            assert(texts(args@) =~= before.push(self.args@[i as int]@));
            assert(texts(self.args@).take(i + 1) =~= texts(self.args@).take(i as int).push(self.args@[i as int]@));
            assert(fixed + texts(self.args@).take(i as int).push(self.args@[i as int]@) =~= (fixed + texts(
                self.args@,
            ).take(i as int)).push(self.args@[i as int]@));
            i += 1;
        }
        assert(texts(self.args@).take(i as int) =~= texts(self.args@));
        LaunchCommand { program: String::from_str(RUNTIME), args: args, current_dir: self.wd.clone() }
    }

    /// Takes one step of launch and supervision.
    pub fn start_server(&self, state: Lifecycle, event: RunEvent) -> (r: (Lifecycle, RunAction))
        ensures
            (r.0, r.1@) == run_step(self@, state, event),
    {
        match state {
            Lifecycle::Ready => match event {
                RunEvent::Launch => (Lifecycle::Ready, RunAction::Spawn(self.launch_command())),
                RunEvent::Spawned(spawned) => {
                    if spawned {
                        (Lifecycle::Running, RunAction::Supervise)
                    } else {
                        (Lifecycle::Ready, RunAction::ReportLaunchFailure)
                    }
                },
                _ => (state, RunAction::Idle),
            },
            Lifecycle::Running => match event {
                RunEvent::ChildExited => (Lifecycle::Stopped, RunAction::Finish),
                RunEvent::Interrupted => (Lifecycle::Killed, RunAction::Kill),
                _ => (state, RunAction::Idle),
            },
            _ => (state, RunAction::Idle),
        }
    }
}

/// Once the child is gone, nothing moves the state and nothing is killed.
pub proof fn lemma_ended_run_stays_ended(server: ServerView, state: Lifecycle, events: Seq<RunEvent>)
    requires
        state == Lifecycle::Stopped || state == Lifecycle::Killed,
    ensures
        state_after(server, state, events) == state,
        kills_issued(server, state, events) == 0,
    decreases events.len(),
{
    if events.len() > 0 {
        lemma_ended_run_stays_ended(server, state, events.skip(1));
    }
}

/// The race between the child's exit and an interrupt goes to whichever is
/// reported first, whatever is reported after it. Where the exit is first,
/// the server ends as stopped and no termination is requested; where the
/// interrupt is first, it ends as killed and termination is requested
/// exactly once.
pub proof fn lemma_first_event_decides(server: ServerView, events: Seq<RunEvent>, first: int)
    requires
        0 <= first < events.len(),
        events[first] == RunEvent::ChildExited || events[first] == RunEvent::Interrupted,
        forall|j: int| 0 <= j < first ==> events[j] != RunEvent::ChildExited && events[j] != RunEvent::Interrupted,
    ensures
        events[first] == RunEvent::ChildExited ==> state_after(server, Lifecycle::Running, events)
            == Lifecycle::Stopped && kills_issued(server, Lifecycle::Running, events) == 0,
        events[first] == RunEvent::Interrupted ==> state_after(server, Lifecycle::Running, events)
            == Lifecycle::Killed && kills_issued(server, Lifecycle::Running, events) == 1,
    decreases events.len(),
{
    let rest = events.skip(1);
    if first == 0 {
        lemma_ended_run_stays_ended(server, run_step(server, Lifecycle::Running, events[0]).0, rest);
    } else {
        assert(events[0] != RunEvent::ChildExited && events[0] != RunEvent::Interrupted);
        assert(run_step(server, Lifecycle::Running, events[0]).0 == Lifecycle::Running);
        assert(rest[first - 1] == events[first]);
        assert forall|j: int| 0 <= j < first - 1 implies rest[j] != RunEvent::ChildExited && rest[j]
            != RunEvent::Interrupted by {
            assert(rest[j] == events[j + 1]);
        }
        lemma_first_event_decides(server, rest, first - 1);
    }
}

/// A failed launch leaves the server ready, and only a successful one makes
/// it run.
pub proof fn lemma_running_only_after_spawn(server: ServerView, state: Lifecycle, event: RunEvent)
    ensures
        run_step(server, state, event).0 == Lifecycle::Running ==> state == Lifecycle::Running || (state
            == Lifecycle::Ready && event == RunEvent::Spawned(true)),
        state == Lifecycle::Ready && event == RunEvent::Spawned(false) ==> run_step(server, state, event).0
            == Lifecycle::Ready,
{
}

} // verus!
