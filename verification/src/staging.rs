//! Staging of plugin files into the plugins directory of a workspace.
//!
//! The caller inspects each candidate and performs the copies; which
//! candidates are copied, and where to, is decided here.

use vstd::prelude::*;
use vstd::string::*;
use crate::paths::{is_absolute_path, is_rooted, join_path, joined};
use crate::text::text_of;

verus! {

/// What was found at the path of a plugin candidate.
#[derive(Clone, Debug, PartialEq, Eq)]
pub struct PluginProbe {
    /// The path as it was given.
    pub path: String,
    /// Whether anything is there.
    pub found: bool,
    /// Whether it is a regular file.
    pub is_file: bool,
    /// Whether the path itself is a symbolic link.
    pub is_symlink: bool,
    /// The last component of the path, where it has one.
    pub file_name: Option<String>,
}

/// Why a file cannot be copied into a folder.
#[derive(Clone, Copy, Debug, PartialEq, Eq, Structural)]
pub enum CopyError {
    /// The destination folder is not an existing directory.
    NoDestination,
    /// The source path has no file name.
    NoFileName,
}

/// One file copy: the source, and the destination that an existing file of
/// the same name gives way to.
#[derive(Clone, Debug, PartialEq, Eq)]
pub struct CopyOrder {
    pub from: String,
    pub to: String,
}

/// [`CopyOrder`] over plain text.
pub struct CopyOrderView {
    pub from: Seq<char>,
    pub to: Seq<char>,
}

impl View for CopyOrder {
    type V = CopyOrderView;

    open spec fn view(&self) -> CopyOrderView {
        CopyOrderView { from: self.from@, to: self.to@ }
    }
}

/// What happens to one plugin candidate.
#[derive(Clone, Debug, PartialEq, Eq)]
pub enum StagingStep {
    /// It is copied.
    Copy(CopyOrder),
    /// It qualifies, but the copy cannot be set up.
    Refused(CopyError),
    /// It is there, but is no regular file given by an absolute path, or is
    /// a symbolic link: it is passed over.
    Rejected,
    /// Nothing is there. Staging ends here: the candidates after it are not
    /// looked at.
    Missing,
}

/// [`StagingStep`] over plain text.
pub enum StagingStepView {
    Copy(CopyOrderView),
    Refused(CopyError),
    Rejected,
    Missing,
}

impl View for StagingStep {
    type V = StagingStepView;

    open spec fn view(&self) -> StagingStepView {
        match self {
            StagingStep::Copy(order) => StagingStepView::Copy(order@),
            StagingStep::Refused(e) => StagingStepView::Refused(*e),
            StagingStep::Rejected => StagingStepView::Rejected,
            StagingStep::Missing => StagingStepView::Missing,
        }
    }
}

/// The steps of a plan over plain text.
pub open spec fn plan_view(steps: Seq<StagingStep>) -> Seq<StagingStepView> {
    Seq::new(steps.len(), |i: int| steps[i]@)
}

impl PluginProbe {
    /// A candidate qualifies for copying when it is an existing regular
    /// file, given by an absolute path, and no symbolic link.
    pub open spec fn eligible(&self) -> bool {
        self.found && self.is_file && is_rooted(self.path@) && !self.is_symlink
    }

    /// The file name over plain text.
    pub open spec fn name(&self) -> Option<Seq<char>> {
        match self.file_name {
            Some(n) => Some(n@),
            None => None,
        }
    }
}

/// The copy of `file_path` into `folder` under its own file name.
pub open spec fn copy_order_of(
    file_path: Seq<char>,
    file_name: Option<Seq<char>>,
    folder: Seq<char>,
    folder_is_dir: bool,
) -> Result<CopyOrderView, CopyError> {
    if !folder_is_dir {
        Err(CopyError::NoDestination)
    } else {
        match file_name {
            None => Err(CopyError::NoFileName),
            Some(n) => Ok(CopyOrderView { from: file_path, to: joined(folder, n) }),
        }
    }
}

/// What happens to one candidate.
pub open spec fn step_of(probe: &PluginProbe, folder: Seq<char>, folder_is_dir: bool) -> StagingStepView {
    if !probe.found {
        StagingStepView::Missing
    } else if !probe.eligible() {
        StagingStepView::Rejected
    } else {
        match copy_order_of(probe.path@, probe.name(), folder, folder_is_dir) {
            Ok(order) => StagingStepView::Copy(order),
            Err(e) => StagingStepView::Refused(e),
        }
    }
}

/// The plan for a list of candidates: one step for each, in order, up to and
/// including the first that is missing.
pub open spec fn staging_plan(probes: Seq<PluginProbe>, folder: Seq<char>, folder_is_dir: bool) -> Seq<
    StagingStepView,
>
    decreases probes.len(),
{
    if probes.len() == 0 {
        Seq::empty()
    } else if !probes[0].found {
        seq![StagingStepView::Missing]
    } else {
        seq![step_of(&probes[0], folder, folder_is_dir)] + staging_plan(probes.skip(1), folder, folder_is_dir)
    }
}

/// Sets up the copy of one file into `folder_path`, keeping its file name.
pub fn copy_file_to_folder(
    file_path: &str,
    file_name: Option<&str>,
    folder_path: &str,
    folder_is_dir: bool,
) -> (r: Result<CopyOrder, CopyError>)
    ensures
        match r {
            Ok(order) => copy_order_of(file_path@, text_of(file_name), folder_path@, folder_is_dir)
                == Ok::<CopyOrderView, CopyError>(order@),
            Err(e) => copy_order_of(file_path@, text_of(file_name), folder_path@, folder_is_dir)
                == Err::<CopyOrderView, CopyError>(e),
        },
{
    if !folder_is_dir {
        return Err(CopyError::NoDestination);
    }
    match file_name {
        None => Err(CopyError::NoFileName),
        Some(name) => Ok(CopyOrder { from: String::from_str(file_path), to: join_path(folder_path, name) }),
    }
}

/// Decides what happens to one candidate.
pub fn stage_plugin(probe: &PluginProbe, plugins_folder: &str, folder_is_dir: bool) -> (r: StagingStep)
    ensures
        r@ == step_of(probe, plugins_folder@, folder_is_dir),
{
    if !probe.found {
        return StagingStep::Missing;
    }
    if !(probe.is_file && is_absolute_path(probe.path.as_str()) && !probe.is_symlink) {
        return StagingStep::Rejected;
    }
    let name: Option<&str> = match &probe.file_name {
        Some(n) => Some(n.as_str()),
        None => None,
    };
    match copy_file_to_folder(probe.path.as_str(), name, plugins_folder, folder_is_dir) {
        Ok(order) => StagingStep::Copy(order),
        Err(e) => StagingStep::Refused(e),
    }
}

/// Plans the staging of `plugins` into `plugins_folder`.
pub fn copy_plugins(plugins: &Vec<PluginProbe>, plugins_folder: &str, folder_is_dir: bool) -> (r: Vec<
    StagingStep,
>)
    ensures
        plan_view(r@) == staging_plan(plugins@, plugins_folder@, folder_is_dir),
{
    let mut steps: Vec<StagingStep> = Vec::new();
    let mut i: usize = 0;
    assert(plugins@.skip(0) =~= plugins@);
    assert(plan_view(steps@) =~= Seq::<StagingStepView>::empty());
    while i < plugins.len()
        invariant
            i <= plugins@.len(),
            plan_view(steps@) + staging_plan(plugins@.skip(i as int), plugins_folder@, folder_is_dir)
                == staging_plan(plugins@, plugins_folder@, folder_is_dir),
        decreases plugins@.len() - i,
    {
        let ghost before = plan_view(steps@);
        let ghost rest = plugins@.skip(i as int);
        assert(rest[0] == plugins@[i as int]);
        assert(rest.skip(1) =~= plugins@.skip(i + 1));
        let step = stage_plugin(&plugins[i], plugins_folder, folder_is_dir);
        let stop = !plugins[i].found;
        steps.push(step);
        assert(plan_view(steps@) =~= before + seq![step@]);
        if stop {
            assert(staging_plan(rest, plugins_folder@, folder_is_dir) =~= seq![step@]);
            return steps;
        }
        let ghost tail = staging_plan(rest.skip(1), plugins_folder@, folder_is_dir);
        assert(before + seq![step@] + tail =~= before + (seq![step@] + tail));
        i += 1;
    }
    assert(plan_view(steps@) + Seq::<StagingStepView>::empty() =~= plan_view(steps@));
    steps
}

/// The shape of a plan: step `k` is the step of candidate `k`; every
/// candidate before the last step was found; and a plan shorter than the list
/// ends at a missing candidate.
pub proof fn lemma_plan_shape(probes: Seq<PluginProbe>, folder: Seq<char>, folder_is_dir: bool)
    ensures
        staging_plan(probes, folder, folder_is_dir).len() <= probes.len(),
        forall|k: int|
            0 <= k < staging_plan(probes, folder, folder_is_dir).len() ==> #[trigger] staging_plan(
                probes,
                folder,
                folder_is_dir,
            )[k] == step_of(&probes[k], folder, folder_is_dir),
        forall|k: int|
            0 <= k < staging_plan(probes, folder, folder_is_dir).len() - 1 ==> (#[trigger] probes[k]).found,
        staging_plan(probes, folder, folder_is_dir).len() < probes.len() ==> !probes[staging_plan(
            probes,
            folder,
            folder_is_dir,
        ).len() - 1].found,
        staging_plan(probes, folder, folder_is_dir).len() < probes.len() ==> staging_plan(
            probes,
            folder,
            folder_is_dir,
        ).len() >= 1,
    decreases probes.len(),
{
    if probes.len() > 0 && probes[0].found {
        let rest = probes.skip(1);
        lemma_plan_shape(rest, folder, folder_is_dir);
        let plan = staging_plan(probes, folder, folder_is_dir);
        let tail = staging_plan(rest, folder, folder_is_dir);
        assert(plan.len() == tail.len() + 1);
        assert forall|k: int| 0 <= k < plan.len() implies #[trigger] plan[k] == step_of(
            &probes[k],
            folder,
            folder_is_dir,
        ) by {
            if k > 0 {
                assert(plan[k] == tail[k - 1]);
                assert(rest[k - 1] == probes[k]);
            }
        }
        assert forall|k: int| 0 <= k < plan.len() - 1 implies (#[trigger] probes[k]).found by {
            if k > 0 {
                assert(rest[k - 1] == probes[k]);
            }
        }
        if plan.len() < probes.len() {
            assert(rest[tail.len() - 1] == probes[plan.len() - 1]);
        }
    }
}

/// Staging stops at the first missing candidate: whatever comes after a
/// missing candidate has no step, so it is never copied.
pub proof fn lemma_nothing_after_missing(
    probes: Seq<PluginProbe>,
    folder: Seq<char>,
    folder_is_dir: bool,
    missing: int,
)
    requires
        0 <= missing < probes.len(),
        !probes[missing].found,
    ensures
        staging_plan(probes, folder, folder_is_dir).len() <= missing + 1,
        forall|k: int|
            0 <= k < staging_plan(probes, folder, folder_is_dir).len() && k >= missing ==> !(
            #[trigger] staging_plan(probes, folder, folder_is_dir)[k] is Copy),
{
    lemma_plan_shape(probes, folder, folder_is_dir);
    let plan = staging_plan(probes, folder, folder_is_dir);
    if plan.len() > missing + 1 {
        assert(probes[missing].found);
    }
}

/// Only a candidate that is an existing regular file, given by an absolute
/// path and no symbolic link, is ever copied, and it is copied from its own
/// path to its own name under the folder.
pub proof fn lemma_copied_is_eligible(probes: Seq<PluginProbe>, folder: Seq<char>, folder_is_dir: bool, k: int)
    requires
        0 <= k < staging_plan(probes, folder, folder_is_dir).len(),
        staging_plan(probes, folder, folder_is_dir)[k] is Copy,
    ensures
        k < probes.len(),
        probes[k].eligible(),
        folder_is_dir,
        probes[k].name() is Some,
        staging_plan(probes, folder, folder_is_dir)[k]->Copy_0 == (CopyOrderView {
            from: probes[k].path@,
            to: joined(folder, probes[k].name()->0),
        }),
{
    lemma_plan_shape(probes, folder, folder_is_dir);
}

} // verus!
