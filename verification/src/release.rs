//! The release of a slot: the checks that guard it and the three stages that
//! bring the slot back to the free branch, one decision at a time. Whoever
//! drives the release runs each stage that is asked for and reports how it
//! went; nothing here touches the slot.

use crate::error::SlotError;
use crate::error::SlotErrorView;
use crate::git::free_branch;
use crate::git::probe_view;
use crate::git::GitStatus;
use crate::git::StatusView;
use crate::text::texts_of;
use vstd::prelude::*;
use vstd::string::StringExecFns;

verus! {

/// The stages of a release, in the order in which they run.
#[derive(Clone, Copy, Debug, PartialEq, Eq, Structural)]
pub enum Stage {
    /// Synchronize the remote references.
    Fetch,
    /// Switch to the free branch.
    Checkout,
    /// Bring the free branch up to date with its upstream.
    Pull,
}

impl Stage {
    /// The stage that follows this one, if any.
    pub open spec fn following(self) -> Option<Stage> {
        match self {
            Stage::Fetch => Some(Stage::Checkout),
            Stage::Checkout => Some(Stage::Pull),
            Stage::Pull => None,
        }
    }

    /// The version-control subcommand of the stage.
    pub open spec fn verb(self) -> Seq<char> {
        match self {
            Stage::Fetch => "fetch"@,
            Stage::Checkout => "checkout"@,
            Stage::Pull => "pull"@,
        }
    }

    /// The subcommand and its operands.
    pub open spec fn operation(self) -> Seq<Seq<char>> {
        match self {
            Stage::Fetch => seq!["fetch"@, "origin"@],
            Stage::Checkout => seq!["checkout"@, free_branch()],
            Stage::Pull => seq!["pull"@],
        }
    }

    /// The arguments of the stage's command for the directory `path`.
    pub open spec fn command(self, path: Seq<char>) -> Seq<Seq<char>> {
        seq!["-C"@, path] + self.operation()
    }

    /// The message of a failure of this stage, which ends with the
    /// diagnostic text that came with it.
    pub open spec fn failure_text(self, detail: Seq<char>) -> Seq<char> {
        "git "@ + self.verb() + " failed: "@ + detail
    }

    /// The stage to run after this one has succeeded.
    pub fn next(self) -> (next: Option<Stage>)
        ensures
            next == self.following(),
    {
        match self {
            Stage::Fetch => Some(Stage::Checkout),
            Stage::Checkout => Some(Stage::Pull),
            Stage::Pull => None,
        }
    }

    /// The arguments with which version control runs the stage in the
    /// directory `path`.
    pub fn arguments(self, path: &str) -> (arguments: Vec<String>)
        ensures
            texts_of(arguments@) == self.command(path@),
    {
        let mut arguments: Vec<String> = Vec::new();
        arguments.push("-C".to_owned());
        arguments.push(path.to_owned());
        match self {
            Stage::Fetch => {
                arguments.push("fetch".to_owned());
                arguments.push("origin".to_owned());
            },
            Stage::Checkout => {
                arguments.push("checkout".to_owned());
                arguments.push("develop".to_owned());
            },
            Stage::Pull => {
                arguments.push("pull".to_owned());
            },
        }
        assert(texts_of(arguments@) =~= self.command(path@));
        arguments
    }

    /// The message that reports a failure of this stage.
    pub fn failure_message(self, detail: &str) -> (message: String)
        ensures
            message@ == self.failure_text(detail@),
    {
        let mut message = "git ".to_owned();
        match self {
            Stage::Fetch => {
                message.append("fetch");
            },
            Stage::Checkout => {
                message.append("checkout");
            },
            Stage::Pull => {
                message.append("pull");
            },
        }
        message.append(" failed: ");
        message.append(detail);
        message
    }
}

/// How a stage went: it succeeded, or it failed with a diagnostic text (that
/// of the tool, or of the attempt to start it).
#[derive(Clone, Debug, PartialEq, Eq)]
pub enum StageResult {
    Succeeded,
    Failed(String),
}

/// A decision on the pipeline of the three stages.
#[derive(Debug, PartialEq, Eq)]
pub enum Pipeline {
    /// The stage to run now.
    Run(Stage),
    /// The end: all three stages succeeded, or one failed with this message.
    Done(Result<(), String>),
}

/// The content of a [`Pipeline`].
pub enum PipelineView {
    Run(Stage),
    Succeeded,
    Failed(Seq<char>),
}

impl View for Pipeline {
    type V = PipelineView;

    open spec fn view(&self) -> PipelineView {
        match self {
            Pipeline::Run(stage) => PipelineView::Run(*stage),
            Pipeline::Done(Ok(_)) => PipelineView::Succeeded,
            Pipeline::Done(Err(message)) => PipelineView::Failed(message@),
        }
    }
}

/// The content of the latest stage and its result.
pub open spec fn progress_view(last: Option<(Stage, StageResult)>) -> Option<
    (Stage, Option<Seq<char>>),
> {
    match last {
        None => None,
        Some((stage, StageResult::Succeeded)) => Some((stage, None)),
        Some((stage, StageResult::Failed(detail))) => Some((stage, Some(detail@))),
    }
}

/// The decision on the pipeline after `last`, a stage with the diagnostic
/// text of its failure, if it failed. It starts with the first stage, goes
/// on to the following stage after a success, ends in success after the
/// last one, and ends with the stage's message at the first failure, so that
/// no later stage runs.
pub open spec fn pipeline_after(last: Option<(Stage, Option<Seq<char>>)>) -> PipelineView {
    match last {
        None => PipelineView::Run(Stage::Fetch),
        Some((stage, Some(detail))) => PipelineView::Failed(stage.failure_text(detail)),
        Some((stage, None)) => match stage.following() {
            Some(next) => PipelineView::Run(next),
            None => PipelineView::Succeeded,
        },
    }
}

/// Decides how the pipeline that brings a slot to the free branch goes on:
/// `last` is `None` before the first stage, and afterwards the stage that
/// has just run with its result.
pub fn checkout_develop(last: Option<(Stage, StageResult)>) -> (step: Pipeline)
    ensures
        step@ == pipeline_after(progress_view(last)),
{
    match last {
        None => Pipeline::Run(Stage::Fetch),
        Some((stage, StageResult::Failed(detail))) => Pipeline::Done(
            Err(stage.failure_message(detail.as_str())),
        ),
        Some((stage, StageResult::Succeeded)) => match stage.next() {
            Some(next) => Pipeline::Run(next),
            None => Pipeline::Done(Ok(())),
        },
    }
}

/// What a release did when it ended well.
#[derive(Clone, Copy, Debug, PartialEq, Eq, Structural)]
pub enum Released {
    /// The slot was free already; nothing was run.
    NoOp,
    /// All three stages ran and succeeded.
    Transitioned,
}

/// What the driver of a release reports back.
#[derive(Clone, Debug, PartialEq, Eq)]
pub enum ReleaseEvent {
    /// The slot was probed, with this result.
    Probed(Option<GitStatus>),
    /// This stage was run, with this result.
    Ran(Stage, StageResult),
}

/// The content of a [`ReleaseEvent`].
pub enum ReleaseEventView {
    Probed(Option<StatusView>),
    Ran(Stage, Option<Seq<char>>),
}

impl View for ReleaseEvent {
    type V = ReleaseEventView;

    open spec fn view(&self) -> ReleaseEventView {
        match self {
            ReleaseEvent::Probed(probe) => ReleaseEventView::Probed(probe_view(*probe)),
            ReleaseEvent::Ran(stage, StageResult::Succeeded) => ReleaseEventView::Ran(
                *stage,
                None,
            ),
            ReleaseEvent::Ran(stage, StageResult::Failed(detail)) => ReleaseEventView::Ran(
                *stage,
                Some(detail@),
            ),
        }
    }
}

/// What the driver of a release is to do next.
#[derive(Debug, PartialEq, Eq)]
pub enum ReleaseStep {
    /// Run this stage, then report its result.
    Run(Stage),
    /// Stop: the release has ended in this way.
    Done(Result<Released, SlotError>),
}

/// The content of a [`ReleaseStep`].
pub enum ReleaseStepView {
    Run(Stage),
    Done(Result<Released, SlotErrorView>),
}

impl View for ReleaseStep {
    type V = ReleaseStepView;

    open spec fn view(&self) -> ReleaseStepView {
        match self {
            ReleaseStep::Run(stage) => ReleaseStepView::Run(*stage),
            ReleaseStep::Done(Ok(released)) => ReleaseStepView::Done(Ok(*released)),
            ReleaseStep::Done(Err(error)) => ReleaseStepView::Done(Err(error@)),
        }
    }
}

/// The decision that follows an event of a release.
///
/// After the probe: a slot that could not be reached is not touched; one
/// with outstanding changes is refused, so that no uncommitted work is lost;
/// one that is clean and on the free branch is left as it is; any other
/// starts the pipeline. After a stage: the pipeline goes on as
/// [`pipeline_after`] says, and its end is the end of the release.
pub open spec fn release_after(event: ReleaseEventView) -> ReleaseStepView {
    match event {
        ReleaseEventView::Probed(None) => ReleaseStepView::Done(Err(SlotErrorView::Unreachable)),
        ReleaseEventView::Probed(Some(status)) => if !status.is_clean() {
            ReleaseStepView::Done(Err(SlotErrorView::PreconditionFailed))
        } else if status.branch == free_branch() {
            ReleaseStepView::Done(Ok(Released::NoOp))
        } else {
            ReleaseStepView::Run(Stage::Fetch)
        },
        ReleaseEventView::Ran(stage, result) => match pipeline_after(Some((stage, result))) {
            PipelineView::Run(next) => ReleaseStepView::Run(next),
            PipelineView::Succeeded => ReleaseStepView::Done(Ok(Released::Transitioned)),
            PipelineView::Failed(message) => ReleaseStepView::Done(
                Err(SlotErrorView::PipelineStageFailed(stage, message)),
            ),
        },
    }
}

/// Decides what a release does after `event`.
pub fn release_step(event: ReleaseEvent) -> (step: ReleaseStep)
    ensures
        step@ == release_after(event@),
{
    match event {
        ReleaseEvent::Probed(None) => ReleaseStep::Done(Err(SlotError::Unreachable)),
        ReleaseEvent::Probed(Some(status)) => {
            if !status.is_clean() {
                ReleaseStep::Done(Err(SlotError::PreconditionFailed))
            } else if status.is_available() {
                ReleaseStep::Done(Ok(Released::NoOp))
            } else {
                match checkout_develop(None) {
                    Pipeline::Run(first) => ReleaseStep::Run(first),
                    Pipeline::Done(_) => ReleaseStep::Done(Ok(Released::Transitioned)),
                }
            }
        },
        ReleaseEvent::Ran(stage, result) => match checkout_develop(Some((stage, result))) {
            Pipeline::Run(next) => ReleaseStep::Run(next),
            Pipeline::Done(Ok(_)) => ReleaseStep::Done(Ok(Released::Transitioned)),
            Pipeline::Done(Err(message)) => ReleaseStep::Done(
                Err(SlotError::PipelineStageFailed(stage, message)),
            ),
        },
    }
}

/// Releasing a slot that is available already ends at once as a no-op: no
/// stage is asked for. As nothing is run the slot stays available, so that
/// releasing it again ends in the same way.
pub proof fn lemma_release_of_available_is_noop(status: StatusView)
    requires
        status.is_available(),
    ensures
        release_after(ReleaseEventView::Probed(Some(status))) == ReleaseStepView::Done(
            Ok(Released::NoOp),
        ),
{
}

/// Releasing a slot with outstanding changes is refused at once: no stage is
/// asked for, whatever branch the slot is on.
pub proof fn lemma_release_of_dirty_is_refused(status: StatusView)
    requires
        !status.is_clean(),
    ensures
        release_after(ReleaseEventView::Probed(Some(status))) == ReleaseStepView::Done(
            Err(SlotErrorView::PreconditionFailed),
        ),
{
}

/// A stage is asked for in two situations only: the first stage after the
/// probe of a clean slot that is not on the free branch, and the following
/// stage after a stage that succeeded.
pub proof fn lemma_stage_follows_success(event: ReleaseEventView, stage: Stage)
    requires
        release_after(event) == ReleaseStepView::Run(stage),
    ensures
        match event {
            ReleaseEventView::Probed(probe) => {
                &&& stage == Stage::Fetch
                &&& probe is Some
                &&& probe->0.is_clean()
                &&& !probe->0.is_available()
            },
            ReleaseEventView::Ran(previous, result) => {
                &&& result is None
                &&& previous.following() == Some(stage)
            },
        },
{
}

/// A release ends as transitioned only after the last stage has succeeded.
pub proof fn lemma_transitioned_after_last_stage(event: ReleaseEventView)
    requires
        release_after(event) == ReleaseStepView::Done(Ok(Released::Transitioned)),
    ensures
        event == ReleaseEventView::Ran(Stage::Pull, None),
{
}

/// Entering a slot needs a slot that can be reached.
pub fn enter_check(probe: &Option<GitStatus>) -> (checked: Result<(), SlotError>)
    ensures
        match checked {
            Ok(_) => probe is Some,
            Err(error) => probe is None && error@ == SlotErrorView::Unreachable,
        },
{
    match probe {
        Some(_) => Ok(()),
        None => Err(SlotError::Unreachable),
    }
}

} // verus!
