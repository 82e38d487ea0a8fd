//! A whole run: the configuration is checked, the input is acquired, and the
//! files under the root directory are aggregated, in that order.
//!
//! Like its two parts the run decides and does not act: the caller carries out
//! the request of the current stage and reports back.

use crate::acquire::{first_phase, next_phase, AcquireEvent, AcquireEventView, Acquisition,
    AcquisitionView, Strategy};
use crate::aggregate::{confirmation_text, Aggregator, AggregatorView, Phase, PhaseView, WalkEvent,
    WalkEventView};
use crate::config::{Selection, SelectionConfig};
use crate::error::{Failure, FailureView};
use vstd::prelude::*;

verus! {

/// Where a run stands.
#[derive(Debug, Clone, PartialEq, Eq)]
pub enum Run {
    /// The configuration was refused; nothing was asked of the caller.
    Rejected { failure: Failure },
    /// The input is being acquired; `acquisition` holds the request. The
    /// configuration and the output path wait for the root directory.
    Acquiring { acquisition: Acquisition, config: SelectionConfig, output: String },
    /// The files are being aggregated; the phase of `machine` holds the
    /// request.
    Aggregating { machine: Aggregator },
}

/// What the caller reports: an event for the part of the run that is at work.
#[derive(Debug, Clone, PartialEq, Eq)]
pub enum RunEvent {
    Acquire(AcquireEvent),
    Walk(WalkEvent),
}

/// A `Run` as mathematics.
pub enum RunView {
    Rejected { failure: FailureView },
    Acquiring { acquisition: AcquisitionView, rule: Selection, output: Seq<char> },
    Aggregating { machine: AggregatorView },
}

/// A `RunEvent` as mathematics.
pub enum RunEventView {
    Acquire(AcquireEventView),
    Walk(WalkEventView),
}

impl View for Run {
    type V = RunView;

    open spec fn view(&self) -> RunView {
        match self {
            Run::Rejected { failure } => RunView::Rejected { failure: failure@ },
            Run::Acquiring { acquisition, config, output } => RunView::Acquiring {
                acquisition: acquisition@,
                rule: config@,
                output: output@,
            },
            Run::Aggregating { machine } => RunView::Aggregating { machine: machine@ },
        }
    }
}

impl View for RunEvent {
    type V = RunEventView;

    open spec fn view(&self) -> RunEventView {
        match self {
            RunEvent::Acquire(event) => RunEventView::Acquire(event@),
            RunEvent::Walk(event) => RunEventView::Walk(event@),
        }
    }
}

/// The stage that acquisition in phase `acquisition` puts the run in: once the
/// root directory is there, aggregation starts on it, and asks for the output
/// file.
pub open spec fn acquiring(acquisition: AcquisitionView, rule: Selection, output: Seq<char>) -> RunView {
    match acquisition {
        AcquisitionView::Ready { root } => RunView::Aggregating {
            machine: AggregatorView { rule, root, output, phase: PhaseView::OpenOutput },
        },
        _ => RunView::Acquiring { acquisition, rule, output },
    }
}

/// The first stage of a run: a configuration with a malformed pattern ends the
/// run before it has begun; any other starts acquisition.
pub open spec fn first_stage(input: Seq<char>, output: Seq<char>, rule: Selection, stage: RunView) -> bool {
    if rule.well_formed() {
        stage == acquiring(first_phase(input), rule, output)
    } else {
        stage matches RunView::Rejected { failure } && rule.rejected_for(failure)
    }
}

/// The stage that follows `stage` on `event`. An event for the part that is
/// not at work changes nothing.
pub open spec fn next_stage(stage: RunView, event: RunEventView) -> RunView {
    match (stage, event) {
        (
            RunView::Acquiring { acquisition, rule, output },
            RunEventView::Acquire(event),
        ) => acquiring(next_phase(acquisition, event), rule, output),
        (RunView::Aggregating { machine }, RunEventView::Walk(event)) => RunView::Aggregating {
            machine: machine.next(event),
        },
        _ => stage,
    }
}

/// How a run has ended, if it has: with the message that confirms the output
/// file, or with a failure.
pub open spec fn outcome_of(stage: RunView) -> Option<Result<Seq<char>, FailureView>> {
    match stage {
        RunView::Rejected { failure } => Some(Err(failure)),
        RunView::Acquiring { acquisition: AcquisitionView::Failed { failure }, .. } => Some(
            Err(failure),
        ),
        RunView::Aggregating { machine } => match machine.phase {
            PhaseView::Finished => Some(Ok(confirmation_text(machine.output))),
            PhaseView::Failed { failure } => Some(Err(failure)),
            _ => None,
        },
        _ => None,
    }
}

/// The stage asks the caller to create the output file.
pub open spec fn asks_for_output(stage: RunView) -> bool {
    stage matches RunView::Aggregating { machine } && machine.phase is OpenOutput
}

impl Run {
    /// Starts a run that reads from `input` and writes to `output` the files
    /// that `config` takes.
    pub fn start(input: &str, output: &str, config: SelectionConfig) -> (stage: Run)
        ensures
            first_stage(input@, output@, config@, stage@),
    {
        match config.validate() {
            Ok(()) => Run::enter(Acquisition::start(input), config, output.to_string()),
            Err(failure) => Run::Rejected { failure },
        }
    }

    /// The stage for an acquisition in the given phase.
    fn enter(acquisition: Acquisition, config: SelectionConfig, output: String) -> (stage: Run)
        ensures
            stage@ == acquiring(acquisition@, config@, output@),
    {
        match acquisition {
            Acquisition::Ready { root } => Run::Aggregating {
                machine: Aggregator::new(config, root.as_str(), output.as_str()),
            },
            other => Run::Acquiring { acquisition: other, config, output },
        }
    }

    /// Moves on with what the caller reports.
    pub fn advance(self, event: RunEvent) -> (next: Run)
        ensures
            next@ == next_stage(self@, event@),
    {
        match self {
            Run::Acquiring { acquisition, config, output } => match event {
                RunEvent::Acquire(event) => Run::enter(acquisition.advance(event), config, output),
                RunEvent::Walk(_) => Run::Acquiring { acquisition, config, output },
            },
            Run::Aggregating { machine } => match event {
                RunEvent::Walk(event) => Run::Aggregating { machine: machine.advance(event) },
                RunEvent::Acquire(_) => Run::Aggregating { machine },
            },
            Run::Rejected { failure } => Run::Rejected { failure },
        }
    }

    /// How the run has ended: `None` while there is a request to carry out,
    /// then the confirmation message or the failure.
    pub fn outcome(&self) -> (r: Option<Result<String, Failure>>)
        ensures
            r is Some <==> outcome_of(self@) is Some,
            r matches Some(Ok(message)) ==> outcome_of(self@) == Some(
                Ok::<Seq<char>, FailureView>(message@),
            ),
            r matches Some(Err(failure)) ==> outcome_of(self@) == Some(
                Err::<Seq<char>, FailureView>(failure@),
            ),
    {
        match self {
            Run::Rejected { failure } => Some(Err(failure.clone())),
            Run::Acquiring { acquisition, .. } => match acquisition {
                Acquisition::Failed { failure } => Some(Err(failure.clone())),
                _ => None,
            },
            Run::Aggregating { machine } => match machine.phase() {
                Phase::Finished => Some(Ok(machine.confirmation())),
                Phase::Failed { failure } => Some(Err(failure.clone())),
                _ => None,
            },
        }
    }
}

/// The stage after a sequence of events.
pub open spec fn stage_after(stage: RunView, events: Seq<RunEventView>) -> RunView
    decreases events.len(),
{
    if events.len() == 0 {
        stage
    } else {
        next_stage(stage_after(stage, events.drop_last()), events.last())
    }
}

/// The stage asked for the output file at some point of the sequence of
/// events, the start and the end among them.
pub open spec fn ever_asked_for_output(stage: RunView, events: Seq<RunEventView>) -> bool {
    exists|n: int| 0 <= n <= events.len() && asks_for_output(#[trigger] stage_after(stage, events.take(n)))
}

/// A run that has ended stays as it is, whatever is reported to it.
pub proof fn lemma_ended_run_stays(stage: RunView, event: RunEventView)
    requires
        outcome_of(stage) is Some,
    ensures
        next_stage(stage, event) == stage,
{
}

/// A fetch that succeeds leaves the run where a local folder at the
/// destination would have put it: aggregation starts from the root directory
/// alone, whichever strategy brought the files there.
pub proof fn lemma_fetched_run_is_a_local_run(
    strategy: Strategy,
    url: Seq<char>,
    dest: Seq<char>,
    depth: u32,
    rule: Selection,
    output: Seq<char>,
)
    ensures
        next_stage(
            RunView::Acquiring {
                acquisition: AcquisitionView::Fetch { strategy, url, dest, depth },
                rule,
                output,
            },
            RunEventView::Acquire(AcquireEventView::Fetched),
        ) == next_stage(
            RunView::Acquiring { acquisition: AcquisitionView::Probe { path: dest }, rule, output },
            RunEventView::Acquire(AcquireEventView::Found),
        ),
{
}

/// A run that is not aggregating after all of `events` was not aggregating
/// after any part of them: there is no way back from aggregation.
pub proof fn lemma_not_aggregating_all_along(stage: RunView, events: Seq<RunEventView>, n: int)
    requires
        !(stage_after(stage, events) is Aggregating),
        0 <= n <= events.len(),
    ensures
        !(stage_after(stage, events.take(n)) is Aggregating),
    decreases events.len(),
{
    if n == events.len() {
        assert(events.take(n) =~= events);
    } else {
        let front = events.drop_last();
        assert(!(stage_after(stage, front) is Aggregating));
        assert(front.take(n) =~= events.take(n));
        lemma_not_aggregating_all_along(stage, front, n);
    }
}

/// A run that was refused, is still acquiring its input or has failed to
/// acquire it has at no time asked for the output file: the file is as it was
/// before the run.
pub proof fn lemma_no_output_before_root(stage: RunView, events: Seq<RunEventView>)
    requires
        !(stage_after(stage, events) is Aggregating),
    ensures
        !ever_asked_for_output(stage, events),
{
    assert forall|n: int| 0 <= n <= events.len() implies !asks_for_output(
        #[trigger] stage_after(stage, events.take(n)),
    ) by {
        lemma_not_aggregating_all_along(stage, events, n);
    }
}

} // verus!
