use crate::coordinator::RunSignal;
use crate::coordinator::RunSignalView;
use crate::error::PipelineError;
use crate::error::PipelineErrorView;
use vstd::prelude::*;

verus! {

/// What to do about a fault in a running pipeline.
#[derive(Clone, Copy, Debug, PartialEq, Eq, Structural)]
pub enum Verdict {
    /// Drop the item that the fault struck and go on with the others.
    Skip,
    /// End the run.
    Abort,
}

/// How far one pipeline run has come.
#[derive(Clone, Debug, PartialEq, Eq)]
pub enum Phase {
    Running,
    /// A cancellation was observed before any fault ended the run.
    Cancelled,
    /// A fault ended the run before any cancellation was observed.
    Failed(PipelineError),
}

/// The mathematical content of a [`Phase`].
pub enum PhaseView {
    Running,
    Cancelled,
    Failed(PipelineErrorView),
}

impl View for Phase {
    type V = PhaseView;

    open spec fn view(&self) -> PhaseView {
        match self {
            Phase::Running => PhaseView::Running,
            Phase::Cancelled => PhaseView::Cancelled,
            Phase::Failed(error) => PhaseView::Failed(error@),
        }
    }
}

/// One pipeline run as a mathematical value.
pub struct RunView {
    pub phase: PhaseView,
    /// How many items were dropped, counted up to the largest `u64`.
    pub skipped: u64,
}

impl RunView {
    /// A run that has just begun.
    pub open spec fn fresh() -> RunView {
        RunView { phase: PhaseView::Running, skipped: 0 }
    }

    /// Whether a stage may begin work on an item: only while the run is
    /// neither cancelled nor failed.
    pub open spec fn admits(self) -> bool {
        self.phase is Running
    }

    /// The run after a cancellation was observed.
    pub open spec fn cancel(self) -> RunView {
        if self.phase is Running {
            RunView { phase: PhaseView::Cancelled, skipped: self.skipped }
        } else {
            self
        }
    }

    /// The run after a fault was judged. A run that has ended keeps its
    /// ending.
    pub open spec fn record(self, verdict: Verdict, error: PipelineErrorView) -> RunView {
        if !(self.phase is Running) {
            self
        } else if verdict == Verdict::Abort {
            RunView { phase: PhaseView::Failed(error), skipped: self.skipped }
        } else if self.skipped == u64::MAX {
            self
        } else {
            RunView { phase: PhaseView::Running, skipped: (self.skipped + 1) as u64 }
        }
    }

    /// The last signal of the run.
    pub open spec fn ending(self) -> RunSignalView {
        match self.phase {
            PhaseView::Running => RunSignalView::Completed,
            PhaseView::Cancelled => RunSignalView::Stopped,
            PhaseView::Failed(error) => RunSignalView::Failed(error),
        }
    }
}

/// The record of one pipeline run: whether it may go on, and how it ends.
/// The stages ask it before they begin work on an item and tell it of each
/// fault.
#[derive(Debug)]
pub struct Run {
    phase: Phase,
    skipped: u64,
}

impl View for Run {
    type V = RunView;

    closed spec fn view(&self) -> RunView {
        RunView { phase: self.phase@, skipped: self.skipped }
    }
}

impl Run {
    /// The record of a run that has just begun.
    pub fn new() -> (run: Run)
        ensures
            run@ == RunView::fresh(),
    {
        Run { phase: Phase::Running, skipped: 0 }
    }

    /// Whether a stage may begin work on an item.
    pub fn may_begin(&self) -> (yes: bool)
        ensures
            yes == self@.admits(),
    {
        match self.phase {
            Phase::Running => true,
            _ => false,
        }
    }

    /// How many items were dropped so far.
    pub fn skipped(&self) -> (skipped: u64)
        ensures
            skipped == self@.skipped,
    {
        self.skipped
    }

    /// Notes that a cancellation was observed.
    pub fn cancel(&mut self)
        ensures
            final(self)@ == old(self)@.cancel(),
    {
        if self.may_begin() {
            self.phase = Phase::Cancelled;
        }
    }

    /// Notes a fault and what was decided about it.
    pub fn record(&mut self, verdict: Verdict, error: PipelineError)
        ensures
            final(self)@ == old(self)@.record(verdict, error@),
    {
        if self.may_begin() {
            match verdict {
                Verdict::Abort => {
                    self.phase = Phase::Failed(error);
                },
                Verdict::Skip => {
                    if self.skipped < u64::MAX {
                        self.skipped = self.skipped + 1;
                    }
                },
            }
        }
    }

    /// Ends the run and gives its last signal.
    pub fn finish(self) -> (signal: RunSignal)
        ensures
            signal@ == self@.ending(),
    {
        match self.phase {
            Phase::Running => RunSignal::Completed,
            Phase::Cancelled => RunSignal::Stopped,
            Phase::Failed(error) => RunSignal::Failed(error),
        }
    }
}

/// The last signal of a run is terminal, and it reports a failure exactly
/// when a fault ended the run.
pub proof fn law_ending_is_terminal(run: RunView)
    ensures
        run.ending().terminal(),
        run.ending() is Failed <==> run.phase is Failed,
        run.ending() is Stopped <==> run.phase is Cancelled,
{
}

/// Once a cancellation was observed or a fault ended the run, no stage is
/// admitted again, whatever is recorded afterwards, and the ending stays.
pub proof fn law_ended_run_stays_ended(run: RunView, verdict: Verdict, error: PipelineErrorView)
    requires
        !run.admits(),
    ensures
        run.cancel() == run,
        run.record(verdict, error) == run,
{
}

/// After a cancellation nothing is admitted, and after an abort nothing is
/// admitted and the run ends with the error that was recorded.
pub proof fn law_cancel_and_abort_close_the_run(run: RunView, error: PipelineErrorView)
    ensures
        !run.cancel().admits(),
        !run.record(Verdict::Abort, error).admits(),
        run.admits() ==> run.record(Verdict::Abort, error).ending() == RunSignalView::Failed(error),
        run.admits() ==> run.cancel().ending() == RunSignalView::Stopped,
        run.admits() ==> run.record(Verdict::Skip, error).admits(),
{
}

} // verus!
