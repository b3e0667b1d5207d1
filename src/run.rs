use vstd::prelude::*;

use crate::decision::Decision;
use crate::reply::BouncerError;
use crate::stats::{BouncerStats, WaitTime};

verus! {

/// Where one run of the retry loop stands.
#[derive(Clone, Copy, Debug, PartialEq, Eq, Structural)]
pub enum Phase {
    /// Asking the coordinator.
    Deciding,
    /// Allowed: the guarded action has been run once.
    Finished,
    /// Stopped on an error: the guarded action was never run.
    Failed,
}

/// What the loop's driver does after a decision.
#[derive(Clone, Debug, PartialEq, Eq)]
pub enum Step {
    /// Sleep for this long, then ask again.
    Sleep(WaitTime),
    /// Run the guarded action once, then return these stats.
    Execute(BouncerStats),
    /// Return this error without running the action.
    Stop(BouncerError),
}

/// The step that a decision calls for.
pub open spec fn spec_step(d: Decision) -> Step {
    match d {
        Decision::Allowed(s) => Step::Execute(s),
        Decision::Wait(s) => Step::Sleep(s.wait),
        Decision::Errored(e) => Step::Stop(e),
    }
}

/// The phase after a decision taken while deciding.
pub open spec fn spec_phase_after(d: Decision) -> Phase {
    match d {
        Decision::Allowed(_) => Phase::Finished,
        Decision::Wait(_) => Phase::Deciding,
        Decision::Errored(_) => Phase::Failed,
    }
}

/// One run of the retry loop: the phase, and how often the guarded action
/// has been run.
#[derive(Clone, Copy, Debug, PartialEq, Eq, Structural)]
pub struct RunState {
    pub phase: Phase,
    pub executed: u64,
}

/// Feeds decisions to a run in order; those that come after the run has
/// ended change nothing.
pub open spec fn spec_run(st: RunState, ds: Seq<Decision>) -> RunState
    decreases ds.len(),
{
    if ds.len() == 0 || st.phase != Phase::Deciding {
        st
    } else {
        let next = RunState {
            phase: spec_phase_after(ds[0]),
            executed: (if ds[0] is Allowed {
                st.executed + 1
            } else {
                st.executed as int
            }) as u64,
        };
        spec_run(next, ds.drop_first())
    }
}

impl RunState {
    /// The action has run once in a finished run, and never otherwise.
    pub open spec fn wf(self) -> bool {
        self.executed == (if self.phase == Phase::Finished {
            1u64
        } else {
            0u64
        })
    }

    /// The state of a run before its first decision.
    pub open spec fn spec_start() -> RunState {
        RunState { phase: Phase::Deciding, executed: 0 }
    }

    /// Starts a run.
    pub fn start() -> (r: RunState)
        ensures
            r == RunState::spec_start(),
            r.wf(),
    {
        RunState { phase: Phase::Deciding, executed: 0 }
    }

    /// Whether the run has ended.
    pub fn is_done(&self) -> (r: bool)
        ensures
            r == (self.phase != Phase::Deciding),
    {
        !matches!(self.phase, Phase::Deciding)
    }

    /// Takes one decision: says what to do next and moves the run on.
    pub fn advance(&mut self, d: Decision) -> (r: Step)
        requires
            old(self).wf(),
            old(self).phase == Phase::Deciding,
        ensures
            final(self).wf(),
            r == spec_step(d),
            *final(self) == spec_run(*old(self), seq![d]),
    {
        let ghost ds = seq![d];
        assert(ds.drop_first() =~= Seq::<Decision>::empty());
        proof {
            reveal_with_fuel(spec_run, 2);
        }
        match d {
            Decision::Allowed(s) => {
                self.phase = Phase::Finished;
                self.executed = 1;
                Step::Execute(s)
            },
            Decision::Wait(s) => Step::Sleep(s.wait),
            Decision::Errored(e) => {
                self.phase = Phase::Failed;
                Step::Stop(e)
            },
        }
    }
}

/// In any run, the guarded action runs at most once, and it has run exactly
/// when the run has finished allowed; a failed run never ran it.
pub proof fn lemma_action_at_most_once(ds: Seq<Decision>)
    ensures
        spec_run(RunState::spec_start(), ds).executed <= 1,
        spec_run(RunState::spec_start(), ds).executed == 1 <==> spec_run(
            RunState::spec_start(),
            ds,
        ).phase == Phase::Finished,
    decreases ds.len(),
{
    if ds.len() > 0 {
        let start = RunState::spec_start();
        let next = RunState {
            phase: spec_phase_after(ds[0]),
            executed: (if ds[0] is Allowed {
                1int
            } else {
                0int
            }) as u64,
        };
        assert(spec_run(start, ds) == spec_run(next, ds.drop_first()));
        if ds[0] is Wait {
            assert(next == start);
            lemma_action_at_most_once(ds.drop_first());
        } else {
            assert(spec_run(next, ds.drop_first()) == next);
        }
    }
}

/// Against a coordinator that always allows, every run ends after its first
/// decision, having run the guarded action exactly once.
pub proof fn lemma_always_allowed_runs_once(ds: Seq<Decision>)
    requires
        ds.len() > 0,
        forall|i: int| 0 <= i < ds.len() ==> ds[i] is Allowed,
    ensures
        spec_run(RunState::spec_start(), ds).executed == 1,
        spec_run(RunState::spec_start(), ds).phase == Phase::Finished,
{
    assert(ds[0] is Allowed);
    let next = RunState { phase: Phase::Finished, executed: 1 };
    assert(spec_run(RunState::spec_start(), ds) == spec_run(next, ds.drop_first()));
    assert(spec_run(next, ds.drop_first()) == next);
}

} // verus!
