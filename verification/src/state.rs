//! The forward-only readiness state of the execution node.

use vstd::prelude::*;

verus! {

/// What the backend reports about one submitted pipeline.
#[derive(Clone, Copy, Debug, PartialEq, Eq, Structural)]
pub enum CompileStatus {
    /// Compilation has not finished.
    Pending,
    /// The pipeline is compiled and can be bound.
    Ready,
    /// Compilation ended with an error.
    Failed,
}

/// The phase the execution node is in.
#[derive(Clone, Copy, Debug, PartialEq, Eq, Structural)]
pub enum EvolveTextureState {
    /// Nothing is compiled yet.
    Loading,
    /// The initialization kernel runs each tick.
    Init,
    /// The evolution kernel runs each tick.
    Process,
}

impl EvolveTextureState {
    /// Position of a state in the order `Loading < Init < Process`.
    pub open spec fn rank(self) -> nat {
        match self {
            EvolveTextureState::Loading => 0,
            EvolveTextureState::Init => 1,
            EvolveTextureState::Process => 2,
        }
    }

    /// The state after one update phase that observed `init` for the
    /// initialization pipeline and `process` for the evolution pipeline.
    pub open spec fn next(self, init: CompileStatus, process: CompileStatus) -> EvolveTextureState {
        match self {
            EvolveTextureState::Loading => if init == CompileStatus::Ready {
                EvolveTextureState::Init
            } else {
                EvolveTextureState::Loading
            },
            EvolveTextureState::Init => if process == CompileStatus::Ready {
                EvolveTextureState::Process
            } else {
                EvolveTextureState::Init
            },
            EvolveTextureState::Process => EvolveTextureState::Process,
        }
    }

    /// Advances the state by one update phase.
    pub fn advance(self, init: CompileStatus, process: CompileStatus) -> (r: EvolveTextureState)
        ensures
            r == self.next(init, process),
    {
        match self {
            EvolveTextureState::Loading => {
                if init == CompileStatus::Ready {
                    EvolveTextureState::Init
                } else {
                    EvolveTextureState::Loading
                }
            },
            EvolveTextureState::Init => {
                if process == CompileStatus::Ready {
                    EvolveTextureState::Process
                } else {
                    EvolveTextureState::Init
                }
            },
            EvolveTextureState::Process => EvolveTextureState::Process,
        }
    }
}

impl Default for EvolveTextureState {
    fn default() -> (r: Self)
        ensures
            r is Loading,
    {
        EvolveTextureState::Loading
    }
}

/// The state reached from `start` after one update phase per observation;
/// an observation is the status of the initialization pipeline, then that
/// of the evolution pipeline.
pub open spec fn state_after(
    start: EvolveTextureState,
    observations: Seq<(CompileStatus, CompileStatus)>,
) -> EvolveTextureState
    decreases observations.len(),
{
    if observations.len() == 0 {
        start
    } else {
        state_after(start, observations.drop_last()).next(
            observations.last().0,
            observations.last().1,
        )
    }
}

/// The states a run goes through: the start, then the state after each
/// observation.
pub open spec fn state_trace(
    start: EvolveTextureState,
    observations: Seq<(CompileStatus, CompileStatus)>,
) -> Seq<EvolveTextureState> {
    Seq::new(observations.len() + 1, |i: int| state_after(start, observations.take(i)))
}

/// An update phase never moves the state backwards, moves it by at most
/// one step, and leaves `Process` as it is.
pub proof fn lemma_step_forward(
    state: EvolveTextureState,
    init: CompileStatus,
    process: CompileStatus,
)
    ensures
        state.rank() <= state.next(init, process).rank() <= state.rank() + 1,
        state is Process ==> state.next(init, process) is Process,
{
}

/// Whatever is observed, the trace of states never decreases in the order
/// `Loading < Init < Process`, and once it holds `Process` it holds
/// nothing else.
pub proof fn lemma_trace_never_regresses(
    start: EvolveTextureState,
    observations: Seq<(CompileStatus, CompileStatus)>,
    i: int,
    j: int,
)
    requires
        0 <= i <= j <= observations.len(),
    ensures
        state_trace(start, observations)[i].rank() <= state_trace(start, observations)[j].rank(),
        state_trace(start, observations)[i] is Process ==> state_trace(start, observations)[j]
            is Process,
    decreases j - i,
{
    if i < j {
        lemma_trace_never_regresses(start, observations, i, j - 1);
        assert(observations.take(j).drop_last() =~= observations.take(j - 1));
        lemma_step_forward(
            state_after(start, observations.take(j - 1)),
            observations.take(j).last().0,
            observations.take(j).last().1,
        );
    }
}

} // verus!
