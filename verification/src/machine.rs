//! The phase of the simulation and the rule that moves it once per frame.

use crate::pipeline::{CompileFailure, FailureView, Kernel, PipelineStatus, Readiness};
use crate::surface::BufferIndex;
use vstd::prelude::*;

verus! {

/// Where the simulation stands.
#[derive(Clone, Copy, Debug, PartialEq, Eq, Structural)]
pub enum SimulationPhase {
    /// The init program is not compiled yet. Nothing is dispatched.
    Loading,
    /// The init program writes the starting pattern.
    Init,
    /// The update program runs with the binding set of the index.
    Update(BufferIndex),
}

/// What one frame makes of a phase.
pub enum Transition {
    /// The simulation goes on in this phase.
    To(SimulationPhase),
    /// A program failed to compile: the simulation cannot go on.
    Abort(FailureView),
}

/// The transition rule. While loading, only the init program is looked at;
/// in the init phase, only the update program; in the update phase, only
/// the clock, which flips the buffer index when a period ran out.
pub open spec fn transition(
    phase: SimulationPhase,
    init: Readiness,
    update: Readiness,
    clock_completed: bool,
) -> Transition {
    match phase {
        SimulationPhase::Loading => match init {
            Readiness::Pending => Transition::To(SimulationPhase::Loading),
            Readiness::Ready => Transition::To(SimulationPhase::Init),
            Readiness::Failed(message) => Transition::Abort(
                FailureView { kernel: Kernel::Init, message },
            ),
        },
        SimulationPhase::Init => match update {
            Readiness::Pending => Transition::To(SimulationPhase::Init),
            Readiness::Ready => Transition::To(SimulationPhase::Update(BufferIndex::One)),
            Readiness::Failed(message) => Transition::Abort(
                FailureView { kernel: Kernel::Update, message },
            ),
        },
        SimulationPhase::Update(index) => Transition::To(
            SimulationPhase::Update(
                if clock_completed {
                    index.other()
                } else {
                    index
                },
            ),
        ),
    }
}

/// Owns the phase of the simulation. It starts in `Loading`.
#[derive(Clone, Copy, Debug)]
pub struct SimulationStateMachine {
    phase: SimulationPhase,
}

impl View for SimulationStateMachine {
    type V = SimulationPhase;

    closed spec fn view(&self) -> SimulationPhase {
        self.phase
    }
}

impl Default for SimulationStateMachine {
    fn default() -> (machine: SimulationStateMachine)
        ensures
            machine@ == SimulationPhase::Loading,
    {
        SimulationStateMachine { phase: SimulationPhase::Loading }
    }
}

impl SimulationStateMachine {
    /// A state machine in the `Loading` phase.
    pub fn new() -> (machine: SimulationStateMachine)
        ensures
            machine@ == SimulationPhase::Loading,
    {
        SimulationStateMachine { phase: SimulationPhase::Loading }
    }

    /// The current phase.
    pub fn phase(&self) -> (phase: SimulationPhase)
        ensures
            phase == self@,
    {
        self.phase
    }

    /// Evaluates the transition rule for one frame, before anything is
    /// dispatched. On a compile failure the phase stays as it was and the
    /// failure is returned, with the program it belongs to and the driver's
    /// message.
    pub fn update(
        &mut self,
        init: &PipelineStatus,
        update: &PipelineStatus,
        clock_completed: bool,
    ) -> (outcome: Result<(), CompileFailure>)
        ensures
            match transition(old(self)@, init@, update@, clock_completed) {
                Transition::To(next) => outcome is Ok && final(self)@ == next,
                Transition::Abort(failure) => outcome matches Err(error) && error@ == failure
                    && final(self)@ == old(self)@,
            },
    {
        match self.phase {
            SimulationPhase::Loading => match init {
                PipelineStatus::Pending => Ok(()),
                PipelineStatus::Ready => {
                    self.phase = SimulationPhase::Init;
                    Ok(())
                },
                PipelineStatus::Failed(message) => Err(
                    CompileFailure { kernel: Kernel::Init, message: message.clone() },
                ),
            },
            SimulationPhase::Init => match update {
                PipelineStatus::Pending => Ok(()),
                PipelineStatus::Ready => {
                    self.phase = SimulationPhase::Update(BufferIndex::One);
                    Ok(())
                },
                PipelineStatus::Failed(message) => Err(
                    CompileFailure { kernel: Kernel::Update, message: message.clone() },
                ),
            },
            SimulationPhase::Update(index) => {
                if clock_completed {
                    self.phase = SimulationPhase::Update(index.flipped());
                }
                Ok(())
            },
        }
    }
}

} // verus!
