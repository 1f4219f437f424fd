//! The dispatcher: the compute work of one frame, if any.

use crate::grid::{DispatchGeometry, GridExtent, GridShape};
use crate::machine::SimulationPhase;
use crate::pipeline::Kernel;
use crate::surface::BufferIndex;
use vstd::prelude::*;

verus! {

/// One compute dispatch: a program, the binding set it runs against and the
/// workgroups it is spread over.
#[derive(Clone, Copy, Debug, PartialEq, Eq, Structural)]
pub struct DispatchCommand {
    pub kernel: Kernel,
    pub binding: BufferIndex,
    pub workgroups: DispatchGeometry,
}

/// The program and the binding set that a phase dispatches. Loading
/// dispatches nothing, the init phase runs the init program on set 0, and
/// the update phase runs the update program on the set of its index.
pub open spec fn dispatched(phase: SimulationPhase) -> Option<(Kernel, BufferIndex)> {
    match phase {
        SimulationPhase::Loading => None,
        SimulationPhase::Init => Some((Kernel::Init, BufferIndex::Zero)),
        SimulationPhase::Update(index) => Some((Kernel::Update, index)),
    }
}

/// Issues the dispatch of each frame over a grid that was fixed at startup.
#[derive(Clone, Copy, Debug)]
pub struct Dispatcher {
    extent: GridExtent,
}

impl View for Dispatcher {
    type V = GridShape;

    closed spec fn view(&self) -> GridShape {
        self.extent@
    }
}

impl Dispatcher {
    /// A dispatcher for a grid of the given extent.
    pub fn new(extent: GridExtent) -> (dispatcher: Dispatcher)
        ensures
            dispatcher@ == extent@,
    {
        Dispatcher { extent }
    }

    /// The dispatch of a frame that is in `phase`, or nothing in a phase that
    /// dispatches nothing. The clock plays no part: in the update phase the
    /// update program is dispatched on every frame, over the whole grid.
    pub fn run_frame(&self, phase: SimulationPhase) -> (command: Option<DispatchCommand>)
        ensures
            command is Some <==> dispatched(phase) is Some,
            command matches Some(issued) ==> {
                &&& dispatched(phase) == Some((issued.kernel, issued.binding))
                &&& (
                    issued.workgroups.x as nat,
                    issued.workgroups.y as nat,
                    issued.workgroups.z as nat,
                ) == self@.workgroups()
                &&& issued.workgroups.x * self@.workgroup_edge == self@.width
                &&& issued.workgroups.y * self@.workgroup_edge == self@.height
            },
    {
        match phase {
            SimulationPhase::Loading => None,
            SimulationPhase::Init => Some(
                DispatchCommand {
                    kernel: Kernel::Init,
                    binding: BufferIndex::Zero,
                    workgroups: self.extent.dispatch_geometry(),
                },
            ),
            SimulationPhase::Update(index) => Some(
                DispatchCommand {
                    kernel: Kernel::Update,
                    binding: index,
                    workgroups: self.extent.dispatch_geometry(),
                },
            ),
        }
    }
}

} // verus!
