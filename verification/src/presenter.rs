//! The presenter: which surface the display shows.
//!
//! The shown surface changes on every rendered frame, whatever the phase of
//! the simulation and whether or not the buffer index changed.

use crate::surface::{SurfaceHandle, SurfacePair, TextureBufferPair};
use vstd::prelude::*;

verus! {

/// The surface on display after `frames` rendered frames, when `displayed`
/// was on display before the first of them.
pub open spec fn shown_after_frames(
    surfaces: SurfacePair,
    displayed: SurfaceHandle,
    frames: nat,
) -> SurfaceHandle
    decreases frames,
{
    if frames == 0 {
        displayed
    } else {
        surfaces.shown_after(shown_after_frames(surfaces, displayed, (frames - 1) as nat))
    }
}

/// Keeps the surface that is on display.
#[derive(Clone, Copy, Debug)]
pub struct Presenter {
    displayed: SurfaceHandle,
}

impl View for Presenter {
    type V = SurfaceHandle;

    closed spec fn view(&self) -> SurfaceHandle {
        self.displayed
    }
}

impl Presenter {
    /// A presenter that shows surface A until the first frame is rendered.
    pub fn new(surfaces: &TextureBufferPair) -> (presenter: Presenter)
        ensures
            presenter@ == surfaces@.a,
    {
        Presenter { displayed: surfaces.surface_a() }
    }

    /// The surface on display.
    pub fn displayed(&self) -> (surface: SurfaceHandle)
        ensures
            surface == self@,
    {
        self.displayed
    }

    /// Moves the display on to the other surface and returns it: B where A
    /// was shown, A otherwise. Called once per rendered frame.
    pub fn select_surface_to_display(&mut self, surfaces: &TextureBufferPair) -> (shown:
        SurfaceHandle)
        ensures
            shown == surfaces@.shown_after(old(self)@),
            final(self)@ == shown,
            shown != old(self)@,
    {
        let surface_a: SurfaceHandle = surfaces.surface_a();
        let surface_b: SurfaceHandle = surfaces.surface_b();
        if self.displayed.id == surface_a.id {
            self.displayed = surface_b;
        } else {
            self.displayed = surface_a;
        }
        self.displayed
    }
}

/// Starting from surface A, the display shows B after every odd number of
/// frames and A after every even number.
pub proof fn lemma_display_alternates(surfaces: SurfacePair, frames: nat)
    requires
        surfaces.a != surfaces.b,
    ensures
        shown_after_frames(surfaces, surfaces.a, frames) == if frames % 2 == 0 {
            surfaces.a
        } else {
            surfaces.b
        },
    decreases frames,
{
    if frames > 0 {
        lemma_display_alternates(surfaces, (frames - 1) as nat);
    }
}

} // verus!
