//! The two surfaces of the simulation and the two ways of binding them.
//!
//! A dispatch reads one surface and writes the other. Which is which
//! depends on the buffer index alone, so the two binding sets are worked out
//! once and used again every frame.

use vstd::prelude::*;

verus! {

/// Names a 2D image on the device. The host chooses the identifiers.
#[derive(Clone, Copy, Debug, PartialEq, Eq, Structural)]
pub struct SurfaceHandle {
    pub id: u64,
}

/// Which of the two binding sets a dispatch uses.
#[derive(Clone, Copy, Debug, PartialEq, Eq, Structural)]
pub enum BufferIndex {
    Zero,
    One,
}

impl BufferIndex {
    /// The index as a number, 0 or 1.
    pub open spec fn as_nat(self) -> nat {
        match self {
            BufferIndex::Zero => 0,
            BufferIndex::One => 1,
        }
    }

    /// The other index.
    pub open spec fn other(self) -> BufferIndex {
        match self {
            BufferIndex::Zero => BufferIndex::One,
            BufferIndex::One => BufferIndex::Zero,
        }
    }

    /// The index as a position in an array of two.
    pub fn as_usize(self) -> (position: usize)
        ensures
            position == self.as_nat(),
            position < 2,
    {
        match self {
            BufferIndex::Zero => 0,
            BufferIndex::One => 1,
        }
    }

    /// The other index: 1 for 0 and 0 for 1.
    pub fn flipped(self) -> (flipped: BufferIndex)
        ensures
            flipped == self.other(),
            flipped.as_nat() == 1 - self.as_nat(),
    {
        match self {
            BufferIndex::Zero => BufferIndex::One,
            BufferIndex::One => BufferIndex::Zero,
        }
    }
}

/// The surface a dispatch reads and the surface it writes.
#[derive(Clone, Copy, Debug, PartialEq, Eq, Structural)]
pub struct BindingSet {
    pub read: SurfaceHandle,
    pub write: SurfaceHandle,
}

/// The two surfaces as contracts see them.
pub struct SurfacePair {
    pub a: SurfaceHandle,
    pub b: SurfaceHandle,
}

impl SurfacePair {
    /// The binding set of a buffer index: index 0 reads A and writes B,
    /// index 1 reads B and writes A.
    pub open spec fn binding_set(self, index: BufferIndex) -> BindingSet {
        match index {
            BufferIndex::Zero => BindingSet { read: self.a, write: self.b },
            BufferIndex::One => BindingSet { read: self.b, write: self.a },
        }
    }

    /// The surface shown after `displayed`: B after A, and A after anything
    /// else.
    pub open spec fn shown_after(self, displayed: SurfaceHandle) -> SurfaceHandle {
        if displayed == self.a {
            self.b
        } else {
            self.a
        }
    }
}

/// The two surfaces of the simulation, A and B. They are two different
/// images for as long as the pair lives.
#[derive(Clone, Copy, Debug)]
pub struct TextureBufferPair {
    surface_a: SurfaceHandle,
    surface_b: SurfaceHandle,
}

impl View for TextureBufferPair {
    type V = SurfacePair;

    closed spec fn view(&self) -> SurfacePair {
        SurfacePair { a: self.surface_a, b: self.surface_b }
    }
}

impl TextureBufferPair {
    #[verifier::type_invariant]
    spec fn distinct(&self) -> bool {
        self.surface_a != self.surface_b
    }

    /// Pairs two surfaces, unless they are one and the same.
    pub fn new(surface_a: SurfaceHandle, surface_b: SurfaceHandle) -> (pair: Option<
        TextureBufferPair,
    >)
        ensures
            pair is Some <==> surface_a != surface_b,
            pair matches Some(p) ==> p@ == (SurfacePair { a: surface_a, b: surface_b }),
    {
        if surface_a.id == surface_b.id {
            None
        } else {
            Some(TextureBufferPair { surface_a, surface_b })
        }
    }

    /// Surface A.
    pub fn surface_a(&self) -> (surface: SurfaceHandle)
        ensures
            surface == self@.a,
            surface != self@.b,
    {
        proof {
            use_type_invariant(self);
        }
        self.surface_a
    }

    /// Surface B.
    pub fn surface_b(&self) -> (surface: SurfaceHandle)
        ensures
            surface == self@.b,
            surface != self@.a,
    {
        proof {
            use_type_invariant(self);
        }
        self.surface_b
    }

    /// The binding set of a buffer index. It never reads the surface it
    /// writes, and it writes the surface that the other set reads.
    pub fn binding_set(&self, index: BufferIndex) -> (set: BindingSet)
        ensures
            set == self@.binding_set(index),
            set.read != set.write,
            set.write != self@.binding_set(index.other()).write,
    {
        proof {
            use_type_invariant(self);
        }
        match index {
            BufferIndex::Zero => BindingSet { read: self.surface_a, write: self.surface_b },
            BufferIndex::One => BindingSet { read: self.surface_b, write: self.surface_a },
        }
    }
}

/// What a cache holds after a rebuild was tried on a cache that held
/// `before`: the two binding sets of the pair where both surfaces are on the
/// device, and what it held before where one of them is not.
pub open spec fn rebuilt(
    before: Option<SurfacePair>,
    surfaces: SurfacePair,
    a_resident: bool,
    b_resident: bool,
) -> Option<SurfacePair> {
    if a_resident && b_resident {
        Some(surfaces)
    } else {
        before
    }
}

/// The binding sets of both buffer indices, once both surfaces are on the
/// device. Until then the cache is empty.
#[derive(Clone, Copy, Debug)]
pub struct BindGroupCache {
    bound: Option<TextureBufferPair>,
}

impl View for BindGroupCache {
    type V = Option<SurfacePair>;

    closed spec fn view(&self) -> Option<SurfacePair> {
        match self.bound {
            Some(pair) => Some(pair@),
            None => None,
        }
    }
}

impl BindGroupCache {
    /// An empty cache.
    pub fn new() -> (cache: BindGroupCache)
        ensures
            cache@ is None,
    {
        BindGroupCache { bound: None }
    }

    /// Works out both binding sets anew, provided the device holds a view of
    /// each surface. Where a view is missing nothing is rebuilt: the cache
    /// keeps what it had and the host tries again on the next frame.
    pub fn rebuild_bind_groups(
        &mut self,
        surfaces: &TextureBufferPair,
        a_resident: bool,
        b_resident: bool,
    ) -> (done: bool)
        ensures
            done == (a_resident && b_resident),
            final(self)@ == rebuilt(old(self)@, surfaces@, a_resident, b_resident),
    {
        if a_resident && b_resident {
            self.bound = Some(*surfaces);
            true
        } else {
            false
        }
    }

    /// Whether the binding sets have been built.
    pub fn is_built(&self) -> (built: bool)
        ensures
            built == (self@ is Some),
    {
        self.bound.is_some()
    }

    /// The binding set of a buffer index, or nothing while the cache is
    /// empty. The set depends on the index alone; it never reads the surface
    /// it writes, and it writes the surface that the other set reads.
    pub fn binding_set(&self, index: BufferIndex) -> (set: Option<BindingSet>)
        ensures
            set == match self@ {
                Some(surfaces) => Some(surfaces.binding_set(index)),
                None => None,
            },
            set matches Some(chosen) ==> chosen.read != chosen.write,
            self@ matches Some(surfaces) ==> surfaces.binding_set(index).write
                != surfaces.binding_set(index.other()).write,
    {
        match &self.bound {
            Some(pair) => Some(pair.binding_set(index)),
            None => None,
        }
    }
}

/// The two binding sets of a pair of different surfaces write different
/// surfaces, and each reads what the other writes.
pub proof fn lemma_binding_sets_alternate(surfaces: SurfacePair, index: BufferIndex)
    requires
        surfaces.a != surfaces.b,
    ensures
        surfaces.binding_set(index).write != surfaces.binding_set(index.other()).write,
        surfaces.binding_set(index).read != surfaces.binding_set(index).write,
        surfaces.binding_set(index).write == surfaces.binding_set(index.other()).read,
        surfaces.binding_set(index).read == surfaces.binding_set(index.other()).write,
{
}

/// Rebuilding twice from the same surfaces leaves the cache as rebuilding
/// once does.
pub proof fn lemma_rebuild_is_idempotent(
    before: Option<SurfacePair>,
    surfaces: SurfacePair,
    a_resident: bool,
    b_resident: bool,
)
    ensures
        rebuilt(rebuilt(before, surfaces, a_resident, b_resident), surfaces, a_resident, b_resident)
            == rebuilt(before, surfaces, a_resident, b_resident),
{
}

} // verus!
