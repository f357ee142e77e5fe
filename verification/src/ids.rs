//! Generated handles for GPU resources.
//!
//! A handle is an opaque integer, unique per resource kind and never reused:
//! the generator only counts upward, so an id freed by `unload` is never
//! handed out again.

use vstd::prelude::*;

verus! {

/// A counter that hands out fresh ids.  The engine keeps one generator per
/// resource kind (models, shaders, textures).
pub struct IdGen {
    next: u32,
}

impl IdGen {
    /// The id the next allocation will return.
    pub closed spec fn spec_next(self) -> u32 {
        self.next
    }

    pub fn new() -> (r: Self)
        ensures
            r.spec_next() == 0,
    {
        IdGen { next: 0 }
    }

    /// Hands out the next id.  Ids are allocated in increasing order, so no
    /// two allocations from the same generator ever return the same id.
    pub fn fresh(&mut self) -> (r: u32)
        requires
            old(self).spec_next() < u32::MAX,
        ensures
            r == old(self).spec_next(),
            final(self).spec_next() == old(self).spec_next() + 1,
    {
        let id = self.next;
        self.next = self.next + 1;
        id
    }
}

/// The ids a generator starting at `start` hands out over `count` allocations.
pub open spec fn ids_from(start: u32, count: nat) -> Seq<u32> {
    Seq::new(count, |i: int| (start + i) as u32)
}

/// Ids handed out by one generator are pairwise distinct: the `i`-th and
/// `j`-th allocations differ whenever `i != j`, no matter how many ids are
/// drawn.  (Distinctness under concurrent allocation follows in the running
/// system from the allocations being serialized one by one.)
pub proof fn lemma_ids_pairwise_distinct(start: u32, count: nat, i: int, j: int)
    requires
        start + count <= u32::MAX,
        0 <= i < count,
        0 <= j < count,
        i != j,
    ensures
        ids_from(start, count)[i] != ids_from(start, count)[j],
{
}

/// An opaque handle for a model and its GPU buffers.
#[derive(Copy, Clone, PartialEq, Eq, Debug, PartialOrd, Ord, Hash, Structural)]
pub struct ModelId(pub u32);

impl ModelId {
    pub fn new(gen: &mut IdGen) -> (r: Self)
        requires
            old(gen).spec_next() < u32::MAX,
        ensures
            r.0 == old(gen).spec_next(),
            final(gen).spec_next() == old(gen).spec_next() + 1,
    {
        ModelId(gen.fresh())
    }
}

/// An opaque handle for a compiled shader program.
#[derive(Copy, Clone, PartialEq, Eq, Debug, PartialOrd, Ord, Hash, Structural)]
pub struct ShaderId(pub u32);

impl ShaderId {
    pub fn new(gen: &mut IdGen) -> (r: Self)
        requires
            old(gen).spec_next() < u32::MAX,
        ensures
            r.0 == old(gen).spec_next(),
            final(gen).spec_next() == old(gen).spec_next() + 1,
    {
        ShaderId(gen.fresh())
    }
}

/// An opaque handle for a texture.
#[derive(Copy, Clone, PartialEq, Eq, Debug, PartialOrd, Ord, Hash, Structural)]
pub struct TextureId(pub u32);

impl TextureId {
    pub fn new(gen: &mut IdGen) -> (r: Self)
        requires
            old(gen).spec_next() < u32::MAX,
        ensures
            r.0 == old(gen).spec_next(),
            final(gen).spec_next() == old(gen).spec_next() + 1,
    {
        TextureId(gen.fresh())
    }
}

} // verus!
