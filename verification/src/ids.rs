//! Typed handles into the scene's arenas. A handle is a plain slot index
//! wrapped in a distinct type per arena, so that object handles and render
//! handles cannot be confused.

use vstd::prelude::*;

verus! {

#[derive(Clone, Copy, Debug, PartialEq, Eq, Structural)]
pub struct PbrId(pub usize);

#[derive(Clone, Copy, Debug, PartialEq, Eq, Structural)]
pub struct AnimatedPbrId(pub usize);

/// A typed wrapper around an arena slot index.
pub trait IsId: Copy {
    spec fn id_spec(&self) -> usize;

    fn get_id(&self) -> (r: usize)
        ensures
            r == self.id_spec(),
    ;

    fn new(u: usize) -> (r: Self)
        ensures
            r.id_spec() == u,
    ;
}

/// Handles of this kind name render objects.
pub trait RenderId: IsId {

}

impl IsId for PbrId {
    open spec fn id_spec(&self) -> usize {
        self.0
    }

    fn get_id(&self) -> usize {
        self.0
    }

    fn new(u: usize) -> Self {
        PbrId(u)
    }
}

impl IsId for AnimatedPbrId {
    open spec fn id_spec(&self) -> usize {
        self.0
    }

    fn get_id(&self) -> usize {
        self.0
    }

    fn new(u: usize) -> Self {
        AnimatedPbrId(u)
    }
}

impl RenderId for PbrId {

}

impl RenderId for AnimatedPbrId {

}

} // verus!
