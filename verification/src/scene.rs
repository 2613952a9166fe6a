use vstd::prelude::*;

verus! {

/// The scene resource: which prefab the loader was asked to build, and
/// which of its animations is selected.
///
/// The engine hands out an opaque handle for a requested prefab; here a
/// handle is carried as a plain `u64` id chosen by the caller, so that
/// the bootstrap logic can be stated and checked over plain values.
#[derive(Clone, Copy, Debug)]
pub struct Scene {
    /// Handle of the scene prefab, once a load has been requested.
    pub handle: Option<u64>,
    /// Index of the animation to play.
    pub animation_index: usize,
}

impl Default for Scene {
    /// A scene with no prefab requested yet.
    fn default() -> (s: Scene)
        ensures
            s.handle is None,
            s.animation_index == 0,
    {
        Scene { handle: None, animation_index: 0 }
    }
}

} // verus!
