use vstd::prelude::*;

verus! {

/// What a face of segment-based level geometry is to a moving body: ground
/// to stand on, a wall to run into, or a ceiling overhead.
#[derive(Clone, Copy, PartialEq, Eq, Structural, Debug)]
pub enum FaceType {
    Floor,
    Wall,
    Ceiling,
}

} // verus!
