use vstd::prelude::*;

use crate::geo_nodes::GeoNode;

verus! {

/// The set operations of constructive solid geometry.
pub trait BooleanOperations: Sized {
    fn union(&self, other: &Self) -> Self;

    fn difference(&self, other: &Self) -> Self;

    fn intersection(&self, other: &Self) -> Self;
}

/// A geometry node answers every set operation with a copy of itself; the
/// other operand is not consulted.
impl<M: Clone> BooleanOperations for GeoNode<M> {
    fn union(&self, other: &Self) -> (node: Self)
        ensures
            node.mesh@ == self.mesh@,
            cloned(self.material, node.material),
            node.scale == self.scale,
    {
        self.clone()
    }

    fn difference(&self, other: &Self) -> (node: Self)
        ensures
            node.mesh@ == self.mesh@,
            cloned(self.material, node.material),
            node.scale == self.scale,
    {
        self.clone()
    }

    fn intersection(&self, other: &Self) -> (node: Self)
        ensures
            node.mesh@ == self.mesh@,
            cloned(self.material, node.material),
            node.scale == self.scale,
    {
        self.clone()
    }
}

} // verus!
