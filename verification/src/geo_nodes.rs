use vstd::prelude::*;
use vstd::pervasive::unreached;

use crate::boolean::BooleanOperations;
use crate::mesh::{
    attribute_view, indices_view, Indices, IndicesView, Mesh, PrimitiveTopology, ONE,
};

verus! {

/// Marks the types that can take part in a graph of geometry nodes.
pub trait Node {
}

/// A mesh paired with a material and a scale: the unit from which
/// procedural shapes are composed.
///
/// The material is whatever the renderer in use calls a material; a node
/// only stores it and hands it on.  The scale holds the bit patterns of
/// three single-precision factors.
#[derive(Debug, PartialEq, Eq)]
pub struct GeoNode<M> {
    pub mesh: Mesh,
    pub material: M,
    pub scale: [u32; 3],
}

impl<M> Node for GeoNode<M> {
}

impl<M: Clone> Clone for GeoNode<M> {
    fn clone(&self) -> (copy: Self)
        ensures
            copy.mesh@ == self.mesh@,
            cloned(self.material, copy.material),
            copy.scale == self.scale,
    {
        GeoNode { mesh: self.mesh.clone(), material: self.material.clone(), scale: self.scale }
    }
}

impl<M> GeoNode<M> {
    /// Whether the mesh of the node has what [`GeoNode::merge`] reads:
    /// positions, normals, texture coordinates and indices.
    pub open spec fn mergeable(&self) -> bool {
        &&& self.mesh.position is Some
        &&& self.mesh.normal is Some
        &&& self.mesh.uv_0 is Some
        &&& self.mesh.indices is Some
    }

    pub fn get_mesh(&self) -> (mesh: &Mesh)
        ensures
            *mesh == self.mesh,
    {
        &self.mesh
    }

    pub fn get_material(&self) -> (material: &M)
        ensures
            *material == self.material,
    {
        &self.material
    }

    /// Leaves the node as it is: the scale of a node is fixed when the node
    /// is made.
    pub fn set_scale(&mut self, scale: [u32; 3])
        ensures
            *final(self) == *old(self),
    {
    }

    /// The node around `mesh`, with the default material and the scale one
    /// along every axis.
    pub fn from_mesh(mesh: Mesh) -> (node: Self) where M: Default
        ensures
            node.mesh == mesh,
            call_ensures(M::default, (), node.material),
            node.scale@ == seq![ONE, ONE, ONE],
    {
        GeoNode { mesh, material: M::default(), scale: [ONE, ONE, ONE] }
    }

    /// Forms the union of the node with `other` and drops it: the node
    /// itself stays as it is.
    pub fn combine(&mut self, other: GeoNode<M>) where M: Clone
        ensures
            *final(self) == *old(self),
    {
        let _ = self.union(&other);
    }

    /// Whether [`GeoNode::merge`] can append `other` to the node: both
    /// meshes have positions, normals, texture coordinates and indices, each
    /// of the three attributes has the same format in both, and every index
    /// of `other`, raised by the number of positions of the node, fits 32
    /// bits.
    pub open spec fn merges_with(&self, other: &GeoNode<M>) -> bool {
        &&& self.mergeable()
        &&& other.mergeable()
        &&& self.mesh.position->0@.format == other.mesh.position->0@.format
        &&& self.mesh.normal->0@.format == other.mesh.normal->0@.format
        &&& self.mesh.uv_0->0@.format == other.mesh.uv_0->0@.format
        &&& forall|k: int|
            0 <= k < other.mesh.indices->0@.wide().len() ==> #[trigger] other.mesh.indices->0@.wide()[k]
                + self.mesh.position->0@.rows.len() <= u32::MAX
    }

    /// Whether [`GeoNode::merge`] can append `other` to the node.
    #[verifier::loop_isolation(false)]
    pub fn can_merge(&self, other: &GeoNode<M>) -> (fits: bool)
        ensures
            fits == self.merges_with(other),
    {
        let (position, normal, uv_0, indices) = match (
            &self.mesh.position,
            &self.mesh.normal,
            &self.mesh.uv_0,
            &self.mesh.indices,
        ) {
            (Some(position), Some(normal), Some(uv_0), Some(indices)) => (
                position,
                normal,
                uv_0,
                indices,
            ),
            _ => {
                return false;
            },
        };
        let (other_position, other_normal, other_uv_0, other_indices) = match (
            &other.mesh.position,
            &other.mesh.normal,
            &other.mesh.uv_0,
            &other.mesh.indices,
        ) {
            (Some(position), Some(normal), Some(uv_0), Some(indices)) => (
                position,
                normal,
                uv_0,
                indices,
            ),
            _ => {
                return false;
            },
        };
        if position.format() != other_position.format() || normal.format() != other_normal.format()
            || uv_0.format() != other_uv_0.format() {
            return false;
        }
        let count = position.len();
        let wide = other_indices.to_u32();
        let mut k: usize = 0;
        while k < wide.len()
            invariant
                k <= wide.len(),
                wide@ == other_indices@.wide(),
                count == position@.rows.len(),
                forall|i: int| 0 <= i < k ==> #[trigger] wide@[i] + count <= u32::MAX,
            decreases wide.len() - k,
        {
            if count > 0xFFFF_FFFF || wide[k] as usize > 0xFFFF_FFFF - count {
                proof {
                    let unfit = other.mesh.indices->0@.wide()[k as int];
                    assert(unfit == wide@[k as int]);
                    assert(unfit + self.mesh.position->0@.rows.len() > u32::MAX);
                }
                return false;
            }
            k += 1;
        }
        true
    }

    /// Appends the geometry of `other` to that of the node.  The mesh of the
    /// node becomes a triangle list with three attributes and 32-bit
    /// indices: its positions, normals and texture coordinates are those
    /// that the node had, followed by those of `other`, and its indices are
    /// those that the node had, followed by those of `other`, each raised by
    /// the number of positions that the node had.  Material and scale stay.
    ///
    /// Left out are pairs of nodes in which an attribute has different
    /// formats, or in which a raised index does not fit 32 bits; see
    /// [`GeoNode::can_merge`].
    pub fn merge(&mut self, other: GeoNode<M>)
        requires
            old(self).merges_with(&other),
        ensures
            final(self).mesh.primitive_topology == PrimitiveTopology::TriangleList,
            attribute_view(final(self).mesh.position) == Some(
                old(self).mesh.position->0@.appended(other.mesh.position->0@),
            ),
            attribute_view(final(self).mesh.normal) == Some(
                old(self).mesh.normal->0@.appended(other.mesh.normal->0@),
            ),
            attribute_view(final(self).mesh.uv_0) == Some(
                old(self).mesh.uv_0->0@.appended(other.mesh.uv_0->0@),
            ),
            final(self).mesh.color is None,
            indices_view(final(self).mesh.indices) == Some(
                IndicesView::U32(
                    old(self).mesh.indices->0@.wide() + raised(
                        other.mesh.indices->0@.wide(),
                        old(self).mesh.position->0@.rows.len() as int,
                    ),
                ),
            ),
            final(self).material == old(self).material,
            final(self).scale == old(self).scale,
    {
        let position = match (&self.mesh.position, &other.mesh.position) {
            (Some(first), Some(second)) => first.appended(second),
            _ => unreached(),
        };
        let normal = match (&self.mesh.normal, &other.mesh.normal) {
            (Some(first), Some(second)) => first.appended(second),
            _ => unreached(),
        };
        let uv_0 = match (&self.mesh.uv_0, &other.mesh.uv_0) {
            (Some(first), Some(second)) => first.appended(second),
            _ => unreached(),
        };
        let count = match &self.mesh.position {
            Some(first) => first.len(),
            None => unreached(),
        };
        let mut indices = match &self.mesh.indices {
            Some(first) => first.to_u32(),
            None => unreached(),
        };
        let wide = match &other.mesh.indices {
            Some(second) => second.to_u32(),
            None => unreached(),
        };
        let ghost kept = indices@;
        let mut k: usize = 0;
        while k < wide.len()
            invariant
                k <= wide.len(),
                forall|i: int| 0 <= i < wide@.len() ==> #[trigger] wide@[i] + count <= u32::MAX,
                indices@ == kept + raised(wide@.subrange(0, k as int), count as int),
            decreases wide.len() - k,
        {
            let ghost before = indices@;
            let index = wide[k];
            indices.push((index as usize + count) as u32);
            proof {
                assert(indices@ =~= kept + raised(wide@.subrange(0, k + 1), count as int));
            }
            k += 1;
        }
        proof {
            assert(wide@.subrange(0, wide@.len() as int) == wide@);
        }
        let mut mesh = Mesh::new(PrimitiveTopology::TriangleList);
        mesh.position = Some(position);
        mesh.normal = Some(normal);
        mesh.uv_0 = Some(uv_0);
        mesh.indices = Some(Indices::U32(indices));
        self.mesh = mesh;
    }
}

/// The given indices, each raised by `by`.
pub open spec fn raised(indices: Seq<u32>, by: int) -> Seq<u32> {
    Seq::new(indices.len(), |k: int| (indices[k] + by) as u32)
}

} // verus!
