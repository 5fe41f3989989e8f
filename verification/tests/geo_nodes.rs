use geo_nodes::boolean::BooleanOperations;
use geo_nodes::geo_nodes::GeoNode;
use geo_nodes::mesh::{Indices, Mesh, PrimitiveTopology, VertexAttributeValues, ONE};

#[derive(Clone, Debug, Default, PartialEq, Eq)]
struct Paint {
    name: String,
    roughness: u32,
}

fn quad() -> Mesh {
    Mesh {
        primitive_topology: PrimitiveTopology::TriangleStrip,
        position: Some(VertexAttributeValues::Float32x3(vec![[0, 0, 0], [1, 0, 0], [0, 1, 0], [1, 1, 0]])),
        normal: Some(VertexAttributeValues::Float32x3(vec![[0, 0, 1]; 4])),
        uv_0: Some(VertexAttributeValues::Float32x2(vec![[0, 0], [1, 0], [0, 1], [1, 1]])),
        color: Some(VertexAttributeValues::Float32x4(vec![[5, 5, 5, 5]; 4])),
        indices: Some(Indices::U16(vec![0, 1, 2, 3])),
    }
}

fn triangle() -> Mesh {
    Mesh {
        primitive_topology: PrimitiveTopology::LineList,
        position: Some(VertexAttributeValues::Float32x3(vec![[7, 7, 7], [8, 8, 8], [9, 9, 9]])),
        normal: Some(VertexAttributeValues::Float32x3(vec![[1, 0, 0]; 3])),
        uv_0: Some(VertexAttributeValues::Float32x2(vec![[2, 3]; 3])),
        color: Some(VertexAttributeValues::Float32x4(vec![[6, 6, 6, 6]; 3])),
        indices: Some(Indices::U16(vec![2, 1, 0, 65535])),
    }
}

fn node(mesh: Mesh, name: &str) -> GeoNode<Paint> {
    GeoNode { mesh, material: Paint { name: name.to_string(), roughness: 3 }, scale: [1, 2, 3] }
}

#[test]
fn one_is_the_single_one() {
    assert_eq!(ONE, 1.0f32.to_bits());
}

#[test]
fn from_mesh_has_default_material_and_unit_scale() {
    let node: GeoNode<Paint> = GeoNode::from_mesh(quad());
    assert_eq!(node.mesh, quad());
    assert_eq!(node.material, Paint::default());
    assert_eq!(node.scale, [1.0f32.to_bits(); 3]);
}

#[test]
fn getters_borrow_the_fields() {
    let node = node(quad(), "red");
    assert_eq!(*node.get_mesh(), quad());
    assert_eq!(node.get_material().name, "red");
}

#[test]
fn set_scale_changes_nothing() {
    let mut changed = node(quad(), "red");
    changed.set_scale([9, 9, 9]);
    assert_eq!(changed, node(quad(), "red"));
}

#[test]
fn combine_changes_nothing() {
    let mut changed = node(quad(), "red");
    changed.combine(node(triangle(), "blue"));
    assert_eq!(changed, node(quad(), "red"));
}

/// A mesh with the vertex and index counts of a cube: 24 vertices, 36 indices.
fn cube(tag: u32) -> Mesh {
    Mesh {
        primitive_topology: PrimitiveTopology::TriangleList,
        position: Some(VertexAttributeValues::Float32x3((0..24).map(|i| [tag, i, 0]).collect())),
        normal: Some(VertexAttributeValues::Float32x3((0..24).map(|i| [tag, i, 1]).collect())),
        uv_0: Some(VertexAttributeValues::Float32x2((0..24).map(|i| [tag, i]).collect())),
        color: None,
        indices: Some(Indices::U32((0..36).map(|i| i % 24).collect())),
    }
}

#[test]
fn merge_appends_the_geometry_of_the_other_node() {
    let mut merged = node(quad(), "red");
    merged.merge(node(triangle(), "blue"));
    assert_eq!(
        merged.mesh,
        Mesh {
            primitive_topology: PrimitiveTopology::TriangleList,
            position: Some(VertexAttributeValues::Float32x3(vec![
                [0, 0, 0],
                [1, 0, 0],
                [0, 1, 0],
                [1, 1, 0],
                [7, 7, 7],
                [8, 8, 8],
                [9, 9, 9],
            ])),
            normal: Some(VertexAttributeValues::Float32x3(vec![
                [0, 0, 1],
                [0, 0, 1],
                [0, 0, 1],
                [0, 0, 1],
                [1, 0, 0],
                [1, 0, 0],
                [1, 0, 0],
            ])),
            uv_0: Some(VertexAttributeValues::Float32x2(vec![
                [0, 0],
                [1, 0],
                [0, 1],
                [1, 1],
                [2, 3],
                [2, 3],
                [2, 3],
            ])),
            color: None,
            indices: Some(Indices::U32(vec![0, 1, 2, 3, 6, 5, 4, 65539])),
        }
    );
}

#[test]
fn merge_of_two_cubes_has_48_vertices_and_72_indices() {
    let mut merged = node(cube(1), "red");
    merged.merge(node(cube(2), "blue"));
    let positions = match &merged.mesh.position {
        Some(VertexAttributeValues::Float32x3(rows)) => rows.clone(),
        _ => panic!("positions are triples"),
    };
    assert_eq!(positions.len(), 48);
    assert_eq!(positions[0], [1, 0, 0]);
    assert_eq!(positions[23], [1, 23, 0]);
    assert_eq!(positions[24], [2, 0, 0]);
    assert_eq!(positions[47], [2, 23, 0]);
    assert_eq!(merged.mesh.normal.as_ref().map(|n| n.len()), Some(48));
    assert_eq!(merged.mesh.uv_0.as_ref().map(|n| n.len()), Some(48));
    let indices = match &merged.mesh.indices {
        Some(Indices::U32(values)) => values.clone(),
        _ => panic!("indices are wide"),
    };
    assert_eq!(indices.len(), 72);
    for i in 0..36 {
        assert_eq!(indices[i], (i % 24) as u32);
        assert_eq!(indices[36 + i], (i % 24) as u32 + 24);
    }
}

#[test]
fn merge_keeps_material_and_scale() {
    let mut merged = node(quad(), "red");
    merged.merge(GeoNode { mesh: triangle(), material: Paint::default(), scale: [0, 0, 0] });
    assert_eq!(merged.material, Paint { name: "red".to_string(), roughness: 3 });
    assert_eq!(merged.scale, [1, 2, 3]);
}

#[test]
fn merge_raises_wide_indices_too() {
    let mut other = triangle();
    other.indices = Some(Indices::U32(vec![0, 1, 70000]));
    let mut merged = node(quad(), "red");
    merged.merge(node(other, "blue"));
    assert_eq!(merged.mesh.indices, Some(Indices::U32(vec![0, 1, 2, 3, 4, 5, 70004])));
}

#[test]
fn merge_appends_attributes_of_any_layout() {
    let mut first = quad();
    first.position = Some(VertexAttributeValues::Sint16x4(vec![[5, 6, 7, 8]]));
    first.uv_0 = Some(VertexAttributeValues::Unorm8x2(vec![[9, 9]]));
    let mut other = triangle();
    other.position = Some(VertexAttributeValues::Sint16x4(vec![[1, -2, 3, -4]]));
    other.uv_0 = Some(VertexAttributeValues::Unorm8x2(vec![]));
    let mut merged = node(first, "red");
    merged.merge(node(other, "blue"));
    assert_eq!(
        merged.mesh.position,
        Some(VertexAttributeValues::Sint16x4(vec![[5, 6, 7, 8], [1, -2, 3, -4]]))
    );
    assert_eq!(merged.mesh.uv_0, Some(VertexAttributeValues::Unorm8x2(vec![[9, 9]])));
    // One position before the merge: the indices of the other node rise by one.
    assert_eq!(merged.mesh.indices, Some(Indices::U32(vec![0, 1, 2, 3, 3, 2, 1, 65536])));
}

#[test]
fn merge_with_itself_doubles_the_geometry_and_drops_colors() {
    let mut merged = node(quad(), "red");
    merged.merge(node(quad(), "red"));
    assert_eq!(merged.mesh.position.as_ref().map(|p| p.len()), Some(8));
    assert_eq!(merged.mesh.color, None);
    assert_eq!(merged.mesh.primitive_topology, PrimitiveTopology::TriangleList);
    assert_eq!(merged.mesh.indices, Some(Indices::U32(vec![0, 1, 2, 3, 4, 5, 6, 7])));
}

#[test]
fn merge_with_an_empty_node_keeps_the_geometry() {
    let mut empty = triangle();
    empty.position = Some(VertexAttributeValues::Float32x3(vec![]));
    empty.normal = Some(VertexAttributeValues::Float32x3(vec![]));
    empty.uv_0 = Some(VertexAttributeValues::Float32x2(vec![]));
    empty.indices = Some(Indices::U16(vec![]));
    let mut merged = node(quad(), "red");
    merged.merge(node(empty, "blue"));
    assert_eq!(merged.mesh.position, quad().position);
    assert_eq!(merged.mesh.normal, quad().normal);
    assert_eq!(merged.mesh.uv_0, quad().uv_0);
    assert_eq!(merged.mesh.indices, Some(Indices::U32(vec![0, 1, 2, 3])));
}

#[test]
fn can_merge_needs_all_four_parts_in_both_nodes() {
    assert!(node(quad(), "red").can_merge(&node(triangle(), "blue")));
    for part in 0..4 {
        let mut lacking = quad();
        match part {
            0 => lacking.position = None,
            1 => lacking.normal = None,
            2 => lacking.uv_0 = None,
            _ => lacking.indices = None,
        }
        assert!(!node(lacking.clone(), "red").can_merge(&node(triangle(), "blue")));
        assert!(!node(triangle(), "blue").can_merge(&node(lacking, "red")));
    }
}

#[test]
fn can_merge_needs_the_same_formats() {
    let mut other = triangle();
    other.position = Some(VertexAttributeValues::Sint32x3(vec![[1, 2, 3]]));
    assert!(!node(quad(), "red").can_merge(&node(other, "blue")));
    let mut other = triangle();
    other.normal = Some(VertexAttributeValues::Float32x4(vec![]));
    assert!(!node(quad(), "red").can_merge(&node(other, "blue")));
    let mut other = triangle();
    other.uv_0 = Some(VertexAttributeValues::Uint32x2(vec![]));
    assert!(!node(quad(), "red").can_merge(&node(other, "blue")));
}

#[test]
fn can_merge_needs_raised_indices_that_fit_32_bits() {
    let mut other = triangle();
    other.indices = Some(Indices::U32(vec![0, u32::MAX - 4]));
    assert!(node(quad(), "red").can_merge(&node(other, "blue")));
    let mut other = triangle();
    other.indices = Some(Indices::U32(vec![0, u32::MAX - 3]));
    assert!(!node(quad(), "red").can_merge(&node(other, "blue")));
    // A node without positions raises nothing.
    let mut bare = quad();
    bare.position = Some(VertexAttributeValues::Float32x3(vec![]));
    let mut other = triangle();
    other.indices = Some(Indices::U32(vec![u32::MAX]));
    assert!(node(bare, "red").can_merge(&node(other, "blue")));
}

#[test]
fn union_is_a_copy_of_the_first_node() {
    let a = node(quad(), "red");
    let b = node(triangle(), "blue");
    assert_eq!(a.union(&b), a);
    assert_eq!(b.union(&a), b);
}

#[test]
fn difference_is_a_copy_of_the_first_node() {
    let a = node(quad(), "red");
    let b = node(triangle(), "blue");
    assert_eq!(a.difference(&b), a);
    assert_eq!(b.difference(&a), b);
}

#[test]
fn intersection_is_a_copy_of_the_first_node() {
    let a = node(quad(), "red");
    let b = node(triangle(), "blue");
    assert_eq!(a.intersection(&b), a);
    assert_eq!(b.intersection(&a), b);
}

#[test]
fn node_clone_is_equal() {
    let a = node(quad(), "red");
    assert_eq!(a.clone(), a);
}
