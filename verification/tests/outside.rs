use geo_nodes::dataframes::{load, shapes, Column, ToDataframe, ToMesh};
use geo_nodes::error::GeoNodeError;
use geo_nodes::mesh::{Indices, Mesh, PrimitiveTopology, Scalar, VertexAttributeValues};
use geo_nodes::mesh_converter::{Color, MeshConverter, Positions, TriMesh, TriMeshIndices};
use polars::prelude::{DataFrame, NamedFrom, Series};
use three_d_asset::{Vector2, Vector3};

fn singles<const N: usize>(rows: &[[f32; N]]) -> Vec<[u32; N]> {
    rows.iter().map(|row| row.map(|x| x.to_bits())).collect()
}

fn cell(scalar: &Scalar) -> f64 {
    match scalar {
        Scalar::Float32(bits) => f32::from_bits(*bits) as f64,
        Scalar::Integer(value) => *value as f64,
    }
}

fn series(column: &Column) -> Series {
    let cells: Vec<f64> = column.values.iter().map(cell).collect();
    Series::new(&column.name, cells)
}

/// Loads the columns of a mesh into a table of the table engine.
fn load_mesh(mesh: &Mesh) -> Result<DataFrame, GeoNodeError> {
    let table = mesh.to_dataframe()?;
    load(table.columns.iter().map(series).collect())
}

fn named(name: &str, cells: &[f64]) -> Series {
    Series::new(name, cells.to_vec())
}

fn shape_of(frame: &DataFrame) -> Vec<(String, usize)> {
    frame.get_columns().iter().map(|s| (s.name().to_string(), s.len())).collect()
}

fn triangle() -> Mesh {
    Mesh {
        primitive_topology: PrimitiveTopology::TriangleList,
        position: Some(VertexAttributeValues::Float32x3(singles(&[
            [0.0, 0.0, 0.0],
            [1.0, 0.0, 0.0],
            [0.0, 1.0, 0.0],
        ]))),
        normal: Some(VertexAttributeValues::Float32x3(singles(&[[0.0, 0.0, 1.0]; 3]))),
        uv_0: Some(VertexAttributeValues::Float32x2(singles(&[[0.0, 0.25], [1.0, 0.5], [0.0, 0.75]]))),
        color: None,
        indices: Some(Indices::U16(vec![0, 1, 2])),
    }
}

fn raw(soup: &TriMesh) -> three_d_asset::TriMesh {
    three_d_asset::TriMesh {
        name: soup.name.clone(),
        material_name: soup.material_name.clone(),
        positions: match &soup.positions {
            Positions::F32(rows) => three_d_asset::Positions::F32(
                rows.iter().map(|r| Vector3::new(f32::from_bits(r[0]), f32::from_bits(r[1]), f32::from_bits(r[2]))).collect(),
            ),
            Positions::F64(rows) => three_d_asset::Positions::F64(
                rows.iter().map(|r| Vector3::new(f64::from_bits(r[0]), f64::from_bits(r[1]), f64::from_bits(r[2]))).collect(),
            ),
        },
        indices: match &soup.indices {
            TriMeshIndices::Unindexed => three_d_asset::Indices::None,
            TriMeshIndices::U8(values) => three_d_asset::Indices::U8(values.clone()),
            TriMeshIndices::U16(values) => three_d_asset::Indices::U16(values.clone()),
            TriMeshIndices::U32(values) => three_d_asset::Indices::U32(values.clone()),
        },
        normals: soup.normals.as_ref().map(|rows| {
            rows.iter().map(|r| Vector3::new(f32::from_bits(r[0]), f32::from_bits(r[1]), f32::from_bits(r[2]))).collect()
        }),
        tangents: None,
        uvs: soup.uvs.as_ref().map(|rows| {
            rows.iter().map(|r| Vector2::new(f32::from_bits(r[0]), f32::from_bits(r[1]))).collect()
        }),
        colors: soup.colors.as_ref().map(|colors| {
            colors.iter().map(|c| three_d_asset::Color::new(c.r, c.g, c.b, c.a)).collect()
        }),
    }
}

fn soup(raw: &three_d_asset::TriMesh) -> TriMesh {
    TriMesh {
        name: raw.name.clone(),
        material_name: raw.material_name.clone(),
        positions: match &raw.positions {
            three_d_asset::Positions::F32(rows) => Positions::F32(
                rows.iter().map(|v| [v.x.to_bits(), v.y.to_bits(), v.z.to_bits()]).collect(),
            ),
            three_d_asset::Positions::F64(rows) => Positions::F64(
                rows.iter().map(|v| [v.x.to_bits(), v.y.to_bits(), v.z.to_bits()]).collect(),
            ),
        },
        indices: match &raw.indices {
            three_d_asset::Indices::None => TriMeshIndices::Unindexed,
            three_d_asset::Indices::U8(values) => TriMeshIndices::U8(values.clone()),
            three_d_asset::Indices::U16(values) => TriMeshIndices::U16(values.clone()),
            three_d_asset::Indices::U32(values) => TriMeshIndices::U32(values.clone()),
        },
        normals: raw.normals.as_ref().map(|rows| {
            rows.iter().map(|v| [v.x.to_bits(), v.y.to_bits(), v.z.to_bits()]).collect()
        }),
        tangents: raw.tangents.as_ref().map(|rows| {
            rows.iter().map(|v| [v.x.to_bits(), v.y.to_bits(), v.z.to_bits(), v.w.to_bits()]).collect()
        }),
        uvs: raw.uvs.as_ref().map(|rows| rows.iter().map(|v| [v.x.to_bits(), v.y.to_bits()]).collect()),
        colors: raw.colors.as_ref().map(|colors| {
            colors.iter().map(|c| Color { r: c.r, g: c.g, b: c.b, a: c.a }).collect()
        }),
    }
}

#[test]
fn columns_of_a_mesh_load_into_a_table() {
    let frame = load_mesh(&triangle()).unwrap();
    assert_eq!(frame.shape(), (3, 8));
    assert_eq!(
        frame.get_column_names(),
        vec![
            "position_0",
            "position_1",
            "position_2",
            "normal_0",
            "normal_1",
            "normal_2",
            "uv_0",
            "uv_1"
        ]
    );
    let uv_1: Vec<Option<f64>> = frame.column("uv_1").unwrap().f64().unwrap().into_iter().collect();
    assert_eq!(uv_1, vec![Some(0.25), Some(0.5), Some(0.75)]);
    let position_0: Vec<Option<f64>> =
        frame.column("position_0").unwrap().f64().unwrap().into_iter().collect();
    assert_eq!(position_0, vec![Some(0.0), Some(1.0), Some(0.0)]);
}

#[test]
fn integer_columns_load_as_doubles() {
    let mut mesh = triangle();
    mesh.uv_0 = Some(VertexAttributeValues::Snorm8x2(vec![[-128, 127], [0, 1], [2, 3]]));
    let frame = load_mesh(&mesh).unwrap();
    let uv_0: Vec<Option<f64>> = frame.column("uv_0").unwrap().f64().unwrap().into_iter().collect();
    assert_eq!(uv_0, vec![Some(-128.0), Some(0.0), Some(2.0)]);
}

#[test]
fn the_table_refuses_columns_that_do_not_fit() {
    let mut mesh = triangle();
    mesh.normal = Some(VertexAttributeValues::Float32x3(singles(&[[0.0, 0.0, 1.0]; 2])));
    assert!(mesh.to_dataframe().is_ok());
    assert_eq!(load_mesh(&mesh).err(), Some(GeoNodeError::DataframeFromMeshError));
}

#[test]
fn a_mesh_without_uvs_never_reaches_the_table() {
    let mut mesh = triangle();
    mesh.uv_0 = None;
    assert_eq!(load_mesh(&mesh).err(), Some(GeoNodeError::FailedToGetColumnError("uv".to_string())));
}

#[test]
fn a_mesh_goes_through_the_half_edge_mesh_and_back() {
    let quantize = |bits: u32| f32::from_bits(bits) as u8;
    let narrow = |bits: u64| (f64::from_bits(bits) as f32).to_bits();
    let mesh = triangle();

    let out = mesh.to_trimesh(quantize);
    let connected = tri_mesh::Mesh::new(&raw(&out));
    assert_eq!(connected.no_vertices(), 3);
    assert_eq!(connected.no_faces(), 1);

    let exported = soup(&connected.export());
    assert!(matches!(exported.positions, Positions::F64(_)));
    let back = exported.to_bevy_mesh(narrow);
    assert_eq!(back.primitive_topology, PrimitiveTopology::TriangleList);
    assert_eq!(back.position, mesh.position);
    assert_eq!(back.normal, mesh.normal);
    assert_eq!(back.uv_0, None);
    assert_eq!(back.indices, None);
}

#[test]
fn the_raw_soup_keeps_what_the_conversion_set() {
    let out = triangle().to_trimesh(|bits: u32| f32::from_bits(bits) as u8);
    let raw = raw(&out);
    assert_eq!(raw.name, "Test");
    assert_eq!(raw.vertex_count(), 3);
    assert_eq!(raw.triangle_count(), 1);
    assert_eq!(raw.indices.to_u32(), Some(vec![0, 1, 2]));
    assert_eq!(raw.colors.as_ref().map(|c| c.len()), Some(1));
    assert_eq!(soup(&raw), out);
}

#[test]
fn load_of_nothing_is_an_empty_table() {
    let frame = load(vec![]).unwrap();
    assert_eq!(frame.shape(), (0, 0));
    assert!(shape_of(&frame).is_empty());
}

#[test]
fn load_keeps_the_order_of_the_columns() {
    let frame = load(vec![named("b", &[1.0, 2.0]), named("a", &[3.0, 4.0]), named("c", &[5.0, 6.0])])
        .unwrap();
    assert_eq!(
        shape_of(&frame),
        vec![("b".to_string(), 2), ("a".to_string(), 2), ("c".to_string(), 2)]
    );
    let a: Vec<Option<f64>> = frame.column("a").unwrap().f64().unwrap().into_iter().collect();
    assert_eq!(a, vec![Some(3.0), Some(4.0)]);
}

#[test]
fn load_stops_at_the_first_column_that_is_refused() {
    let result = load(vec![named("a", &[1.0, 2.0, 3.0]), named("b", &[1.0, 2.0]), named("c", &[0.0; 3])]);
    assert_eq!(result.err(), Some(GeoNodeError::DataframeFromMeshError));
}

#[test]
fn load_lets_the_engine_replace_a_column_of_the_same_name() {
    let frame = load(vec![named("a", &[1.0, 2.0]), named("b", &[3.0, 4.0]), named("a", &[5.0, 6.0])])
        .unwrap();
    assert_eq!(shape_of(&frame), vec![("a".to_string(), 2), ("b".to_string(), 2)]);
    let a: Vec<Option<f64>> = frame.column("a").unwrap().f64().unwrap().into_iter().collect();
    assert_eq!(a, vec![Some(5.0), Some(6.0)]);
}

#[test]
fn load_lets_the_engine_repeat_a_single_cell() {
    let frame = load(vec![named("a", &[1.0, 2.0, 3.0]), named("b", &[7.0])]).unwrap();
    assert_eq!(shape_of(&frame), vec![("a".to_string(), 3), ("b".to_string(), 3)]);
    let b: Vec<Option<f64>> = frame.column("b").unwrap().f64().unwrap().into_iter().collect();
    assert_eq!(b, vec![Some(7.0); 3]);
}

#[test]
fn to_mesh_is_an_empty_triangle_list() {
    let frame = load_mesh(&triangle()).unwrap();
    assert_eq!(frame.to_mesh(), Ok(Mesh::new(PrimitiveTopology::TriangleList)));
    assert_eq!(DataFrame::default().to_mesh(), Ok(Mesh::new(PrimitiveTopology::TriangleList)));
}

#[test]
fn shapes_give_name_and_length_of_each_column() {
    let columns = vec![named("a", &[1.0, 2.0]), named("", &[]), named("position_0", &[0.5])];
    assert_eq!(
        shapes(&columns),
        vec![("a".to_string(), 2), ("".to_string(), 0), ("position_0".to_string(), 1)]
    );
    assert!(shapes(&vec![]).is_empty());
}

#[test]
fn load_takes_any_first_column() {
    for length in [0usize, 1, 2, 5] {
        let frame = load(vec![named("a", &vec![1.5; length])]).unwrap();
        assert_eq!(shape_of(&frame), vec![("a".to_string(), length)]);
    }
}

#[test]
fn load_stores_a_single_cell_empty_in_a_table_without_rows() {
    let frame = load(vec![named("a", &[]), named("b", &[7.0])]).unwrap();
    assert_eq!(shape_of(&frame), vec![("a".to_string(), 0), ("b".to_string(), 0)]);
}

#[test]
fn load_refuses_a_column_of_another_length() {
    assert!(load(vec![named("a", &[]), named("b", &[1.0, 2.0])]).is_err());
    assert!(load(vec![named("a", &[1.0]), named("b", &[1.0, 2.0])]).is_err());
    assert!(load(vec![named("a", &[1.0, 2.0]), named("b", &[])]).is_err());
    assert!(load(vec![named("a", &[1.0, 2.0]), named("a", &[1.0, 2.0, 3.0])]).is_err());
}

#[test]
fn load_replaces_in_place_and_stretches_the_replacement() {
    let frame = load(vec![
        named("a", &[1.0, 2.0]),
        named("b", &[3.0, 4.0]),
        named("c", &[5.0, 6.0]),
        named("b", &[9.0]),
    ])
    .unwrap();
    assert_eq!(
        shape_of(&frame),
        vec![("a".to_string(), 2), ("b".to_string(), 2), ("c".to_string(), 2)]
    );
    let b: Vec<Option<f64>> = frame.column("b").unwrap().f64().unwrap().into_iter().collect();
    assert_eq!(b, vec![Some(9.0), Some(9.0)]);
}

#[test]
fn load_keeps_a_single_row_table_at_one_row() {
    let frame = load(vec![named("a", &[1.0]), named("b", &[2.0])]).unwrap();
    assert_eq!(shape_of(&frame), vec![("a".to_string(), 1), ("b".to_string(), 1)]);
}

#[test]
fn columns_of_a_mesh_are_alike_and_load_in_their_order() {
    let table = triangle().to_dataframe().unwrap();
    let columns: Vec<Series> = table.columns.iter().map(series).collect();
    let before = shapes(&columns);
    let frame = load(columns).unwrap();
    assert_eq!(shape_of(&frame), before);
    assert_eq!(before.len(), 8);
    assert!(before.iter().all(|(_, length)| *length == 3));
}

/// What the table engine is held to: the columns after a column of the given
/// name and length was handed to a table with the given columns.
fn expected_after(columns: &[(String, usize)], name: &str, length: usize) -> Option<Vec<(String, usize)>> {
    let height = columns.first().map(|c| c.1).unwrap_or(0);
    let stored = if !columns.is_empty() && length == 1 { height } else { length };
    if !columns.is_empty() && stored != height {
        return None;
    }
    let mut after = columns.to_vec();
    match after.iter().position(|c| c.0 == name) {
        Some(i) => after[i] = (name.to_string(), stored),
        None => after.push((name.to_string(), stored)),
    }
    Some(after)
}

#[test]
fn the_engine_accepts_and_places_columns_as_stated() {
    let names = ["a", "b", "c"];
    let lengths = [0usize, 1, 2, 3];
    let mut shapes_to_try: Vec<(&str, usize)> = Vec::new();
    for name in names {
        for length in lengths {
            shapes_to_try.push((name, length));
        }
    }
    let mut tried = 0;
    for first in &shapes_to_try {
        for second in &shapes_to_try {
            for third in &shapes_to_try {
                for fourth in &shapes_to_try {
                    let handed = [first, second, third, fourth];
                    let mut expected: Option<Vec<(String, usize)>> = Some(Vec::new());
                    for (name, length) in handed {
                        expected = expected.and_then(|columns| expected_after(&columns, name, *length));
                    }
                    let series: Vec<Series> =
                        handed.iter().map(|(name, length)| named(name, &vec![0.5; *length])).collect();
                    let found = load(series).ok().map(|frame| shape_of(&frame));
                    assert_eq!(found, expected, "{:?}", handed);
                    tried += 1;
                }
            }
        }
    }
    assert_eq!(tried, 12 * 12 * 12 * 12);
}
