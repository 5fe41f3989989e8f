use vstd::prelude::*;
use vstd::pervasive::unreached;
use vstd::string::StringExecFns;

use crate::mesh::{copy_rows, Mesh, PrimitiveTopology, VertexAttributeValues, ONE};

verus! {

/// The mathematical content of a list of positions.
pub enum PositionsView {
    F32(Seq<[u32; 3]>),
    F64(Seq<[u64; 3]>),
}

/// Vertex positions, as single-precision or double-precision bit patterns.
#[derive(Debug, PartialEq, Eq)]
pub enum Positions {
    F32(Vec<[u32; 3]>),
    F64(Vec<[u64; 3]>),
}

impl View for Positions {
    type V = PositionsView;

    open spec fn view(&self) -> PositionsView {
        match self {
            Positions::F32(values) => PositionsView::F32(values@),
            Positions::F64(values) => PositionsView::F64(values@),
        }
    }
}

impl Clone for Positions {
    fn clone(&self) -> (copy: Self)
        ensures
            copy@ == self@,
    {
        match self {
            Positions::F32(values) => Positions::F32(copy_rows(values)),
            Positions::F64(values) => Positions::F64(copy_rows(values)),
        }
    }
}

/// The mathematical content of the indices of a triangle soup.
pub enum TriMeshIndicesView {
    Unindexed,
    U8(Seq<u8>),
    U16(Seq<u16>),
    U32(Seq<u32>),
}

/// The indices of a triangle soup.  Without indices, every three consecutive
/// vertices form a triangle.
#[derive(Debug, PartialEq, Eq)]
pub enum TriMeshIndices {
    Unindexed,
    U8(Vec<u8>),
    U16(Vec<u16>),
    U32(Vec<u32>),
}

impl View for TriMeshIndices {
    type V = TriMeshIndicesView;

    open spec fn view(&self) -> TriMeshIndicesView {
        match self {
            TriMeshIndices::Unindexed => TriMeshIndicesView::Unindexed,
            TriMeshIndices::U8(values) => TriMeshIndicesView::U8(values@),
            TriMeshIndices::U16(values) => TriMeshIndicesView::U16(values@),
            TriMeshIndices::U32(values) => TriMeshIndicesView::U32(values@),
        }
    }
}

impl Clone for TriMeshIndices {
    fn clone(&self) -> (copy: Self)
        ensures
            copy@ == self@,
    {
        match self {
            TriMeshIndices::Unindexed => TriMeshIndices::Unindexed,
            TriMeshIndices::U8(values) => TriMeshIndices::U8(values.clone()),
            TriMeshIndices::U16(values) => TriMeshIndices::U16(values.clone()),
            TriMeshIndices::U32(values) => TriMeshIndices::U32(values.clone()),
        }
    }
}

/// A colour with one byte per channel.
#[derive(Clone, Copy, Debug, PartialEq, Eq, Structural)]
pub struct Color {
    pub r: u8,
    pub g: u8,
    pub b: u8,
    pub a: u8,
}

/// The mathematical content of a triangle soup.
pub struct TriMeshView {
    pub name: Seq<char>,
    pub material_name: Option<Seq<char>>,
    pub positions: PositionsView,
    pub indices: TriMeshIndicesView,
    pub normals: Option<Seq<[u32; 3]>>,
    pub tangents: Option<Seq<[u32; 4]>>,
    pub uvs: Option<Seq<[u32; 2]>>,
    pub colors: Option<Seq<Color>>,
}

/// A triangle soup: the raw buffers from which a half-edge mesh is built
/// and into which it is exported again.
#[derive(Debug, PartialEq, Eq)]
pub struct TriMesh {
    pub name: String,
    pub material_name: Option<String>,
    pub positions: Positions,
    pub indices: TriMeshIndices,
    /// Vertex normals, as single-precision bit patterns.
    pub normals: Option<Vec<[u32; 3]>>,
    /// Vertex tangents, as single-precision bit patterns.
    pub tangents: Option<Vec<[u32; 4]>>,
    /// Texture coordinates, as single-precision bit patterns.
    pub uvs: Option<Vec<[u32; 2]>>,
    pub colors: Option<Vec<Color>>,
}

/// The view of rows that may be absent.
pub open spec fn rows_view<T, const N: usize>(rows: Option<Vec<[T; N]>>) -> Option<Seq<[T; N]>> {
    match rows {
        Some(values) => Some(values@),
        None => None,
    }
}

impl View for TriMesh {
    type V = TriMeshView;

    open spec fn view(&self) -> TriMeshView {
        TriMeshView {
            name: self.name@,
            material_name: match self.material_name {
                Some(name) => Some(name@),
                None => None,
            },
            positions: self.positions@,
            indices: self.indices@,
            normals: rows_view(self.normals),
            tangents: rows_view(self.tangents),
            uvs: rows_view(self.uvs),
            colors: match self.colors {
                Some(colors) => Some(colors@),
                None => None,
            },
        }
    }
}

/// Copies rows that may be absent.
fn copy_optional_rows<T: Copy, const N: usize>(rows: &Option<Vec<[T; N]>>) -> (copy: Option<
    Vec<[T; N]>,
>)
    ensures
        rows_view(copy) == rows_view(*rows),
{
    match rows {
        Some(values) => Some(copy_rows(values)),
        None => None,
    }
}

impl Clone for TriMesh {
    fn clone(&self) -> (copy: Self)
        ensures
            copy@ == self@,
    {
        TriMesh {
            name: self.name.clone(),
            material_name: match &self.material_name {
                Some(name) => Some(name.clone()),
                None => None,
            },
            positions: self.positions.clone(),
            indices: self.indices.clone(),
            normals: copy_optional_rows(&self.normals),
            tangents: copy_optional_rows(&self.tangents),
            uvs: copy_optional_rows(&self.uvs),
            colors: match &self.colors {
                Some(colors) => Some(colors.clone()),
                None => None,
            },
        }
    }
}

/// Whether `color` is what `quantize` makes of the three channels of `rgb`,
/// with the alpha byte set to one.
pub open spec fn color_of_rgb<Q: Fn(u32) -> u8>(quantize: Q, rgb: [u32; 3], color: Color) -> bool {
    &&& call_ensures(quantize, (rgb[0],), color.r)
    &&& call_ensures(quantize, (rgb[1],), color.g)
    &&& call_ensures(quantize, (rgb[2],), color.b)
    &&& color.a == 1
}

/// Whether `color` is what `quantize` makes of the four channels of `rgba`.
pub open spec fn color_of_rgba<Q: Fn(u32) -> u8>(
    quantize: Q,
    rgba: [u32; 4],
    color: Color,
) -> bool {
    &&& call_ensures(quantize, (rgba[0],), color.r)
    &&& call_ensures(quantize, (rgba[1],), color.g)
    &&& call_ensures(quantize, (rgba[2],), color.b)
    &&& call_ensures(quantize, (rgba[3],), color.a)
}

/// Whether `color` is what `quantize` makes of four channels of one.
pub open spec fn color_of_ones<Q: Fn(u32) -> u8>(quantize: Q, color: Color) -> bool {
    &&& call_ensures(quantize, (ONE,), color.r)
    &&& call_ensures(quantize, (ONE,), color.g)
    &&& call_ensures(quantize, (ONE,), color.b)
    &&& call_ensures(quantize, (ONE,), color.a)
}

/// Whether `colors` are the colours that a mesh with the colour attribute
/// `source` gets when its channels are quantised by `quantize`.
///
/// A mesh without colours gets a single colour, made from four channels of
/// one.  Three-channel colours get the alpha byte one.
pub open spec fn colors_of<Q: Fn(u32) -> u8>(
    quantize: Q,
    source: Option<VertexAttributeValues>,
    colors: Seq<Color>,
) -> bool {
    match source {
        None => colors.len() == 1 && color_of_ones(quantize, colors[0]),
        Some(VertexAttributeValues::Float32x3(rows)) => {
            &&& colors.len() == rows@.len()
            &&& forall|j: int|
                0 <= j < rows@.len() ==> color_of_rgb(quantize, rows@[j], #[trigger] colors[j])
        },
        Some(VertexAttributeValues::Float32x4(rows)) => {
            &&& colors.len() == rows@.len()
            &&& forall|j: int|
                0 <= j < rows@.len() ==> color_of_rgba(quantize, rows@[j], #[trigger] colors[j])
        },
        Some(_) => false,
    }
}

/// Whether `narrow` made the single-precision row `single` from the
/// double-precision row `double`.
pub open spec fn row_narrowed<N: Fn(u64) -> u32>(narrow: N, double: [u64; 3], single: [u32; 3]) -> bool {
    &&& call_ensures(narrow, (double[0],), single[0])
    &&& call_ensures(narrow, (double[1],), single[1])
    &&& call_ensures(narrow, (double[2],), single[2])
}

/// Whether `single` are the single-precision positions of `positions`:
/// the same rows if they are single-precision already, else each number
/// narrowed by `narrow`.
pub open spec fn positions_narrowed<N: Fn(u64) -> u32>(
    narrow: N,
    positions: Positions,
    single: Seq<[u32; 3]>,
) -> bool {
    match positions {
        Positions::F32(rows) => single == rows@,
        Positions::F64(rows) => single.len() == rows@.len() && forall|j: int|
            0 <= j < rows@.len() ==> row_narrowed(narrow, rows@[j], #[trigger] single[j]),
    }
}

/// Conversion between the mesh of the rendering side and the triangle soup
/// of the half-edge side.
///
/// Numbers are bit patterns here, so the two roundings that the conversions
/// need are passed in: `quantize` turns a single-precision colour channel
/// into a byte, `narrow` turns a double-precision coordinate into a
/// single-precision one.
pub trait MeshConverter {
    /// Whether the value holds what a triangle soup needs.
    spec fn has_trimesh(&self) -> bool;

    /// Whether the conversion to a triangle soup hands `bits` to `quantize`.
    spec fn quantized(&self, bits: u32) -> bool;

    /// Whether the value holds what a renderer mesh needs.
    spec fn has_bevy_mesh(&self) -> bool;

    /// Whether the conversion to a renderer mesh hands `bits` to `narrow`.
    spec fn narrowed(&self, bits: u64) -> bool;

    fn to_trimesh<Q: Fn(u32) -> u8>(&self, quantize: Q) -> (soup: TriMesh)
        requires
            self.has_trimesh(),
            forall|bits: u32| self.quantized(bits) ==> call_requires(quantize, (bits,)),
    ;

    fn to_bevy_mesh<N: Fn(u64) -> u32>(&self, narrow: N) -> (mesh: Mesh)
        requires
            self.has_bevy_mesh(),
            forall|bits: u64| self.narrowed(bits) ==> call_requires(narrow, (bits,)),
    ;
}

/// Whether `bits` is the number at row `j`, place `k` of `rows`.
pub open spec fn stands_at<T, const N: usize>(rows: Seq<[T; N]>, j: int, k: int, bits: T) -> bool {
    0 <= j < rows.len() && 0 <= k < N && rows[j][k] == bits
}

/// Whether `bits` is one of the numbers of `rows`.
pub open spec fn occurs_in<T, const N: usize>(rows: Seq<[T; N]>, bits: T) -> bool {
    exists|j: int, k: int| #[trigger] stands_at(rows, j, k, bits)
}

/// Whether `quantize` accepts every channel of the colours `source`, or
/// the channel value one where there are no colours.
pub open spec fn quantizes<Q: Fn(u32) -> u8>(
    quantize: Q,
    source: Option<VertexAttributeValues>,
) -> bool {
    match source {
        None => call_requires(quantize, (ONE,)),
        Some(VertexAttributeValues::Float32x3(rows)) => forall|j: int, k: int|
            0 <= j < rows@.len() && 0 <= k < 3 ==> call_requires(
                quantize,
                (#[trigger] rows@[j][k],),
            ),
        Some(VertexAttributeValues::Float32x4(rows)) => forall|j: int, k: int|
            0 <= j < rows@.len() && 0 <= k < 4 ==> call_requires(
                quantize,
                (#[trigger] rows@[j][k],),
            ),
        Some(_) => false,
    }
}

/// The rows of an attribute known to hold triples of single-precision numbers.
fn float3_rows(attribute: &Option<VertexAttributeValues>) -> (rows: &Vec<[u32; 3]>)
    requires
        attribute matches Some(VertexAttributeValues::Float32x3(_)),
    ensures
        *attribute matches Some(VertexAttributeValues::Float32x3(values)) && values == *rows,
{
    match attribute {
        Some(VertexAttributeValues::Float32x3(values)) => values,
        _ => unreached(),
    }
}

/// The rows of an attribute known to hold pairs of single-precision numbers.
fn float2_rows(attribute: &Option<VertexAttributeValues>) -> (rows: &Vec<[u32; 2]>)
    requires
        attribute matches Some(VertexAttributeValues::Float32x2(_)),
    ensures
        *attribute matches Some(VertexAttributeValues::Float32x2(values)) && values == *rows,
{
    match attribute {
        Some(VertexAttributeValues::Float32x2(values)) => values,
        _ => unreached(),
    }
}

/// Quantises the colours of a mesh, channel by channel.
fn quantize_colors<Q: Fn(u32) -> u8>(source: &Option<VertexAttributeValues>, quantize: Q) -> (colors:
    Vec<Color>)
    requires
        quantizes(quantize, *source),
    ensures
        colors_of(quantize, *source, colors@),
{
    match source {
        None => {
            let color = Color {
                r: quantize(ONE),
                g: quantize(ONE),
                b: quantize(ONE),
                a: quantize(ONE),
            };
            let mut colors: Vec<Color> = Vec::new();
            colors.push(color);
            colors
        },
        Some(VertexAttributeValues::Float32x3(rows)) => {
            let mut colors: Vec<Color> = Vec::new();
            let mut j: usize = 0;
            while j < rows.len()
                invariant
                    j <= rows.len(),
                    colors@.len() == j,
                    forall|i: int, k: int|
                        0 <= i < rows@.len() && 0 <= k < 3 ==> call_requires(
                            quantize,
                            (#[trigger] rows@[i][k],),
                        ),
                    forall|i: int|
                        0 <= i < j ==> color_of_rgb(quantize, rows@[i], #[trigger] colors@[i]),
                decreases rows.len() - j,
            {
                let rgb = rows[j];
                assert(rgb == rows@[j as int]);
                let color = Color {
                    r: quantize(rgb[0]),
                    g: quantize(rgb[1]),
                    b: quantize(rgb[2]),
                    a: 1,
                };
                colors.push(color);
                j += 1;
            }
            colors
        },
        Some(VertexAttributeValues::Float32x4(rows)) => {
            let mut colors: Vec<Color> = Vec::new();
            let mut j: usize = 0;
            while j < rows.len()
                invariant
                    j <= rows.len(),
                    colors@.len() == j,
                    forall|i: int, k: int|
                        0 <= i < rows@.len() && 0 <= k < 4 ==> call_requires(
                            quantize,
                            (#[trigger] rows@[i][k],),
                        ),
                    forall|i: int|
                        0 <= i < j ==> color_of_rgba(quantize, rows@[i], #[trigger] colors@[i]),
                decreases rows.len() - j,
            {
                let rgba = rows[j];
                assert(rgba == rows@[j as int]);
                let color = Color {
                    r: quantize(rgba[0]),
                    g: quantize(rgba[1]),
                    b: quantize(rgba[2]),
                    a: quantize(rgba[3]),
                };
                colors.push(color);
                j += 1;
            }
            colors
        },
        Some(_) => unreached(),
    }
}

/// Narrows double-precision rows to single precision, number by number.
fn narrow_rows<N: Fn(u64) -> u32>(rows: &Vec<[u64; 3]>, narrow: N) -> (single: Vec<[u32; 3]>)
    requires
        forall|j: int, k: int|
            0 <= j < rows@.len() && 0 <= k < 3 ==> call_requires(narrow, (#[trigger] rows@[j][k],)),
    ensures
        single@.len() == rows@.len(),
        forall|j: int|
            0 <= j < rows@.len() ==> row_narrowed(narrow, rows@[j], #[trigger] single@[j]),
{
    let mut single: Vec<[u32; 3]> = Vec::new();
    let mut j: usize = 0;
    while j < rows.len()
        invariant
            j <= rows.len(),
            single@.len() == j,
            forall|i: int, k: int|
                0 <= i < rows@.len() && 0 <= k < 3 ==> call_requires(
                    narrow,
                    (#[trigger] rows@[i][k],),
                ),
            forall|i: int| 0 <= i < j ==> row_narrowed(narrow, rows@[i], #[trigger] single@[i]),
        decreases rows.len() - j,
    {
        let row = rows[j];
        assert(row == rows@[j as int]);
        let x = narrow(row[0]);
        let y = narrow(row[1]);
        let z = narrow(row[2]);
        single.push([x, y, z]);
        j += 1;
    }
    single
}

impl MeshConverter for Mesh {
    /// Positions and normals are triples and texture coordinates are pairs of
    /// single-precision numbers, indices are present, and colours, if
    /// present, have three or four single-precision channels.
    open spec fn has_trimesh(&self) -> bool {
        &&& self.position matches Some(VertexAttributeValues::Float32x3(_))
        &&& self.normal matches Some(VertexAttributeValues::Float32x3(_))
        &&& self.uv_0 matches Some(VertexAttributeValues::Float32x2(_))
        &&& self.indices is Some
        &&& (self.color is None || self.color matches Some(VertexAttributeValues::Float32x3(_))
            || self.color matches Some(VertexAttributeValues::Float32x4(_)))
    }

    /// The channels of the colours; the value one where there are none.
    open spec fn quantized(&self, bits: u32) -> bool {
        match self.color {
            None => bits == ONE,
            Some(VertexAttributeValues::Float32x3(rows)) => occurs_in(rows@, bits),
            Some(VertexAttributeValues::Float32x4(rows)) => occurs_in(rows@, bits),
            Some(_) => false,
        }
    }

    open spec fn has_bevy_mesh(&self) -> bool {
        true
    }

    open spec fn narrowed(&self, bits: u64) -> bool {
        false
    }

    /// The triangle soup called `Test` with the positions, normals, texture
    /// coordinates and indices of the mesh, the indices widened to 32 bits,
    /// and with its colours quantised to bytes.
    fn to_trimesh<Q: Fn(u32) -> u8>(&self, quantize: Q) -> (soup: TriMesh)
        ensures
            soup.name@ == "Test"@,
            soup.material_name is None,
            self.position matches Some(VertexAttributeValues::Float32x3(rows))
                && soup@.positions == PositionsView::F32(rows@),
            self.normal matches Some(VertexAttributeValues::Float32x3(rows)) && soup@.normals
                == Some(rows@),
            self.uv_0 matches Some(VertexAttributeValues::Float32x2(rows)) && soup@.uvs == Some(
                rows@,
            ),
            soup@.indices == TriMeshIndicesView::U32(self.indices->0@.wide()),
            soup.tangents is None,
            soup.colors matches Some(colors) && colors_of(quantize, self.color, colors@),
    {
        let positions = copy_rows(float3_rows(&self.position));
        let normals = copy_rows(float3_rows(&self.normal));
        let uvs = copy_rows(float2_rows(&self.uv_0));
        let indices = match &self.indices {
            Some(indices) => indices.to_u32(),
            None => unreached(),
        };
        proof {
            match &self.color {
                Some(VertexAttributeValues::Float32x3(rows)) => {
                    assert forall|j: int, k: int|
                        0 <= j < rows@.len() && 0 <= k < 3 implies call_requires(
                        quantize,
                        (#[trigger] rows@[j][k],),
                    ) by {
                        assert(stands_at(rows@, j, k, rows@[j][k]));
                        assert(self.quantized(rows@[j][k]));
                    }
                },
                Some(VertexAttributeValues::Float32x4(rows)) => {
                    assert forall|j: int, k: int|
                        0 <= j < rows@.len() && 0 <= k < 4 implies call_requires(
                        quantize,
                        (#[trigger] rows@[j][k],),
                    ) by {
                        assert(stands_at(rows@, j, k, rows@[j][k]));
                        assert(self.quantized(rows@[j][k]));
                    }
                },
                _ => {
                    assert(self.quantized(ONE));
                },
            }
        }
        let colors = quantize_colors(&self.color, quantize);
        TriMesh {
            name: String::from_str("Test"),
            material_name: None,
            positions: Positions::F32(positions),
            indices: TriMeshIndices::U32(indices),
            normals: Some(normals),
            tangents: None,
            uvs: Some(uvs),
            colors: Some(colors),
        }
    }

    /// A copy of the mesh.
    fn to_bevy_mesh<N: Fn(u64) -> u32>(&self, narrow: N) -> (mesh: Mesh)
        ensures
            mesh@ == self@,
    {
        self.clone()
    }
}

impl MeshConverter for TriMesh {
    open spec fn has_trimesh(&self) -> bool {
        true
    }

    open spec fn quantized(&self, bits: u32) -> bool {
        false
    }

    /// The soup has normals.
    open spec fn has_bevy_mesh(&self) -> bool {
        self.normals is Some
    }

    /// The coordinates, if they are double-precision.
    open spec fn narrowed(&self, bits: u64) -> bool {
        self.positions matches Positions::F64(rows) && occurs_in(rows@, bits)
    }

    /// A copy of the soup.
    fn to_trimesh<Q: Fn(u32) -> u8>(&self, quantize: Q) -> (soup: TriMesh)
        ensures
            soup@ == self@,
    {
        self.clone()
    }

    /// The triangle-list mesh with the positions of the soup, in single
    /// precision, and its normals; it has no other attribute and no indices.
    fn to_bevy_mesh<N: Fn(u64) -> u32>(&self, narrow: N) -> (mesh: Mesh)
        ensures
            mesh.primitive_topology == PrimitiveTopology::TriangleList,
            mesh.position matches Some(VertexAttributeValues::Float32x3(rows))
                && positions_narrowed(narrow, self.positions, rows@),
            mesh.normal matches Some(VertexAttributeValues::Float32x3(rows)) && Some(rows@)
                == rows_view(self.normals),
            mesh.uv_0 is None,
            mesh.color is None,
            mesh.indices is None,
    {
        let positions = match &self.positions {
            Positions::F32(rows) => copy_rows(rows),
            Positions::F64(rows) => {
                assert forall|j: int, k: int|
                    0 <= j < rows@.len() && 0 <= k < 3 implies call_requires(
                    narrow,
                    (#[trigger] rows@[j][k],),
                ) by {
                    assert(stands_at(rows@, j, k, rows@[j][k]));
                    assert(self.narrowed(rows@[j][k]));
                }
                narrow_rows(rows, narrow)
            },
        };
        let normals = match &self.normals {
            Some(rows) => copy_rows(rows),
            None => unreached(),
        };
        let mut mesh = Mesh::new(PrimitiveTopology::TriangleList);
        mesh.position = Some(VertexAttributeValues::Float32x3(positions));
        mesh.normal = Some(VertexAttributeValues::Float32x3(normals));
        mesh
    }
}

} // verus!
