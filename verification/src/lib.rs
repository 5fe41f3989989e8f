//! Procedural-geometry building blocks: a voxel grid sampler, a marching-cubes
//! walker, composable geometry nodes, and conversions between meshes,
//! triangle soups and tabular columns.
//!
//! The crate is independent of any rendering engine.  Meshes and triangle
//! soups are plain values, and every single-precision or double-precision
//! number is carried as its IEEE 754 bit pattern.  The few places that need
//! arithmetic on such numbers take it as a caller-supplied function on bit
//! patterns.  Tables are those of the table engine `polars`.
pub mod boolean;
pub mod dataframes;
pub mod error;
pub mod geo_nodes;
pub mod marching_cubes;
pub mod mesh;
pub mod mesh_converter;
pub mod voxel_grid;

pub use boolean::BooleanOperations;
pub use dataframes::{Column, Table, ToDataframe, ToMesh, ToSeries, ToVecOfVec3};
pub use error::GeoNodeError;
pub use geo_nodes::{GeoNode, Node};
pub use marching_cubes::{MarchingCubes, Triangulation, TriangulationTable};
pub use mesh::{Indices, Mesh, PrimitiveTopology, Scalar, VertexAttributeValues, VertexFormat};
pub use mesh_converter::{Color, MeshConverter, Positions, TriMesh, TriMeshIndices};
pub use voxel_grid::{VoxelGrid, NOISE};
