use vstd::prelude::*;

use crate::mesh::{Mesh, VertexAttributeValues};
use crate::voxel_grid::{
    accepts_grid, checked_cube, cube, fill_index, lemma_fill_index_bounds, lemma_fill_index_carry,
    lemma_fill_index_injective, linear_index, sampled, VoxelGrid,
};

verus! {

/// One row of a triangulation table: up to five triangles, each three edge
/// numbers, padded with `-1`.
pub type Triangulation = [i8; 15];

/// A triangulation table: one row for each of the 256 corner configurations.
pub type TriangulationTable = [Triangulation; 256];

/// Whether a sample, the bit pattern of a single-precision number, is
/// greater than zero.  Zero of either sign and every NaN are not.
pub open spec fn is_positive(sample: u32) -> bool {
    0 < sample <= 0x7F80_0000
}

/// The sample that a read at `(x, y, z)` finds in `grid`.
pub open spec fn sample_at(grid: VoxelGrid, x: int, y: int, z: int) -> u32 {
    grid.data@[linear_index(x, y, z, grid.resolution as int)]
}

/// The weight that a corner adds to the configuration of its cell: the
/// weight of its bit if its sample is positive, else nothing.
pub open spec fn corner_bit(sample: u32, weight: int) -> int {
    weighted(is_positive(sample), weight)
}

/// The configuration index of the cell at `(x, y, z)`: one bit for each of
/// its eight corners, set where the sample of the corner is positive.  The
/// corners, from the lowest bit to the highest, are `(x, y, z)`,
/// `(x+1, y, z)`, `(x+1, y, z+1)`, `(x, y, z+1)`, `(x, y+1, z)`,
/// `(x+1, y+1, z)`, `(x+1, y+1, z+1)` and `(x, y+1, z+1)`.
pub open spec fn configuration(grid: VoxelGrid, x: int, y: int, z: int) -> int {
    corner_bit(sample_at(grid, x, y, z), 1) + corner_bit(sample_at(grid, x + 1, y, z), 2)
        + corner_bit(sample_at(grid, x + 1, y, z + 1), 4) + corner_bit(
        sample_at(grid, x, y, z + 1),
        8,
    ) + corner_bit(sample_at(grid, x, y + 1, z), 16) + corner_bit(
        sample_at(grid, x + 1, y + 1, z),
        32,
    ) + corner_bit(sample_at(grid, x + 1, y + 1, z + 1), 64) + corner_bit(
        sample_at(grid, x, y + 1, z + 1),
        128,
    )
}

/// Every configuration is one of the 256 rows of a triangulation table.
pub proof fn lemma_configuration_range(grid: VoxelGrid, x: int, y: int, z: int)
    ensures
        0 <= configuration(grid, x, y, z) < 256,
{
}

/// Whether all eight corners of the cell at `(x, y, z)` are grid points that
/// address samples of `grid`.
pub open spec fn cell_in_grid(grid: VoxelGrid, x: usize, y: usize, z: usize) -> bool {
    &&& x < usize::MAX
    &&& y < usize::MAX
    &&& z < usize::MAX
    &&& linear_index(x + 1, y + 1, z + 1, grid.resolution as int) < grid.data@.len()
}

/// The far corner of a cell has the greatest address of its corners.
proof fn lemma_corner_addresses(x: int, y: int, z: int, n: int)
    by (nonlinear_arith)
    requires
        0 <= x,
        0 <= y,
        0 <= z,
        0 <= n,
    ensures
        0 <= linear_index(x, y, z, n) <= linear_index(x + 1, y + 1, z + 1, n),
        0 <= linear_index(x + 1, y, z, n) <= linear_index(x + 1, y + 1, z + 1, n),
        0 <= linear_index(x + 1, y, z + 1, n) <= linear_index(x + 1, y + 1, z + 1, n),
        0 <= linear_index(x, y, z + 1, n) <= linear_index(x + 1, y + 1, z + 1, n),
        0 <= linear_index(x, y + 1, z, n) <= linear_index(x + 1, y + 1, z + 1, n),
        0 <= linear_index(x + 1, y + 1, z, n) <= linear_index(x + 1, y + 1, z + 1, n),
        0 <= linear_index(x, y + 1, z + 1, n) <= linear_index(x + 1, y + 1, z + 1, n),
{
    assert(0 <= y * n <= (y + 1) * n);
    assert(0 <= z * n * n <= (z + 1) * n * n) by {
        assert(z * n * n == z * (n * n));
        assert((z + 1) * n * n == (z + 1) * (n * n));
        assert(0 <= n * n);
    }
}

/// Every point of a full grid addresses a sample.
proof fn lemma_linear_index_bounds(x: int, y: int, z: int, n: int)
    by (nonlinear_arith)
    requires
        0 <= x < n,
        0 <= y < n,
        0 <= z < n,
    ensures
        0 <= linear_index(x, y, z, n) < cube(n),
{
    assert(y * n <= (n - 1) * n);
    assert(z * n * n <= (n - 1) * n * n) by {
        assert(z * n * n == z * (n * n));
        assert((n - 1) * n * n == (n - 1) * (n * n));
    }
}

/// Every cell of a grid that can be marched has its eight corners in the
/// grid.
pub proof fn lemma_cells_in_grid(walker: MarchingCubes, x: usize, y: usize, z: usize)
    requires
        walker.marchable(),
        x < walker.voxel_grid.resolution - 1,
        y < walker.voxel_grid.resolution - 1,
        z < walker.voxel_grid.resolution - 1,
    ensures
        cell_in_grid(walker.voxel_grid, x, y, z),
{
    lemma_linear_index_bounds(x + 1, y + 1, z + 1, walker.voxel_grid.resolution as int);
}

/// A grid with one sample per point, and at least one point per axis, can
/// be marched.
pub proof fn lemma_well_formed_is_marchable(walker: MarchingCubes)
    requires
        walker.voxel_grid.well_formed(),
        walker.voxel_grid.resolution >= 1,
    ensures
        walker.marchable(),
{
}

/// The weight of a bit that is set, nothing for one that is not.
pub open spec fn weighted(set: bool, weight: int) -> int {
    if set {
        weight
    } else {
        0
    }
}

/// The number whose bit `i` is `bits[i]`, for eight bits.
pub open spec fn packed(bits: Seq<bool>) -> int {
    weighted(bits[0], 1) + weighted(bits[1], 2) + weighted(bits[2], 4) + weighted(bits[3], 8)
        + weighted(bits[4], 16) + weighted(bits[5], 32) + weighted(bits[6], 64) + weighted(
        bits[7],
        128,
    )
}

/// Setting bit `shift` in an index that holds only lower bits adds the
/// weight of that bit.
proof fn lemma_set_bit(index: usize, bit: usize, shift: usize)
    by (bit_vector)
    requires
        bit <= 1,
        shift < 8,
        index < (1usize << shift),
    ensures
        (index | (bit << shift)) == index + bit * (1usize << shift),
        (index | (bit << shift)) < (1usize << (shift + 1) as usize),
{
}

/// The weights of the eight bits.
proof fn lemma_weights()
    by (bit_vector)
    ensures
        (1usize << 0usize) == 1,
        (1usize << 1usize) == 2,
        (1usize << 2usize) == 4,
        (1usize << 3usize) == 8,
        (1usize << 4usize) == 16,
        (1usize << 5usize) == 32,
        (1usize << 6usize) == 64,
        (1usize << 7usize) == 128,
        (1usize << 8usize) == 256,
{
}

/// The number whose bit `i` is `bits[i]`, for the first `count` bits.
spec fn packed_to(bits: Seq<bool>, count: nat) -> int
    decreases count,
{
    if count == 0 {
        0
    } else {
        packed_to(bits, (count - 1) as nat) + weighted(
            bits[count - 1],
            (1usize << ((count - 1) as usize)) as int,
        )
    }
}

/// Packs eight bits into a number, the first into the lowest bit.
fn pack(bits: &[bool; 8]) -> (index: usize)
    ensures
        index == packed(bits@),
        index < 256,
{
    let mut index: usize = 0;
    let mut shift: usize = 0;
    proof {
        lemma_weights();
    }
    while shift < 8
        invariant
            shift <= 8,
            index < (1usize << shift),
            index == packed_to(bits@, shift as nat),
        decreases 8 - shift,
    {
        let bit: usize = if bits[shift] { 1 } else { 0 };
        proof {
            lemma_set_bit(index, bit, shift);
        }
        index = index | (bit << shift);
        shift += 1;
    }
    proof {
        lemma_weights();
        reveal_with_fuel(packed_to, 9);
    }
    index
}

/// Whether a sample is greater than zero.
pub fn positive(sample: u32) -> (answer: bool)
    ensures
        answer == is_positive(sample),
{
    0 < sample && sample <= 0x7F80_0000
}

/// The marching-cubes walker over a voxel grid.
#[derive(Debug, PartialEq, Eq)]
pub struct MarchingCubes {
    pub voxel_grid: VoxelGrid,
}

impl Clone for MarchingCubes {
    fn clone(&self) -> (copy: Self)
        ensures
            copy.voxel_grid.data@ == self.voxel_grid.data@,
            copy.voxel_grid.resolution == self.voxel_grid.resolution,
    {
        MarchingCubes { voxel_grid: self.voxel_grid.clone() }
    }
}

/// Whether every cell whose place lies inside `rows` has there the row
/// that `table` holds for its configuration.
spec fn marched(grid: VoxelGrid, table: TriangulationTable, rows: Seq<Triangulation>) -> bool {
    forall|x: usize, y: usize, z: usize|
        #![trigger fill_index(x as int, y as int, z as int, grid.resolution - 1)]
        x < grid.resolution - 1 && y < grid.resolution - 1 && z < grid.resolution - 1 && fill_index(
            x as int,
            y as int,
            z as int,
            grid.resolution - 1,
        ) < rows.len() ==> rows[fill_index(x as int, y as int, z as int, grid.resolution - 1)]
            == table[configuration(grid, x as int, y as int, z as int)]
}

impl MarchingCubes {
    /// Whether the grid has cells and a sample for every corner of every
    /// cell.
    pub open spec fn marchable(&self) -> bool {
        &&& self.voxel_grid.resolution >= 1
        &&& self.voxel_grid.resolution >= 2 ==> self.voxel_grid.data@.len() >= cube(
            self.voxel_grid.resolution as int,
        )
    }

    /// Whether the grid has cells and a sample for every corner of every
    /// cell.
    pub fn can_march(&self) -> (ready: bool)
        ensures
            ready == self.marchable(),
    {
        let n = self.voxel_grid.resolution;
        proof {
            assert(self.voxel_grid.data@.len() == self.voxel_grid.data.len());
        }
        if n == 0 {
            false
        } else if n == 1 {
            true
        } else {
            match checked_cube(n) {
                Some(points) => self.voxel_grid.data.len() >= points,
                None => false,
            }
        }
    }

    /// Whether all eight corners of `cell` are grid points that address
    /// samples.
    pub fn has_cell(&self, cell: (usize, usize, usize)) -> (inside: bool)
        ensures
            inside == cell_in_grid(self.voxel_grid, cell.0, cell.1, cell.2),
    {
        let (x, y, z) = cell;
        if x == usize::MAX || y == usize::MAX || z == usize::MAX {
            false
        } else {
            self.voxel_grid.addresses(x + 1, y + 1, z + 1)
        }
    }

    /// The walker over the grid that [`VoxelGrid::new`] samples for the
    /// shape of `mesh`, whose positions must be triples of single-precision
    /// numbers.
    pub fn new<F: Fn(usize, usize, usize, usize, u32) -> u32>(
        mesh: &Mesh,
        resolution: usize,
        field: F,
    ) -> (walker: Self)
        requires
            mesh.position matches Some(VertexAttributeValues::Float32x3(_)),
            cube(resolution as int) <= usize::MAX,
            accepts_grid(field, resolution),
        ensures
            walker.voxel_grid.resolution == resolution,
            walker.voxel_grid.well_formed(),
            sampled(field, resolution, walker.voxel_grid.data@),
    {
        Self { voxel_grid: VoxelGrid::from_mesh(mesh, resolution, field) }
    }

    /// Visits every cell of the grid, `x` varying slowest and `z` fastest,
    /// and looks up its triangulation.  Returns a copy of the walker and the
    /// rows found: the row of cell `(x, y, z)` is entry
    /// `fill_index(x, y, z, resolution - 1)`.
    pub fn march_all(&self, triangulations: &TriangulationTable) -> (result: (
        Self,
        Vec<Triangulation>,
    ))
        requires
            self.marchable(),
        ensures
            result.0.voxel_grid.data@ == self.voxel_grid.data@,
            result.0.voxel_grid.resolution == self.voxel_grid.resolution,
            result.1@.len() == cube(self.voxel_grid.resolution - 1),
            forall|x: usize, y: usize, z: usize|
                #![trigger fill_index(x as int, y as int, z as int, self.voxel_grid.resolution - 1)]
                x < self.voxel_grid.resolution - 1 && y < self.voxel_grid.resolution - 1 && z
                    < self.voxel_grid.resolution - 1 ==> result.1@[fill_index(
                    x as int,
                    y as int,
                    z as int,
                    self.voxel_grid.resolution - 1,
                )] == triangulations[configuration(self.voxel_grid, x as int, y as int, z as int)],
    {
        let cells = self.voxel_grid.resolution - 1;
        let ghost n = cells as int;
        let mut rows: Vec<Triangulation> = Vec::new();
        let mut x: usize = 0;
        proof {
            lemma_fill_index_carry(0, 0, n);
        }
        while x < cells
            invariant
                n == cells == self.voxel_grid.resolution - 1,
                self.marchable(),
                x <= cells,
                rows@.len() == fill_index(x as int, 0, 0, n),
                marched(self.voxel_grid, *triangulations, rows@),
            decreases cells - x,
        {
            let mut y: usize = 0;
            while y < cells
                invariant
                    n == cells == self.voxel_grid.resolution - 1,
                    self.marchable(),
                    x < cells,
                    y <= cells,
                    rows@.len() == fill_index(x as int, y as int, 0, n),
                    marched(self.voxel_grid, *triangulations, rows@),
                decreases cells - y,
            {
                let mut z: usize = 0;
                while z < cells
                    invariant
                        n == cells == self.voxel_grid.resolution - 1,
                        self.marchable(),
                        x < cells,
                        y < cells,
                        z <= cells,
                        rows@.len() == fill_index(x as int, y as int, z as int, n),
                        marched(self.voxel_grid, *triangulations, rows@),
                    decreases cells - z,
                {
                    let ghost before = rows@;
                    proof {
                        lemma_cells_in_grid(*self, x, y, z);
                    }
                    let row = self.march((x, y, z), triangulations);
                    rows.push(row);
                    proof {
                        assert forall|a: usize, b: usize, c: usize|
                            #![trigger fill_index(a as int, b as int, c as int, n)]
                            a < cells && b < cells && c < cells && fill_index(
                                a as int,
                                b as int,
                                c as int,
                                n,
                            ) < rows@.len() implies rows@[fill_index(a as int, b as int, c as int, n)]
                            == triangulations[configuration(
                            self.voxel_grid,
                            a as int,
                            b as int,
                            c as int,
                        )] by {
                            if fill_index(a as int, b as int, c as int, n) == before.len() {
                                lemma_fill_index_injective(
                                    a as int,
                                    b as int,
                                    c as int,
                                    x as int,
                                    y as int,
                                    z as int,
                                    n,
                                );
                            } else {
                                lemma_fill_index_bounds(a as int, b as int, c as int, n);
                            }
                        }
                    }
                    z += 1;
                }
                proof {
                    lemma_fill_index_carry(x as int, y as int, n);
                }
                y += 1;
            }
            proof {
                lemma_fill_index_carry(x as int, y as int, n);
            }
            x += 1;
        }
        proof {
            lemma_fill_index_carry(x as int, 0, n);
            assert forall|a: usize, b: usize, c: usize|
                #![trigger fill_index(a as int, b as int, c as int, n)]
                a < cells && b < cells && c < cells implies rows@[fill_index(
                a as int,
                b as int,
                c as int,
                n,
            )] == triangulations[configuration(self.voxel_grid, a as int, b as int, c as int)] by {
                lemma_fill_index_bounds(a as int, b as int, c as int, n);
            }
        }
        (self.clone(), rows)
    }

    /// The triangulation of the cell whose near corner is `cell`: the row
    /// that `triangulations` holds for the configuration of the cell.
    pub fn march(&self, cell: (usize, usize, usize), triangulations: &TriangulationTable) -> (row:
        Triangulation)
        requires
            cell_in_grid(self.voxel_grid, cell.0, cell.1, cell.2),
        ensures
            0 <= configuration(self.voxel_grid, cell.0 as int, cell.1 as int, cell.2 as int) < 256,
            row == triangulations[configuration(
                self.voxel_grid,
                cell.0 as int,
                cell.1 as int,
                cell.2 as int,
            )],
    {
        self.get_triangulation(cell, triangulations)
    }

    fn get_triangulation(
        &self,
        cell: (usize, usize, usize),
        triangulations: &TriangulationTable,
    ) -> (row: Triangulation)
        requires
            cell_in_grid(self.voxel_grid, cell.0, cell.1, cell.2),
        ensures
            0 <= configuration(self.voxel_grid, cell.0 as int, cell.1 as int, cell.2 as int) < 256,
            row == triangulations[configuration(
                self.voxel_grid,
                cell.0 as int,
                cell.1 as int,
                cell.2 as int,
            )],
    {
        let (x, y, z) = cell;
        let grid = &self.voxel_grid;
        proof {
            lemma_corner_addresses(x as int, y as int, z as int, grid.resolution as int);
        }
        let corners = [
            positive(grid.read(x, y, z)),
            positive(grid.read(x + 1, y, z)),
            positive(grid.read(x + 1, y, z + 1)),
            positive(grid.read(x, y, z + 1)),
            positive(grid.read(x, y + 1, z)),
            positive(grid.read(x + 1, y + 1, z)),
            positive(grid.read(x + 1, y + 1, z + 1)),
            positive(grid.read(x, y + 1, z + 1)),
        ];
        let config_idx = pack(&corners);
        triangulations[config_idx]
    }
}

} // verus!
