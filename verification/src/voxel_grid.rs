use vstd::prelude::*;
use vstd::arithmetic::div_mod::{
    lemma_fundamental_div_mod_converse_div, lemma_fundamental_div_mod_converse_mod,
};
use vstd::pervasive::unreached;

use crate::mesh::{Mesh, VertexAttributeValues};

verus! {

/// The bit pattern of the single-precision noise amplitude, one tenth, that
/// every field evaluation receives.
pub const NOISE: u32 = 0x3DCC_CCCD;

/// The number of points of a cubic grid with `n` points along each axis.
pub open spec fn cube(n: int) -> int {
    n * n * n
}

/// The place in the sample array at which the sample for grid point
/// `(x, y, z)` is stored when a grid with `n` points per axis is filled:
/// `x` varies slowest and `z` fastest.
pub open spec fn fill_index(x: int, y: int, z: int, n: int) -> int {
    (x * n + y) * n + z
}

/// The place in the sample array that a read at `(x, y, z)` addresses in a
/// grid with `n` points per axis: `x` varies fastest and `z` slowest.
pub open spec fn linear_index(x: int, y: int, z: int, n: int) -> int {
    x + y * n + z * n * n
}

/// Grid points inside the grid are stored inside the sample array.
pub proof fn lemma_fill_index_bounds(x: int, y: int, z: int, n: int)
    by (nonlinear_arith)
    requires
        0 <= x < n,
        0 <= y < n,
        0 <= z < n,
    ensures
        0 <= fill_index(x, y, z, n) < cube(n),
{
    assert(x * n + y <= (n - 1) * n + (n - 1));
    assert((x * n + y) * n <= ((n - 1) * n + (n - 1)) * n);
}

/// No two grid points are stored at the same place.
pub proof fn lemma_fill_index_injective(a: int, b: int, c: int, x: int, y: int, z: int, n: int)
    requires
        0 <= b < n,
        0 <= c < n,
        0 <= y < n,
        0 <= z < n,
        fill_index(a, b, c, n) == fill_index(x, y, z, n),
    ensures
        a == x,
        b == y,
        c == z,
{
    let i = fill_index(a, b, c, n);
    lemma_fundamental_div_mod_converse_div(i, n, a * n + b, c);
    lemma_fundamental_div_mod_converse_div(i, n, x * n + y, z);
    lemma_fundamental_div_mod_converse_mod(i, n, a * n + b, c);
    lemma_fundamental_div_mod_converse_mod(i, n, x * n + y, z);
    let j = a * n + b;
    lemma_fundamental_div_mod_converse_div(j, n, a, b);
    lemma_fundamental_div_mod_converse_div(j, n, x, y);
    lemma_fundamental_div_mod_converse_mod(j, n, a, b);
    lemma_fundamental_div_mod_converse_mod(j, n, x, y);
}

/// Moving on from the last point of a row, or of a layer, leads to the
/// place after it.
pub proof fn lemma_fill_index_carry(x: int, y: int, n: int)
    by (nonlinear_arith)
    ensures
        fill_index(x, y, n, n) == fill_index(x, y + 1, 0, n),
        fill_index(x, n, 0, n) == fill_index(x + 1, 0, 0, n),
        fill_index(n, 0, 0, n) == cube(n),
        fill_index(0, 0, 0, n) == 0,
{
}

/// Filling and reading address the sample array in mirrored order: the
/// sample that filling stores for the point `(x, y, z)` is the one that a
/// read of `(z, y, x)` finds.
pub proof fn lemma_read_mirrors_fill(x: int, y: int, z: int, n: int)
    by (nonlinear_arith)
    ensures
        fill_index(x, y, z, n) == linear_index(z, y, x, n),
{
}

/// The terms of a read address are bounded by the address.
proof fn lemma_linear_index_terms(x: int, y: int, z: int, n: int)
    by (nonlinear_arith)
    requires
        0 <= x,
        0 <= y,
        0 <= z,
        0 <= n,
    ensures
        0 <= y * n <= linear_index(x, y, z, n),
        0 <= z * n <= z * n * n <= linear_index(x, y, z, n),
        x + y * n <= linear_index(x, y, z, n),
{
    assert(z * n * n == (z * n) * n);
    if n == 0 {
    } else {
        assert((z * n) * 1 <= (z * n) * n);
    }
}

/// A product of counts is at least each factor that is multiplied by a
/// positive count.
proof fn lemma_product_grows(a: int, b: int)
    by (nonlinear_arith)
    requires
        0 <= a,
        1 <= b,
    ensures
        a <= a * b,
{
}

/// The number of points of a grid with `n` points per axis, unless it
/// exceeds what the machine can count.
pub fn checked_cube(n: usize) -> (points: Option<usize>)
    ensures
        match points {
            Some(count) => count == cube(n as int),
            None => cube(n as int) > usize::MAX,
        },
{
    match n.checked_mul(n) {
        Some(square) => square.checked_mul(n),
        None => {
            proof {
                lemma_product_grows(n * n, n as int);
            }
            None
        },
    }
}

/// A cubic grid of scalar samples, stored as one flat array.
///
/// Each sample is the bit pattern of a single-precision number.
#[derive(Debug, PartialEq, Eq)]
pub struct VoxelGrid {
    pub data: Vec<u32>,
    pub resolution: usize,
}

impl Clone for VoxelGrid {
    fn clone(&self) -> (copy: Self)
        ensures
            copy.data@ == self.data@,
            copy.resolution == self.resolution,
    {
        VoxelGrid { data: self.data.clone(), resolution: self.resolution }
    }
}

/// Whether `samples` hold, for every point of a grid with `resolution`
/// points per axis, a value that `field` gives for that point.
pub open spec fn sampled<F: Fn(usize, usize, usize, usize, u32) -> u32>(
    field: F,
    resolution: usize,
    samples: Seq<u32>,
) -> bool {
    &&& samples.len() == cube(resolution as int)
    &&& forall|x: usize, y: usize, z: usize|
        #![trigger fill_index(x as int, y as int, z as int, resolution as int)]
        x < resolution && y < resolution && z < resolution ==> call_ensures(
            field,
            (x, y, z, resolution, NOISE),
            samples[fill_index(x as int, y as int, z as int, resolution as int)],
        )
}

/// Whether `field` accepts every point of a grid with `resolution` points
/// per axis.
pub open spec fn accepts_grid<F: Fn(usize, usize, usize, usize, u32) -> u32>(
    field: F,
    resolution: usize,
) -> bool {
    forall|x: usize, y: usize, z: usize|
        x < resolution && y < resolution && z < resolution ==> call_requires(
            field,
            (x, y, z, resolution, NOISE),
        )
}

impl VoxelGrid {
    /// Whether the grid holds exactly one sample per grid point.
    pub open spec fn well_formed(&self) -> bool {
        self.data@.len() == cube(self.resolution as int)
    }

    /// Samples `field` at every point of a grid with `resolution` points
    /// per axis.  The field receives the coordinates of the point, the
    /// resolution and the noise amplitude [`NOISE`].  Samples are stored with
    /// `x` varying slowest and `z` fastest.
    ///
    /// `data` are the vertex positions of the shape that is voxelised; the
    /// samples do not depend on them.
    pub fn new<F: Fn(usize, usize, usize, usize, u32) -> u32>(
        data: &[[u32; 3]],
        resolution: usize,
        field: F,
    ) -> (grid: Self)
        requires
            cube(resolution as int) <= usize::MAX,
            accepts_grid(field, resolution),
        ensures
            grid.resolution == resolution,
            grid.well_formed(),
            sampled(field, resolution, grid.data@),
    {
        let ghost n = resolution as int;
        proof {
            lemma_fill_index_carry(0, 0, n);
        }
        let mut voxel_grid: Vec<u32> = Vec::new();
        let mut x: usize = 0;
        while x < resolution
            invariant
                n == resolution,
                x <= resolution,
                accepts_grid(field, resolution),
                voxel_grid@.len() == fill_index(x as int, 0, 0, n),
                filled(field, resolution, voxel_grid@),
            decreases resolution - x,
        {
            let mut y: usize = 0;
            while y < resolution
                invariant
                    n == resolution,
                    x < resolution,
                    y <= resolution,
                    accepts_grid(field, resolution),
                    voxel_grid@.len() == fill_index(x as int, y as int, 0, n),
                    filled(field, resolution, voxel_grid@),
                decreases resolution - y,
            {
                let mut z: usize = 0;
                while z < resolution
                    invariant
                        n == resolution,
                        x < resolution,
                        y < resolution,
                        z <= resolution,
                        accepts_grid(field, resolution),
                        voxel_grid@.len() == fill_index(x as int, y as int, z as int, n),
                        filled(field, resolution, voxel_grid@),
                    decreases resolution - z,
                {
                    let ghost before = voxel_grid@;
                    let sample = field(x, y, z, resolution, NOISE);
                    voxel_grid.push(sample);
                    proof {
                        assert forall|a: usize, b: usize, c: usize|
                            #![trigger fill_index(a as int, b as int, c as int, n)]
                            a < resolution && b < resolution && c < resolution && fill_index(
                                a as int,
                                b as int,
                                c as int,
                                n,
                            ) < voxel_grid@.len() implies call_ensures(
                            field,
                            (a, b, c, resolution, NOISE),
                            voxel_grid@[fill_index(a as int, b as int, c as int, n)],
                        ) by {
                            if fill_index(a as int, b as int, c as int, n) == before.len() {
                                lemma_fill_index_injective(
                                    a as int,
                                    b as int,
                                    c as int,
                                    x as int,
                                    y as int,
                                    z as int,
                                    n,
                                );
                            } else {
                                lemma_fill_index_bounds(a as int, b as int, c as int, n);
                            }
                        }
                    }
                    z += 1;
                }
                proof {
                    lemma_fill_index_carry(x as int, y as int, n);
                }
                y += 1;
            }
            proof {
                lemma_fill_index_carry(x as int, y as int, n);
            }
            x += 1;
        }
        proof {
            lemma_fill_index_carry(x as int, 0, n);
            assert forall|a: usize, b: usize, c: usize|
                #![trigger fill_index(a as int, b as int, c as int, n)]
                a < resolution && b < resolution && c < resolution implies call_ensures(
                field,
                (a, b, c, resolution, NOISE),
                voxel_grid@[fill_index(a as int, b as int, c as int, n)],
            ) by {
                lemma_fill_index_bounds(a as int, b as int, c as int, n);
            }
        }
        Self { data: voxel_grid, resolution }
    }

    /// The grid for the shape of `mesh`, whose positions must be triples of
    /// single-precision numbers.  See [`VoxelGrid::new`].
    pub fn from_mesh<F: Fn(usize, usize, usize, usize, u32) -> u32>(
        mesh: &Mesh,
        resolution: usize,
        field: F,
    ) -> (grid: Self)
        requires
            mesh.position matches Some(VertexAttributeValues::Float32x3(_)),
            cube(resolution as int) <= usize::MAX,
            accepts_grid(field, resolution),
        ensures
            grid.resolution == resolution,
            grid.well_formed(),
            sampled(field, resolution, grid.data@),
    {
        let positions = match &mesh.position {
            Some(VertexAttributeValues::Float32x3(rows)) => rows,
            _ => unreached(),
        };
        VoxelGrid::new(positions.as_slice(), resolution, field)
    }

    /// The grid points in the order in which the grid is filled: entry
    /// `fill_index(x, y, z, resolution)` is `(x, y, z)`.
    pub fn debug(&self) -> (points: Vec<(usize, usize, usize)>)
        requires
            cube(self.resolution as int) <= usize::MAX,
        ensures
            points@.len() == cube(self.resolution as int),
            forall|x: usize, y: usize, z: usize|
                #![trigger fill_index(x as int, y as int, z as int, self.resolution as int)]
                x < self.resolution && y < self.resolution && z < self.resolution ==> points@[fill_index(
                    x as int,
                    y as int,
                    z as int,
                    self.resolution as int,
                )] == (x, y, z),
    {
        let resolution = self.resolution;
        let ghost n = resolution as int;
        let mut points: Vec<(usize, usize, usize)> = Vec::new();
        let mut x: usize = 0;
        proof {
            lemma_fill_index_carry(0, 0, n);
        }
        while x < resolution
            invariant
                n == resolution,
                x <= resolution,
                points@.len() == fill_index(x as int, 0, 0, n),
                visited(resolution, points@),
            decreases resolution - x,
        {
            let mut y: usize = 0;
            while y < resolution
                invariant
                    n == resolution,
                    x < resolution,
                    y <= resolution,
                    points@.len() == fill_index(x as int, y as int, 0, n),
                    visited(resolution, points@),
                decreases resolution - y,
            {
                let mut z: usize = 0;
                while z < resolution
                    invariant
                        n == resolution,
                        x < resolution,
                        y < resolution,
                        z <= resolution,
                        points@.len() == fill_index(x as int, y as int, z as int, n),
                        visited(resolution, points@),
                    decreases resolution - z,
                {
                    let ghost before = points@;
                    points.push((x, y, z));
                    proof {
                        assert forall|a: usize, b: usize, c: usize|
                            #![trigger fill_index(a as int, b as int, c as int, n)]
                            a < resolution && b < resolution && c < resolution && fill_index(
                                a as int,
                                b as int,
                                c as int,
                                n,
                            ) < points@.len() implies points@[fill_index(
                            a as int,
                            b as int,
                            c as int,
                            n,
                        )] == (a, b, c) by {
                            if fill_index(a as int, b as int, c as int, n) == before.len() {
                                lemma_fill_index_injective(
                                    a as int,
                                    b as int,
                                    c as int,
                                    x as int,
                                    y as int,
                                    z as int,
                                    n,
                                );
                            } else {
                                lemma_fill_index_bounds(a as int, b as int, c as int, n);
                            }
                        }
                    }
                    z += 1;
                }
                proof {
                    lemma_fill_index_carry(x as int, y as int, n);
                }
                y += 1;
            }
            proof {
                lemma_fill_index_carry(x as int, y as int, n);
            }
            x += 1;
        }
        proof {
            lemma_fill_index_carry(x as int, 0, n);
            assert forall|a: usize, b: usize, c: usize|
                #![trigger fill_index(a as int, b as int, c as int, n)]
                a < resolution && b < resolution && c < resolution implies points@[fill_index(
                a as int,
                b as int,
                c as int,
                n,
            )] == (a, b, c) by {
                lemma_fill_index_bounds(a as int, b as int, c as int, n);
            }
        }
        points
    }

    /// Whether a read at `(x, y, z)` addresses a sample of the grid.
    pub fn addresses(&self, x: usize, y: usize, z: usize) -> (inside: bool)
        ensures
            inside == (linear_index(x as int, y as int, z as int, self.resolution as int)
                < self.data@.len()),
    {
        let n = self.resolution;
        proof {
            lemma_linear_index_terms(x as int, y as int, z as int, n as int);
            assert(self.data@.len() == self.data.len());
        }
        let layers = match z.checked_mul(n) {
            Some(rows) => match rows.checked_mul(n) {
                Some(layers) => layers,
                None => {
                    return false;
                },
            },
            None => {
                return false;
            },
        };
        let rows = match y.checked_mul(n) {
            Some(rows) => rows,
            None => {
                return false;
            },
        };
        match x.checked_add(rows) {
            Some(sum) => match sum.checked_add(layers) {
                Some(address) => address < self.data.len(),
                None => false,
            },
            None => false,
        }
    }

    /// The sample at the place that `(x, y, z)` addresses, which must lie
    /// inside the sample array.
    pub fn read(&self, x: usize, y: usize, z: usize) -> (sample: u32)
        requires
            linear_index(x as int, y as int, z as int, self.resolution as int) < self.data@.len(),
        ensures
            sample == self.data@[linear_index(
                x as int,
                y as int,
                z as int,
                self.resolution as int,
            )],
    {
        proof {
            lemma_linear_index_terms(x as int, y as int, z as int, self.resolution as int);
            assert(self.data@.len() == self.data.len());
        }
        self.data[x + y * self.resolution + z * self.resolution * self.resolution]
    }

    /// A copy of all samples.
    pub fn read_all(&self) -> (samples: Vec<u32>)
        ensures
            samples@ == self.data@,
    {
        self.data.clone()
    }

    /// Appends a sample.
    pub fn push(&mut self, value: u32)
        ensures
            final(self).data@ == old(self).data@.push(value),
            final(self).resolution == old(self).resolution,
    {
        self.data.push(value);
    }
}

/// Whether every grid point whose place lies inside `samples` has there a
/// value that `field` gives for it.
spec fn filled<F: Fn(usize, usize, usize, usize, u32) -> u32>(
    field: F,
    resolution: usize,
    samples: Seq<u32>,
) -> bool {
    forall|x: usize, y: usize, z: usize|
        #![trigger fill_index(x as int, y as int, z as int, resolution as int)]
        x < resolution && y < resolution && z < resolution && fill_index(
            x as int,
            y as int,
            z as int,
            resolution as int,
        ) < samples.len() ==> call_ensures(
            field,
            (x, y, z, resolution, NOISE),
            samples[fill_index(x as int, y as int, z as int, resolution as int)],
        )
}

/// Whether every grid point whose place lies inside `points` stands there.
spec fn visited(resolution: usize, points: Seq<(usize, usize, usize)>) -> bool {
    forall|x: usize, y: usize, z: usize|
        #![trigger fill_index(x as int, y as int, z as int, resolution as int)]
        x < resolution && y < resolution && z < resolution && fill_index(
            x as int,
            y as int,
            z as int,
            resolution as int,
        ) < points.len() ==> points[fill_index(x as int, y as int, z as int, resolution as int)] == (
            x,
            y,
            z,
        )
}

} // verus!
