use vstd::prelude::*;
use vstd::pervasive::unreached;

verus! {

/// How the vertices of a mesh are assembled into primitives.
#[derive(Clone, Copy, Debug, PartialEq, Eq, Structural)]
pub enum PrimitiveTopology {
    PointList,
    LineList,
    LineStrip,
    TriangleList,
    TriangleStrip,
}

/// The bit pattern of the single-precision number one.
pub const ONE: u32 = 0x3F80_0000;

/// One number of a table or of a vertex attribute.
#[derive(Clone, Copy, Debug, PartialEq, Eq, Structural)]
pub enum Scalar {
    /// A single-precision number, as its IEEE 754 bit pattern.
    Float32(u32),
    /// An integer.
    Integer(i64),
}

/// An integer type that a vertex attribute stores.
pub trait Lane: Copy {
    /// The number as a table scalar.
    spec fn scalar(self) -> Scalar;

    /// Widens the number to a table scalar.
    fn to_scalar(self) -> (s: Scalar)
        ensures
            s == self.scalar(),
    ;
}

impl Lane for i8 {
    open spec fn scalar(self) -> Scalar {
        Scalar::Integer(self as i64)
    }

    fn to_scalar(self) -> (s: Scalar) {
        Scalar::Integer(self as i64)
    }
}

impl Lane for u8 {
    open spec fn scalar(self) -> Scalar {
        Scalar::Integer(self as i64)
    }

    fn to_scalar(self) -> (s: Scalar) {
        Scalar::Integer(self as i64)
    }
}

impl Lane for i16 {
    open spec fn scalar(self) -> Scalar {
        Scalar::Integer(self as i64)
    }

    fn to_scalar(self) -> (s: Scalar) {
        Scalar::Integer(self as i64)
    }
}

impl Lane for u16 {
    open spec fn scalar(self) -> Scalar {
        Scalar::Integer(self as i64)
    }

    fn to_scalar(self) -> (s: Scalar) {
        Scalar::Integer(self as i64)
    }
}

impl Lane for i32 {
    open spec fn scalar(self) -> Scalar {
        Scalar::Integer(self as i64)
    }

    fn to_scalar(self) -> (s: Scalar) {
        Scalar::Integer(self as i64)
    }
}

impl Lane for u32 {
    open spec fn scalar(self) -> Scalar {
        Scalar::Integer(self as i64)
    }

    fn to_scalar(self) -> (s: Scalar) {
        Scalar::Integer(self as i64)
    }
}

/// The rows of an attribute whose entries are short vectors of integers.
pub open spec fn integer_rows<T: Lane, const N: usize>(values: Seq<[T; N]>) -> Seq<Seq<Scalar>> {
    Seq::new(values.len(), |j: int| Seq::new(N as nat, |k: int| values[j][k].scalar()))
}

/// The rows of an attribute whose entries are single integers.
pub open spec fn integer_cells<T: Lane>(values: Seq<T>) -> Seq<Seq<Scalar>> {
    Seq::new(values.len(), |j: int| seq![values[j].scalar()])
}

/// The rows of an attribute whose entries are short vectors of
/// single-precision bit patterns.
pub open spec fn float_rows<const N: usize>(values: Seq<[u32; N]>) -> Seq<Seq<Scalar>> {
    Seq::new(values.len(), |j: int| Seq::new(N as nat, |k: int| Scalar::Float32(values[j][k])))
}

/// The rows of an attribute whose entries are single bit patterns of
/// single-precision numbers.
pub open spec fn float_cells(values: Seq<u32>) -> Seq<Seq<Scalar>> {
    Seq::new(values.len(), |j: int| seq![Scalar::Float32(values[j])])
}

/// The layout of the entries of a vertex attribute.
#[derive(Clone, Copy, Debug, PartialEq, Eq, Structural)]
pub enum VertexFormat {
    Float32,
    Sint32,
    Uint32,
    Float32x2,
    Sint32x2,
    Uint32x2,
    Float32x3,
    Sint32x3,
    Uint32x3,
    Float32x4,
    Sint32x4,
    Uint32x4,
    Sint16x2,
    Snorm16x2,
    Uint16x2,
    Unorm16x2,
    Sint16x4,
    Snorm16x4,
    Uint16x4,
    Unorm16x4,
    Sint8x2,
    Snorm8x2,
    Uint8x2,
    Unorm8x2,
    Sint8x4,
    Snorm8x4,
    Uint8x4,
    Unorm8x4,
}

impl VertexFormat {
    /// How many scalars one entry holds: 1, 2, 3 or 4.
    pub open spec fn spec_components(self) -> nat {
        match self {
            VertexFormat::Float32
            | VertexFormat::Sint32
            | VertexFormat::Uint32 => 1,
            VertexFormat::Float32x2
            | VertexFormat::Sint32x2
            | VertexFormat::Uint32x2
            | VertexFormat::Sint16x2
            | VertexFormat::Snorm16x2
            | VertexFormat::Uint16x2
            | VertexFormat::Unorm16x2
            | VertexFormat::Sint8x2
            | VertexFormat::Snorm8x2
            | VertexFormat::Uint8x2
            | VertexFormat::Unorm8x2 => 2,
            VertexFormat::Float32x3
            | VertexFormat::Sint32x3
            | VertexFormat::Uint32x3 => 3,
            VertexFormat::Float32x4
            | VertexFormat::Sint32x4
            | VertexFormat::Uint32x4
            | VertexFormat::Sint16x4
            | VertexFormat::Snorm16x4
            | VertexFormat::Uint16x4
            | VertexFormat::Unorm16x4
            | VertexFormat::Sint8x4
            | VertexFormat::Snorm8x4
            | VertexFormat::Uint8x4
            | VertexFormat::Unorm8x4 => 4,
        }
    }

    /// How many scalars one entry holds: 1, 2, 3 or 4.
    pub fn components(self) -> (n: usize)
        ensures
            n == self.spec_components(),
            1 <= n <= 4,
    {
        match self {
            VertexFormat::Float32
            | VertexFormat::Sint32
            | VertexFormat::Uint32 => 1,
            VertexFormat::Float32x2
            | VertexFormat::Sint32x2
            | VertexFormat::Uint32x2
            | VertexFormat::Sint16x2
            | VertexFormat::Snorm16x2
            | VertexFormat::Uint16x2
            | VertexFormat::Unorm16x2
            | VertexFormat::Sint8x2
            | VertexFormat::Snorm8x2
            | VertexFormat::Uint8x2
            | VertexFormat::Unorm8x2 => 2,
            VertexFormat::Float32x3
            | VertexFormat::Sint32x3
            | VertexFormat::Uint32x3 => 3,
            VertexFormat::Float32x4
            | VertexFormat::Sint32x4
            | VertexFormat::Uint32x4
            | VertexFormat::Sint16x4
            | VertexFormat::Snorm16x4
            | VertexFormat::Uint16x4
            | VertexFormat::Unorm16x4
            | VertexFormat::Sint8x4
            | VertexFormat::Snorm8x4
            | VertexFormat::Uint8x4
            | VertexFormat::Unorm8x4 => 4,
        }
    }
}

/// The mathematical content of a vertex attribute: its format and, for each
/// vertex, the scalars of its entry.
pub struct AttributeView {
    pub format: VertexFormat,
    pub rows: Seq<Seq<Scalar>>,
}

/// The values of one vertex attribute: one entry per vertex, each entry a
/// scalar or a short vector in one of the formats a renderer accepts.
///
/// Entries of the `Float32` formats hold IEEE 754 single-precision bit
/// patterns.  The normalised formats (`Snorm`, `Unorm`) hold the raw integers.
#[derive(Debug, PartialEq, Eq)]
pub enum VertexAttributeValues {
    Float32(Vec<u32>),
    Sint32(Vec<i32>),
    Uint32(Vec<u32>),
    Float32x2(Vec<[u32; 2]>),
    Sint32x2(Vec<[i32; 2]>),
    Uint32x2(Vec<[u32; 2]>),
    Float32x3(Vec<[u32; 3]>),
    Sint32x3(Vec<[i32; 3]>),
    Uint32x3(Vec<[u32; 3]>),
    Float32x4(Vec<[u32; 4]>),
    Sint32x4(Vec<[i32; 4]>),
    Uint32x4(Vec<[u32; 4]>),
    Sint16x2(Vec<[i16; 2]>),
    Snorm16x2(Vec<[i16; 2]>),
    Uint16x2(Vec<[u16; 2]>),
    Unorm16x2(Vec<[u16; 2]>),
    Sint16x4(Vec<[i16; 4]>),
    Snorm16x4(Vec<[i16; 4]>),
    Uint16x4(Vec<[u16; 4]>),
    Unorm16x4(Vec<[u16; 4]>),
    Sint8x2(Vec<[i8; 2]>),
    Snorm8x2(Vec<[i8; 2]>),
    Uint8x2(Vec<[u8; 2]>),
    Unorm8x2(Vec<[u8; 2]>),
    Sint8x4(Vec<[i8; 4]>),
    Snorm8x4(Vec<[i8; 4]>),
    Uint8x4(Vec<[u8; 4]>),
    Unorm8x4(Vec<[u8; 4]>),
}

impl View for VertexAttributeValues {
    type V = AttributeView;

    open spec fn view(&self) -> AttributeView {
        match self {
            VertexAttributeValues::Float32(values) => AttributeView {
                format: VertexFormat::Float32,
                rows: float_cells(values@),
            },
            VertexAttributeValues::Sint32(values) => AttributeView {
                format: VertexFormat::Sint32,
                rows: integer_cells(values@),
            },
            VertexAttributeValues::Uint32(values) => AttributeView {
                format: VertexFormat::Uint32,
                rows: integer_cells(values@),
            },
            VertexAttributeValues::Float32x2(values) => AttributeView {
                format: VertexFormat::Float32x2,
                rows: float_rows(values@),
            },
            VertexAttributeValues::Sint32x2(values) => AttributeView {
                format: VertexFormat::Sint32x2,
                rows: integer_rows(values@),
            },
            VertexAttributeValues::Uint32x2(values) => AttributeView {
                format: VertexFormat::Uint32x2,
                rows: integer_rows(values@),
            },
            VertexAttributeValues::Float32x3(values) => AttributeView {
                format: VertexFormat::Float32x3,
                rows: float_rows(values@),
            },
            VertexAttributeValues::Sint32x3(values) => AttributeView {
                format: VertexFormat::Sint32x3,
                rows: integer_rows(values@),
            },
            VertexAttributeValues::Uint32x3(values) => AttributeView {
                format: VertexFormat::Uint32x3,
                rows: integer_rows(values@),
            },
            VertexAttributeValues::Float32x4(values) => AttributeView {
                format: VertexFormat::Float32x4,
                rows: float_rows(values@),
            },
            VertexAttributeValues::Sint32x4(values) => AttributeView {
                format: VertexFormat::Sint32x4,
                rows: integer_rows(values@),
            },
            VertexAttributeValues::Uint32x4(values) => AttributeView {
                format: VertexFormat::Uint32x4,
                rows: integer_rows(values@),
            },
            VertexAttributeValues::Sint16x2(values) => AttributeView {
                format: VertexFormat::Sint16x2,
                rows: integer_rows(values@),
            },
            VertexAttributeValues::Snorm16x2(values) => AttributeView {
                format: VertexFormat::Snorm16x2,
                rows: integer_rows(values@),
            },
            VertexAttributeValues::Uint16x2(values) => AttributeView {
                format: VertexFormat::Uint16x2,
                rows: integer_rows(values@),
            },
            VertexAttributeValues::Unorm16x2(values) => AttributeView {
                format: VertexFormat::Unorm16x2,
                rows: integer_rows(values@),
            },
            VertexAttributeValues::Sint16x4(values) => AttributeView {
                format: VertexFormat::Sint16x4,
                rows: integer_rows(values@),
            },
            VertexAttributeValues::Snorm16x4(values) => AttributeView {
                format: VertexFormat::Snorm16x4,
                rows: integer_rows(values@),
            },
            VertexAttributeValues::Uint16x4(values) => AttributeView {
                format: VertexFormat::Uint16x4,
                rows: integer_rows(values@),
            },
            VertexAttributeValues::Unorm16x4(values) => AttributeView {
                format: VertexFormat::Unorm16x4,
                rows: integer_rows(values@),
            },
            VertexAttributeValues::Sint8x2(values) => AttributeView {
                format: VertexFormat::Sint8x2,
                rows: integer_rows(values@),
            },
            VertexAttributeValues::Snorm8x2(values) => AttributeView {
                format: VertexFormat::Snorm8x2,
                rows: integer_rows(values@),
            },
            VertexAttributeValues::Uint8x2(values) => AttributeView {
                format: VertexFormat::Uint8x2,
                rows: integer_rows(values@),
            },
            VertexAttributeValues::Unorm8x2(values) => AttributeView {
                format: VertexFormat::Unorm8x2,
                rows: integer_rows(values@),
            },
            VertexAttributeValues::Sint8x4(values) => AttributeView {
                format: VertexFormat::Sint8x4,
                rows: integer_rows(values@),
            },
            VertexAttributeValues::Snorm8x4(values) => AttributeView {
                format: VertexFormat::Snorm8x4,
                rows: integer_rows(values@),
            },
            VertexAttributeValues::Uint8x4(values) => AttributeView {
                format: VertexFormat::Uint8x4,
                rows: integer_rows(values@),
            },
            VertexAttributeValues::Unorm8x4(values) => AttributeView {
                format: VertexFormat::Unorm8x4,
                rows: integer_rows(values@),
            },
        }
    }
}

impl VertexAttributeValues {
    /// The layout of the entries.
    pub fn format(&self) -> (format: VertexFormat)
        ensures
            format == self@.format,
    {
        match self {
            VertexAttributeValues::Float32(_) => VertexFormat::Float32,
            VertexAttributeValues::Sint32(_) => VertexFormat::Sint32,
            VertexAttributeValues::Uint32(_) => VertexFormat::Uint32,
            VertexAttributeValues::Float32x2(_) => VertexFormat::Float32x2,
            VertexAttributeValues::Sint32x2(_) => VertexFormat::Sint32x2,
            VertexAttributeValues::Uint32x2(_) => VertexFormat::Uint32x2,
            VertexAttributeValues::Float32x3(_) => VertexFormat::Float32x3,
            VertexAttributeValues::Sint32x3(_) => VertexFormat::Sint32x3,
            VertexAttributeValues::Uint32x3(_) => VertexFormat::Uint32x3,
            VertexAttributeValues::Float32x4(_) => VertexFormat::Float32x4,
            VertexAttributeValues::Sint32x4(_) => VertexFormat::Sint32x4,
            VertexAttributeValues::Uint32x4(_) => VertexFormat::Uint32x4,
            VertexAttributeValues::Sint16x2(_) => VertexFormat::Sint16x2,
            VertexAttributeValues::Snorm16x2(_) => VertexFormat::Snorm16x2,
            VertexAttributeValues::Uint16x2(_) => VertexFormat::Uint16x2,
            VertexAttributeValues::Unorm16x2(_) => VertexFormat::Unorm16x2,
            VertexAttributeValues::Sint16x4(_) => VertexFormat::Sint16x4,
            VertexAttributeValues::Snorm16x4(_) => VertexFormat::Snorm16x4,
            VertexAttributeValues::Uint16x4(_) => VertexFormat::Uint16x4,
            VertexAttributeValues::Unorm16x4(_) => VertexFormat::Unorm16x4,
            VertexAttributeValues::Sint8x2(_) => VertexFormat::Sint8x2,
            VertexAttributeValues::Snorm8x2(_) => VertexFormat::Snorm8x2,
            VertexAttributeValues::Uint8x2(_) => VertexFormat::Uint8x2,
            VertexAttributeValues::Unorm8x2(_) => VertexFormat::Unorm8x2,
            VertexAttributeValues::Sint8x4(_) => VertexFormat::Sint8x4,
            VertexAttributeValues::Snorm8x4(_) => VertexFormat::Snorm8x4,
            VertexAttributeValues::Uint8x4(_) => VertexFormat::Uint8x4,
            VertexAttributeValues::Unorm8x4(_) => VertexFormat::Unorm8x4,
        }
    }

    /// The number of entries, one per vertex.
    pub fn len(&self) -> (n: usize)
        ensures
            n == self@.rows.len(),
    {
        match self {
            VertexAttributeValues::Float32(values) => values.len(),
            VertexAttributeValues::Sint32(values) => values.len(),
            VertexAttributeValues::Uint32(values) => values.len(),
            VertexAttributeValues::Float32x2(values) => values.len(),
            VertexAttributeValues::Sint32x2(values) => values.len(),
            VertexAttributeValues::Uint32x2(values) => values.len(),
            VertexAttributeValues::Float32x3(values) => values.len(),
            VertexAttributeValues::Sint32x3(values) => values.len(),
            VertexAttributeValues::Uint32x3(values) => values.len(),
            VertexAttributeValues::Float32x4(values) => values.len(),
            VertexAttributeValues::Sint32x4(values) => values.len(),
            VertexAttributeValues::Uint32x4(values) => values.len(),
            VertexAttributeValues::Sint16x2(values) => values.len(),
            VertexAttributeValues::Snorm16x2(values) => values.len(),
            VertexAttributeValues::Uint16x2(values) => values.len(),
            VertexAttributeValues::Unorm16x2(values) => values.len(),
            VertexAttributeValues::Sint16x4(values) => values.len(),
            VertexAttributeValues::Snorm16x4(values) => values.len(),
            VertexAttributeValues::Uint16x4(values) => values.len(),
            VertexAttributeValues::Unorm16x4(values) => values.len(),
            VertexAttributeValues::Sint8x2(values) => values.len(),
            VertexAttributeValues::Snorm8x2(values) => values.len(),
            VertexAttributeValues::Uint8x2(values) => values.len(),
            VertexAttributeValues::Unorm8x2(values) => values.len(),
            VertexAttributeValues::Sint8x4(values) => values.len(),
            VertexAttributeValues::Snorm8x4(values) => values.len(),
            VertexAttributeValues::Uint8x4(values) => values.len(),
            VertexAttributeValues::Unorm8x4(values) => values.len(),
        }
    }

    /// The entries, if they are triples of single-precision numbers.
    pub fn as_float3(&self) -> (rows: Option<&Vec<[u32; 3]>>)
        ensures
            match *self {
                VertexAttributeValues::Float32x3(values) => rows == Some(&values),
                _ => rows is None,
            },
    {
        match self {
            VertexAttributeValues::Float32x3(values) => Some(values),
            _ => None,
        }
    }
}

/// Copies a list of fixed-size rows.
pub(crate) fn copy_rows<T: Copy, const N: usize>(rows: &Vec<[T; N]>) -> (copy: Vec<[T; N]>)
    ensures
        copy@ == rows@,
{
    let mut copy: Vec<[T; N]> = Vec::new();
    let mut i: usize = 0;
    while i < rows.len()
        invariant
            i <= rows.len(),
            copy@ == rows@.subrange(0, i as int),
        decreases rows.len() - i,
    {
        copy.push(rows[i]);
        i += 1;
    }
    copy
}

/// Copies two lists into one, the first before the second.
pub(crate) fn join<T: Copy>(first: &Vec<T>, second: &Vec<T>) -> (joined: Vec<T>)
    ensures
        joined@ == first@ + second@,
{
    let mut joined: Vec<T> = Vec::new();
    let mut i: usize = 0;
    while i < first.len()
        invariant
            i <= first.len(),
            joined@ == first@.subrange(0, i as int),
        decreases first.len() - i,
    {
        joined.push(first[i]);
        i += 1;
    }
    let mut j: usize = 0;
    while j < second.len()
        invariant
            j <= second.len(),
            joined@ == first@ + second@.subrange(0, j as int),
        decreases second.len() - j,
    {
        joined.push(second[j]);
        j += 1;
    }
    assert(second@.subrange(0, second@.len() as int) == second@);
    joined
}

/// The rows of joined entries are the joined rows.
proof fn lemma_integer_rows_joined<T: Lane, const N: usize>(first: Seq<[T; N]>, second: Seq<[T; N]>)
    ensures
        integer_rows(first + second) == integer_rows(first) + integer_rows(second),
{
    assert(integer_rows(first + second) =~~= integer_rows(first) + integer_rows(second));
}

/// The rows of joined entries are the joined rows.
proof fn lemma_integer_cells_joined<T: Lane>(first: Seq<T>, second: Seq<T>)
    ensures
        integer_cells(first + second) == integer_cells(first) + integer_cells(second),
{
    assert(integer_cells(first + second) =~~= integer_cells(first) + integer_cells(second));
}

/// The rows of joined entries are the joined rows.
proof fn lemma_float_rows_joined<const N: usize>(first: Seq<[u32; N]>, second: Seq<[u32; N]>)
    ensures
        float_rows(first + second) == float_rows(first) + float_rows(second),
{
    assert(float_rows(first + second) =~~= float_rows(first) + float_rows(second));
}

/// The rows of joined entries are the joined rows.
proof fn lemma_float_cells_joined(first: Seq<u32>, second: Seq<u32>)
    ensures
        float_cells(first + second) == float_cells(first) + float_cells(second),
{
    assert(float_cells(first + second) =~~= float_cells(first) + float_cells(second));
}

impl AttributeView {
    /// The attribute with the entries of this one followed by those of
    /// `other`, which has the same format.
    pub open spec fn appended(self, other: AttributeView) -> AttributeView {
        AttributeView { format: self.format, rows: self.rows + other.rows }
    }
}

impl VertexAttributeValues {
    /// The attribute with the entries of this one followed by those of
    /// `other`, which must have the same format.
    pub fn appended(&self, other: &VertexAttributeValues) -> (joined: VertexAttributeValues)
        requires
            self@.format == other@.format,
        ensures
            joined@ == self@.appended(other@),
    {
        match (self, other) {
            (VertexAttributeValues::Float32(first), VertexAttributeValues::Float32(second)) => {
                proof {
                    lemma_float_cells_joined(first@, second@);
                }
                VertexAttributeValues::Float32(join(first, second))
            },
            (VertexAttributeValues::Sint32(first), VertexAttributeValues::Sint32(second)) => {
                proof {
                    lemma_integer_cells_joined(first@, second@);
                }
                VertexAttributeValues::Sint32(join(first, second))
            },
            (VertexAttributeValues::Uint32(first), VertexAttributeValues::Uint32(second)) => {
                proof {
                    lemma_integer_cells_joined(first@, second@);
                }
                VertexAttributeValues::Uint32(join(first, second))
            },
            (VertexAttributeValues::Float32x2(first), VertexAttributeValues::Float32x2(second)) => {
                proof {
                    lemma_float_rows_joined(first@, second@);
                }
                VertexAttributeValues::Float32x2(join(first, second))
            },
            (VertexAttributeValues::Sint32x2(first), VertexAttributeValues::Sint32x2(second)) => {
                proof {
                    lemma_integer_rows_joined(first@, second@);
                }
                VertexAttributeValues::Sint32x2(join(first, second))
            },
            (VertexAttributeValues::Uint32x2(first), VertexAttributeValues::Uint32x2(second)) => {
                proof {
                    lemma_integer_rows_joined(first@, second@);
                }
                VertexAttributeValues::Uint32x2(join(first, second))
            },
            (VertexAttributeValues::Float32x3(first), VertexAttributeValues::Float32x3(second)) => {
                proof {
                    lemma_float_rows_joined(first@, second@);
                }
                VertexAttributeValues::Float32x3(join(first, second))
            },
            (VertexAttributeValues::Sint32x3(first), VertexAttributeValues::Sint32x3(second)) => {
                proof {
                    lemma_integer_rows_joined(first@, second@);
                }
                VertexAttributeValues::Sint32x3(join(first, second))
            },
            (VertexAttributeValues::Uint32x3(first), VertexAttributeValues::Uint32x3(second)) => {
                proof {
                    lemma_integer_rows_joined(first@, second@);
                }
                VertexAttributeValues::Uint32x3(join(first, second))
            },
            (VertexAttributeValues::Float32x4(first), VertexAttributeValues::Float32x4(second)) => {
                proof {
                    lemma_float_rows_joined(first@, second@);
                }
                VertexAttributeValues::Float32x4(join(first, second))
            },
            (VertexAttributeValues::Sint32x4(first), VertexAttributeValues::Sint32x4(second)) => {
                proof {
                    lemma_integer_rows_joined(first@, second@);
                }
                VertexAttributeValues::Sint32x4(join(first, second))
            },
            (VertexAttributeValues::Uint32x4(first), VertexAttributeValues::Uint32x4(second)) => {
                proof {
                    lemma_integer_rows_joined(first@, second@);
                }
                VertexAttributeValues::Uint32x4(join(first, second))
            },
            (VertexAttributeValues::Sint16x2(first), VertexAttributeValues::Sint16x2(second)) => {
                proof {
                    lemma_integer_rows_joined(first@, second@);
                }
                VertexAttributeValues::Sint16x2(join(first, second))
            },
            (VertexAttributeValues::Snorm16x2(first), VertexAttributeValues::Snorm16x2(second)) => {
                proof {
                    lemma_integer_rows_joined(first@, second@);
                }
                VertexAttributeValues::Snorm16x2(join(first, second))
            },
            (VertexAttributeValues::Uint16x2(first), VertexAttributeValues::Uint16x2(second)) => {
                proof {
                    lemma_integer_rows_joined(first@, second@);
                }
                VertexAttributeValues::Uint16x2(join(first, second))
            },
            (VertexAttributeValues::Unorm16x2(first), VertexAttributeValues::Unorm16x2(second)) => {
                proof {
                    lemma_integer_rows_joined(first@, second@);
                }
                VertexAttributeValues::Unorm16x2(join(first, second))
            },
            (VertexAttributeValues::Sint16x4(first), VertexAttributeValues::Sint16x4(second)) => {
                proof {
                    lemma_integer_rows_joined(first@, second@);
                }
                VertexAttributeValues::Sint16x4(join(first, second))
            },
            (VertexAttributeValues::Snorm16x4(first), VertexAttributeValues::Snorm16x4(second)) => {
                proof {
                    lemma_integer_rows_joined(first@, second@);
                }
                VertexAttributeValues::Snorm16x4(join(first, second))
            },
            (VertexAttributeValues::Uint16x4(first), VertexAttributeValues::Uint16x4(second)) => {
                proof {
                    lemma_integer_rows_joined(first@, second@);
                }
                VertexAttributeValues::Uint16x4(join(first, second))
            },
            (VertexAttributeValues::Unorm16x4(first), VertexAttributeValues::Unorm16x4(second)) => {
                proof {
                    lemma_integer_rows_joined(first@, second@);
                }
                VertexAttributeValues::Unorm16x4(join(first, second))
            },
            (VertexAttributeValues::Sint8x2(first), VertexAttributeValues::Sint8x2(second)) => {
                proof {
                    lemma_integer_rows_joined(first@, second@);
                }
                VertexAttributeValues::Sint8x2(join(first, second))
            },
            (VertexAttributeValues::Snorm8x2(first), VertexAttributeValues::Snorm8x2(second)) => {
                proof {
                    lemma_integer_rows_joined(first@, second@);
                }
                VertexAttributeValues::Snorm8x2(join(first, second))
            },
            (VertexAttributeValues::Uint8x2(first), VertexAttributeValues::Uint8x2(second)) => {
                proof {
                    lemma_integer_rows_joined(first@, second@);
                }
                VertexAttributeValues::Uint8x2(join(first, second))
            },
            (VertexAttributeValues::Unorm8x2(first), VertexAttributeValues::Unorm8x2(second)) => {
                proof {
                    lemma_integer_rows_joined(first@, second@);
                }
                VertexAttributeValues::Unorm8x2(join(first, second))
            },
            (VertexAttributeValues::Sint8x4(first), VertexAttributeValues::Sint8x4(second)) => {
                proof {
                    lemma_integer_rows_joined(first@, second@);
                }
                VertexAttributeValues::Sint8x4(join(first, second))
            },
            (VertexAttributeValues::Snorm8x4(first), VertexAttributeValues::Snorm8x4(second)) => {
                proof {
                    lemma_integer_rows_joined(first@, second@);
                }
                VertexAttributeValues::Snorm8x4(join(first, second))
            },
            (VertexAttributeValues::Uint8x4(first), VertexAttributeValues::Uint8x4(second)) => {
                proof {
                    lemma_integer_rows_joined(first@, second@);
                }
                VertexAttributeValues::Uint8x4(join(first, second))
            },
            (VertexAttributeValues::Unorm8x4(first), VertexAttributeValues::Unorm8x4(second)) => {
                proof {
                    lemma_integer_rows_joined(first@, second@);
                }
                VertexAttributeValues::Unorm8x4(join(first, second))
            },
            _ => unreached(),
        }
    }
}

impl Clone for VertexAttributeValues {
    fn clone(&self) -> (copy: Self)
        ensures
            copy@ == self@,
    {
        match self {
            VertexAttributeValues::Float32(v) => VertexAttributeValues::Float32(v.clone()),
            VertexAttributeValues::Sint32(v) => VertexAttributeValues::Sint32(v.clone()),
            VertexAttributeValues::Uint32(v) => VertexAttributeValues::Uint32(v.clone()),
            VertexAttributeValues::Float32x2(v) => VertexAttributeValues::Float32x2(copy_rows(v)),
            VertexAttributeValues::Sint32x2(v) => VertexAttributeValues::Sint32x2(copy_rows(v)),
            VertexAttributeValues::Uint32x2(v) => VertexAttributeValues::Uint32x2(copy_rows(v)),
            VertexAttributeValues::Float32x3(v) => VertexAttributeValues::Float32x3(copy_rows(v)),
            VertexAttributeValues::Sint32x3(v) => VertexAttributeValues::Sint32x3(copy_rows(v)),
            VertexAttributeValues::Uint32x3(v) => VertexAttributeValues::Uint32x3(copy_rows(v)),
            VertexAttributeValues::Float32x4(v) => VertexAttributeValues::Float32x4(copy_rows(v)),
            VertexAttributeValues::Sint32x4(v) => VertexAttributeValues::Sint32x4(copy_rows(v)),
            VertexAttributeValues::Uint32x4(v) => VertexAttributeValues::Uint32x4(copy_rows(v)),
            VertexAttributeValues::Sint16x2(v) => VertexAttributeValues::Sint16x2(copy_rows(v)),
            VertexAttributeValues::Snorm16x2(v) => VertexAttributeValues::Snorm16x2(copy_rows(v)),
            VertexAttributeValues::Uint16x2(v) => VertexAttributeValues::Uint16x2(copy_rows(v)),
            VertexAttributeValues::Unorm16x2(v) => VertexAttributeValues::Unorm16x2(copy_rows(v)),
            VertexAttributeValues::Sint16x4(v) => VertexAttributeValues::Sint16x4(copy_rows(v)),
            VertexAttributeValues::Snorm16x4(v) => VertexAttributeValues::Snorm16x4(copy_rows(v)),
            VertexAttributeValues::Uint16x4(v) => VertexAttributeValues::Uint16x4(copy_rows(v)),
            VertexAttributeValues::Unorm16x4(v) => VertexAttributeValues::Unorm16x4(copy_rows(v)),
            VertexAttributeValues::Sint8x2(v) => VertexAttributeValues::Sint8x2(copy_rows(v)),
            VertexAttributeValues::Snorm8x2(v) => VertexAttributeValues::Snorm8x2(copy_rows(v)),
            VertexAttributeValues::Uint8x2(v) => VertexAttributeValues::Uint8x2(copy_rows(v)),
            VertexAttributeValues::Unorm8x2(v) => VertexAttributeValues::Unorm8x2(copy_rows(v)),
            VertexAttributeValues::Sint8x4(v) => VertexAttributeValues::Sint8x4(copy_rows(v)),
            VertexAttributeValues::Snorm8x4(v) => VertexAttributeValues::Snorm8x4(copy_rows(v)),
            VertexAttributeValues::Uint8x4(v) => VertexAttributeValues::Uint8x4(copy_rows(v)),
            VertexAttributeValues::Unorm8x4(v) => VertexAttributeValues::Unorm8x4(copy_rows(v)),
        }
    }
}

/// The mathematical content of a list of vertex indices.
pub enum IndicesView {
    U16(Seq<u16>),
    U32(Seq<u32>),
}

impl IndicesView {
    /// The indices as 32-bit numbers, whatever their stored width.
    pub open spec fn wide(self) -> Seq<u32> {
        match self {
            IndicesView::U16(values) => Seq::new(values.len(), |i: int| values[i] as u32),
            IndicesView::U32(values) => values,
        }
    }
}

/// The vertex indices of a mesh, in one of two widths.
#[derive(Debug, PartialEq, Eq)]
pub enum Indices {
    U16(Vec<u16>),
    U32(Vec<u32>),
}

impl View for Indices {
    type V = IndicesView;

    open spec fn view(&self) -> IndicesView {
        match self {
            Indices::U16(values) => IndicesView::U16(values@),
            Indices::U32(values) => IndicesView::U32(values@),
        }
    }
}

impl Indices {
    /// Widens every index to 32 bits.
    pub fn to_u32(&self) -> (wide: Vec<u32>)
        ensures
            wide@ == self@.wide(),
    {
        match self {
            Indices::U16(values) => {
                let mut wide: Vec<u32> = Vec::new();
                let mut i: usize = 0;
                while i < values.len()
                    invariant
                        i <= values.len(),
                        wide@.len() == i,
                        forall|j: int| 0 <= j < i ==> wide@[j] == values@[j] as u32,
                    decreases values.len() - i,
                {
                    wide.push(values[i] as u32);
                    i += 1;
                }
                wide
            },
            Indices::U32(values) => values.clone(),
        }
    }
}

impl Clone for Indices {
    fn clone(&self) -> (copy: Self)
        ensures
            copy@ == self@,
    {
        match self {
            Indices::U16(values) => Indices::U16(values.clone()),
            Indices::U32(values) => Indices::U32(values.clone()),
        }
    }
}

/// The view of an attribute that may be absent.
pub open spec fn attribute_view(attribute: Option<VertexAttributeValues>) -> Option<AttributeView> {
    match attribute {
        Some(values) => Some(values@),
        None => None,
    }
}

/// The view of indices that may be absent.
pub open spec fn indices_view(indices: Option<Indices>) -> Option<IndicesView> {
    match indices {
        Some(values) => Some(values@),
        None => None,
    }
}

/// Copies an attribute that may be absent.
pub(crate) fn copy_attribute(attribute: &Option<VertexAttributeValues>) -> (copy: Option<
    VertexAttributeValues,
>)
    ensures
        attribute_view(copy) == attribute_view(*attribute),
{
    match attribute {
        Some(values) => Some(values.clone()),
        None => None,
    }
}

/// The mathematical content of a mesh.
pub struct MeshView {
    pub primitive_topology: PrimitiveTopology,
    pub position: Option<AttributeView>,
    pub normal: Option<AttributeView>,
    pub uv_0: Option<AttributeView>,
    pub color: Option<AttributeView>,
    pub indices: Option<IndicesView>,
}

/// A mesh as the geometry code sees it: a topology, the four vertex
/// attributes it works with, and optional vertex indices.
#[derive(Debug, PartialEq, Eq)]
pub struct Mesh {
    pub primitive_topology: PrimitiveTopology,
    /// Vertex positions.
    pub position: Option<VertexAttributeValues>,
    /// Vertex normals.
    pub normal: Option<VertexAttributeValues>,
    /// First set of texture coordinates.
    pub uv_0: Option<VertexAttributeValues>,
    /// Vertex colours.
    pub color: Option<VertexAttributeValues>,
    pub indices: Option<Indices>,
}

impl View for Mesh {
    type V = MeshView;

    open spec fn view(&self) -> MeshView {
        MeshView {
            primitive_topology: self.primitive_topology,
            position: attribute_view(self.position),
            normal: attribute_view(self.normal),
            uv_0: attribute_view(self.uv_0),
            color: attribute_view(self.color),
            indices: indices_view(self.indices),
        }
    }
}

impl Mesh {
    /// The content of a mesh with the given topology and nothing else.
    pub open spec fn empty(primitive_topology: PrimitiveTopology) -> MeshView {
        MeshView {
            primitive_topology,
            position: None,
            normal: None,
            uv_0: None,
            color: None,
            indices: None,
        }
    }

    /// A mesh without attributes and without indices.
    pub fn new(primitive_topology: PrimitiveTopology) -> (mesh: Mesh)
        ensures
            mesh@ == Self::empty(primitive_topology),
            mesh.position is None,
            mesh.normal is None,
            mesh.uv_0 is None,
            mesh.color is None,
            mesh.indices is None,
    {
        Mesh {
            primitive_topology,
            position: None,
            normal: None,
            uv_0: None,
            color: None,
            indices: None,
        }
    }
}

impl Clone for Mesh {
    fn clone(&self) -> (copy: Self)
        ensures
            copy@ == self@,
    {
        Mesh {
            primitive_topology: self.primitive_topology,
            position: copy_attribute(&self.position),
            normal: copy_attribute(&self.normal),
            uv_0: copy_attribute(&self.uv_0),
            color: copy_attribute(&self.color),
            indices: match &self.indices {
                Some(indices) => Some(indices.clone()),
                None => None,
            },
        }
    }
}

} // verus!
