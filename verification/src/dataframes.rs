use vstd::prelude::*;
use vstd::pervasive::unreached;
use vstd::string::StringExecFns;

use crate::error::GeoNodeError;
use crate::mesh::{
    float_cells, float_rows, integer_cells, integer_rows, AttributeView, Lane, Mesh,
    PrimitiveTopology, Scalar, VertexAttributeValues,
};

verus! {

/// The mathematical content of a column: its name and its cells.
pub struct ColumnView {
    pub name: Seq<char>,
    pub values: Seq<Scalar>,
}

/// A named column of numbers.
#[derive(Debug, PartialEq, Eq)]
pub struct Column {
    pub name: String,
    pub values: Vec<Scalar>,
}

impl View for Column {
    type V = ColumnView;

    open spec fn view(&self) -> ColumnView {
        ColumnView { name: self.name@, values: self.values@ }
    }
}

/// The contents of a list of columns.
pub open spec fn column_views(columns: Seq<Column>) -> Seq<ColumnView> {
    Seq::new(columns.len(), |k: int| columns[k]@)
}

/// The columns of a mesh, in the order in which a table of the table
/// engine is to receive them.
///
/// This is a list and no more: whether the columns fit together is for the
/// engine to say when they are loaded, see [`load`].
#[derive(Debug, PartialEq, Eq)]
pub struct Table {
    pub columns: Vec<Column>,
}

impl View for Table {
    type V = Seq<ColumnView>;

    open spec fn view(&self) -> Seq<ColumnView> {
        column_views(self.columns@)
    }
}

/// The decimal digit for a component index below four.
pub open spec fn component_digit(k: int) -> char {
    if k == 0 {
        '0'
    } else if k == 1 {
        '1'
    } else if k == 2 {
        '2'
    } else {
        '3'
    }
}

/// The name of the column for component `k` of the attribute called `name`:
/// the name, an underscore, and the index.
pub open spec fn column_name(name: Seq<char>, k: int) -> Seq<char> {
    name + seq!['_', component_digit(k)]
}

/// The column for component `k` of the given rows: cell `j` is scalar `k`
/// of row `j`.
pub open spec fn column(rows: Seq<Seq<Scalar>>, name: Seq<char>, k: int) -> ColumnView {
    ColumnView { name: column_name(name, k), values: Seq::new(rows.len(), |j: int| rows[j][k]) }
}

/// The `n` columns of rows with `n` scalars each.
pub open spec fn columns_of_rows(rows: Seq<Seq<Scalar>>, n: nat, name: Seq<char>) -> Seq<
    ColumnView,
> {
    Seq::new(n, |k: int| column(rows, name, k))
}

/// The columns that an attribute flattens into, one per component.
pub open spec fn columns(attribute: AttributeView, name: Seq<char>) -> Seq<ColumnView> {
    columns_of_rows(attribute.rows, attribute.format.spec_components(), name)
}

/// Builds the name of the column for component `k`.
fn make_column_name(name: &str, k: usize) -> (text: String)
    requires
        k < 4,
    ensures
        text@ == column_name(name@, k as int),
{
    let mut text = String::from_str(name);
    text.append("_");
    let digit = if k == 0 {
        "0"
    } else if k == 1 {
        "1"
    } else if k == 2 {
        "2"
    } else {
        "3"
    };
    text.append(digit);
    proof {
        reveal_strlit("_");
        reveal_strlit("0");
        reveal_strlit("1");
        reveal_strlit("2");
        reveal_strlit("3");
        assert(text@ =~= column_name(name@, k as int));
    }
    text
}

/// Flattens entries that are short vectors of integers.
fn integer_columns<T: Lane, const N: usize>(name: &str, values: &Vec<[T; N]>) -> (series: Vec<
    Column,
>)
    requires
        1 <= N <= 4,
    ensures
        column_views(series@) == columns_of_rows(integer_rows(values@), N as nat, name@),
{
    let mut series: Vec<Column> = Vec::new();
    let mut k: usize = 0;
    while k < N
        invariant
            k <= N <= 4,
            series@.len() == k,
            forall|i: int|
                0 <= i < k ==> (#[trigger] series@[i])@ == column(integer_rows(values@), name@, i),
        decreases N - k,
    {
        let mut cells: Vec<Scalar> = Vec::new();
        let mut j: usize = 0;
        while j < values.len()
            invariant
                k < N,
                j <= values.len(),
                cells@.len() == j,
                forall|i: int| 0 <= i < j ==> cells@[i] == (#[trigger] values@[i])[k as int].scalar(),
            decreases values.len() - j,
        {
            let row = values[j];
            cells.push(row[k].to_scalar());
            j += 1;
        }
        let one = Column { name: make_column_name(name, k), values: cells };
        assert(one@.values =~= column(integer_rows(values@), name@, k as int).values);
        series.push(one);
        k += 1;
    }
    assert(column_views(series@) =~= columns_of_rows(integer_rows(values@), N as nat, name@));
    series
}

/// Flattens entries that are short vectors of single-precision bit patterns.
fn float_columns<const N: usize>(name: &str, values: &Vec<[u32; N]>) -> (series: Vec<Column>)
    requires
        1 <= N <= 4,
    ensures
        column_views(series@) == columns_of_rows(float_rows(values@), N as nat, name@),
{
    let mut series: Vec<Column> = Vec::new();
    let mut k: usize = 0;
    while k < N
        invariant
            k <= N <= 4,
            series@.len() == k,
            forall|i: int|
                0 <= i < k ==> (#[trigger] series@[i])@ == column(float_rows(values@), name@, i),
        decreases N - k,
    {
        let mut cells: Vec<Scalar> = Vec::new();
        let mut j: usize = 0;
        while j < values.len()
            invariant
                k < N,
                j <= values.len(),
                cells@.len() == j,
                forall|i: int|
                    0 <= i < j ==> cells@[i] == Scalar::Float32((#[trigger] values@[i])[k as int]),
            decreases values.len() - j,
        {
            let row = values[j];
            cells.push(Scalar::Float32(row[k]));
            j += 1;
        }
        let one = Column { name: make_column_name(name, k), values: cells };
        assert(one@.values =~= column(float_rows(values@), name@, k as int).values);
        series.push(one);
        k += 1;
    }
    assert(column_views(series@) =~= columns_of_rows(float_rows(values@), N as nat, name@));
    series
}

/// Flattens entries that are single integers.
fn integer_column<T: Lane>(name: &str, values: &Vec<T>) -> (series: Vec<Column>)
    ensures
        column_views(series@) == columns_of_rows(integer_cells(values@), 1, name@),
{
    let mut cells: Vec<Scalar> = Vec::new();
    let mut j: usize = 0;
    while j < values.len()
        invariant
            j <= values.len(),
            cells@.len() == j,
            forall|i: int| 0 <= i < j ==> cells@[i] == (#[trigger] values@[i]).scalar(),
        decreases values.len() - j,
    {
        cells.push(values[j].to_scalar());
        j += 1;
    }
    let one = Column { name: make_column_name(name, 0), values: cells };
    assert(one@.values =~= column(integer_cells(values@), name@, 0).values);
    let mut series: Vec<Column> = Vec::new();
    series.push(one);
    assert(column_views(series@) =~= columns_of_rows(integer_cells(values@), 1, name@));
    series
}

/// Flattens entries that are single bit patterns of single-precision numbers.
fn float_column(name: &str, values: &Vec<u32>) -> (series: Vec<Column>)
    ensures
        column_views(series@) == columns_of_rows(float_cells(values@), 1, name@),
{
    let mut cells: Vec<Scalar> = Vec::new();
    let mut j: usize = 0;
    while j < values.len()
        invariant
            j <= values.len(),
            cells@.len() == j,
            forall|i: int| 0 <= i < j ==> cells@[i] == Scalar::Float32(#[trigger] values@[i]),
        decreases values.len() - j,
    {
        cells.push(Scalar::Float32(values[j]));
        j += 1;
    }
    let one = Column { name: make_column_name(name, 0), values: cells };
    assert(one@.values =~= column(float_cells(values@), name@, 0).values);
    let mut series: Vec<Column> = Vec::new();
    series.push(one);
    assert(column_views(series@) =~= columns_of_rows(float_cells(values@), 1, name@));
    series
}

/// Flattening of a vertex attribute into columns, one per component.
///
/// `as_series1` to `as_series4` each serve the attributes whose entries have
/// that many components and refuse the others.
pub trait ToSeries {
    fn as_series1(&self, name: &str) -> Result<Vec<Column>, GeoNodeError>;

    fn as_series2(&self, name: &str) -> Result<Vec<Column>, GeoNodeError>;

    fn as_series3(&self, name: &str) -> Result<Vec<Column>, GeoNodeError>;

    fn as_series4(&self, name: &str) -> Result<Vec<Column>, GeoNodeError>;
}

/// What flattening into `n` columns gives: the columns of the attribute if
/// its entries have `n` components, else the error of a mismatched layout.
pub open spec fn flattened(
    attribute: AttributeView,
    n: nat,
    name: Seq<char>,
    result: Result<Vec<Column>, GeoNodeError>,
) -> bool {
    if attribute.format.spec_components() == n {
        result matches Ok(series) && column_views(series@) == columns(attribute, name)
    } else {
        result == Err::<Vec<Column>, GeoNodeError>(GeoNodeError::DataframeFromMeshError)
    }
}

impl ToSeries for VertexAttributeValues {
    fn as_series1(&self, name: &str) -> (result: Result<Vec<Column>, GeoNodeError>)
        ensures
            flattened(self@, 1, name@, result),
    {
        match self {
            VertexAttributeValues::Float32(values) => Ok(float_column(name, values)),
            VertexAttributeValues::Sint32(values) => Ok(integer_column(name, values)),
            VertexAttributeValues::Uint32(values) => Ok(integer_column(name, values)),
            _ => Err(GeoNodeError::DataframeFromMeshError),
        }
    }

    fn as_series2(&self, name: &str) -> (result: Result<Vec<Column>, GeoNodeError>)
        ensures
            flattened(self@, 2, name@, result),
    {
        match self {
            VertexAttributeValues::Float32x2(values) => Ok(float_columns(name, values)),
            VertexAttributeValues::Sint32x2(values) => Ok(integer_columns(name, values)),
            VertexAttributeValues::Uint32x2(values) => Ok(integer_columns(name, values)),
            VertexAttributeValues::Sint8x2(values) => Ok(integer_columns(name, values)),
            VertexAttributeValues::Snorm8x2(values) => Ok(integer_columns(name, values)),
            VertexAttributeValues::Uint8x2(values) => Ok(integer_columns(name, values)),
            VertexAttributeValues::Unorm8x2(values) => Ok(integer_columns(name, values)),
            VertexAttributeValues::Sint16x2(values) => Ok(integer_columns(name, values)),
            VertexAttributeValues::Snorm16x2(values) => Ok(integer_columns(name, values)),
            VertexAttributeValues::Uint16x2(values) => Ok(integer_columns(name, values)),
            VertexAttributeValues::Unorm16x2(values) => Ok(integer_columns(name, values)),
            _ => Err(GeoNodeError::DataframeFromMeshError),
        }
    }

    fn as_series3(&self, name: &str) -> (result: Result<Vec<Column>, GeoNodeError>)
        ensures
            flattened(self@, 3, name@, result),
    {
        match self {
            VertexAttributeValues::Float32x3(values) => Ok(float_columns(name, values)),
            VertexAttributeValues::Sint32x3(values) => Ok(integer_columns(name, values)),
            VertexAttributeValues::Uint32x3(values) => Ok(integer_columns(name, values)),
            _ => Err(GeoNodeError::DataframeFromMeshError),
        }
    }

    fn as_series4(&self, name: &str) -> (result: Result<Vec<Column>, GeoNodeError>)
        ensures
            flattened(self@, 4, name@, result),
    {
        match self {
            VertexAttributeValues::Float32x4(values) => Ok(float_columns(name, values)),
            VertexAttributeValues::Sint32x4(values) => Ok(integer_columns(name, values)),
            VertexAttributeValues::Uint32x4(values) => Ok(integer_columns(name, values)),
            VertexAttributeValues::Sint16x4(values) => Ok(integer_columns(name, values)),
            VertexAttributeValues::Snorm16x4(values) => Ok(integer_columns(name, values)),
            VertexAttributeValues::Uint16x4(values) => Ok(integer_columns(name, values)),
            VertexAttributeValues::Unorm16x4(values) => Ok(integer_columns(name, values)),
            VertexAttributeValues::Sint8x4(values) => Ok(integer_columns(name, values)),
            VertexAttributeValues::Snorm8x4(values) => Ok(integer_columns(name, values)),
            VertexAttributeValues::Uint8x4(values) => Ok(integer_columns(name, values)),
            VertexAttributeValues::Unorm8x4(values) => Ok(integer_columns(name, values)),
            _ => Err(GeoNodeError::DataframeFromMeshError),
        }
    }
}

/// Flattening of a whole value into a table.
pub trait ToDataframe {
    /// Whether the value holds what the table is made from.
    spec fn has_dataframe(&self) -> bool;

    fn to_dataframe(&self) -> Result<Table, GeoNodeError>
        requires
            self.has_dataframe(),
    ;
}

/// The columns of a mesh: three for the positions, three for the normals,
/// two for the texture coordinates, in this order.
pub open spec fn mesh_columns(mesh: Mesh) -> Seq<ColumnView> {
    columns(mesh.position->0@, "position"@) + columns(mesh.normal->0@, "normal"@) + columns(
        mesh.uv_0->0@,
        "uv"@,
    )
}

/// Whether the attributes of a mesh have the layouts that its columns need:
/// three components for positions and normals, two for texture coordinates.
pub open spec fn mesh_flattens(mesh: Mesh) -> bool {
    &&& mesh.uv_0->0@.format.spec_components() == 2
    &&& mesh.position->0@.format.spec_components() == 3
    &&& mesh.normal->0@.format.spec_components() == 3
}

/// What flattening a mesh gives.  A mesh without texture coordinates has no
/// `uv` columns to give; one with an attribute of another layout than its
/// columns need cannot be flattened; any other mesh gives its columns.
pub open spec fn mesh_flattened(mesh: Mesh, result: Result<Table, GeoNodeError>) -> bool {
    if mesh.uv_0 is None {
        result matches Err(GeoNodeError::FailedToGetColumnError(column)) && column@ == "uv"@
    } else if mesh_flattens(mesh) {
        result matches Ok(frame) && frame@ == mesh_columns(mesh)
    } else {
        result == Err::<Table, GeoNodeError>(GeoNodeError::DataframeFromMeshError)
    }
}

impl ToDataframe for Mesh {
    /// The mesh has positions and normals.
    open spec fn has_dataframe(&self) -> bool {
        self.position is Some && self.normal is Some
    }

    /// The eight columns of the mesh, or the reason why it has none.
    fn to_dataframe(&self) -> (result: Result<Table, GeoNodeError>)
        ensures
            mesh_flattened(*self, result),
    {
        let positions = match &self.position {
            Some(values) => values,
            None => unreached(),
        };
        let normals = match &self.normal {
            Some(values) => values,
            None => unreached(),
        };
        let uvs = match &self.uv_0 {
            Some(values) => values,
            None => {
                return Err(GeoNodeError::FailedToGetColumnError(String::from_str("uv")));
            },
        };
        let mut uv_columns = match uvs.as_series2("uv") {
            Ok(series) => series,
            Err(error) => {
                return Err(error);
            },
        };
        let mut columns = match positions.as_series3("position") {
            Ok(series) => series,
            Err(error) => {
                return Err(error);
            },
        };
        let mut normal_columns = match normals.as_series3("normal") {
            Ok(series) => series,
            Err(error) => {
                return Err(error);
            },
        };
        let ghost position_columns = columns@;
        let ghost normal_series = normal_columns@;
        let ghost uv_series = uv_columns@;
        columns.append(&mut normal_columns);
        columns.append(&mut uv_columns);
        let frame = Table { columns };
        assert(frame@ =~= column_views(position_columns) + column_views(normal_series)
            + column_views(uv_series));
        Ok(frame)
    }
}

/// What an answer of the table engine means for a conversion: success
/// passes through, and whatever the engine objects to counts as a mesh that
/// cannot be flattened.
pub fn table_outcome<T, E>(outcome: Result<T, E>) -> (result: Result<T, GeoNodeError>)
    ensures
        match outcome {
            Ok(value) => result == Ok::<T, GeoNodeError>(value),
            Err(_) => result == Err::<T, GeoNodeError>(GeoNodeError::DataframeFromMeshError),
        },
{
    match outcome {
        Ok(value) => Ok(value),
        Err(_) => Err(GeoNodeError::DataframeFromMeshError),
    }
}

/// A column of the table engine, `polars::prelude::Series`.
#[verifier::external_type_specification]
#[verifier::external_body]
pub struct ExSeries(polars::prelude::Series);

/// A table of the table engine, `polars::prelude::DataFrame`.
#[verifier::external_type_specification]
#[verifier::external_body]
pub struct ExDataFrame(polars::prelude::DataFrame);

/// An objection of the table engine, `polars::prelude::PolarsError`.
#[verifier::external_type_specification]
#[verifier::external_body]
pub struct ExPolarsError(polars::prelude::PolarsError);

/// The name of a column of the table engine.
pub uninterp spec fn series_name(series: polars::prelude::Series) -> Seq<char>;

/// The number of cells of a column of the table engine.
pub uninterp spec fn series_len(series: polars::prelude::Series) -> nat;

/// The columns of a table of the table engine, from first to last: of each
/// its name and its number of cells.
pub uninterp spec fn frame_columns(frame: polars::prelude::DataFrame) -> Seq<(Seq<char>, nat)>;

/// The number of rows of a table with the given columns: the length of its
/// first column, and nothing for a table without columns.
pub open spec fn frame_height(columns: Seq<(Seq<char>, nat)>) -> nat {
    if columns.len() == 0 {
        0
    } else {
        columns[0].1
    }
}

/// The length at which `DataFrame::with_column` stores a column of the given
/// length.  In a table with columns, a column of one cell is stretched to
/// the height of the table, and to no cell at all where the height is zero.
pub open spec fn stored_length(columns: Seq<(Seq<char>, nat)>, length: nat) -> nat {
    if columns.len() > 0 && length == 1 {
        frame_height(columns)
    } else {
        length
    }
}

/// Whether column `i` is the first of the given columns with the given name.
pub open spec fn first_named(columns: Seq<(Seq<char>, nat)>, name: Seq<char>, i: int) -> bool {
    &&& 0 <= i < columns.len()
    &&& columns[i].0 == name
    &&& forall|j: int| 0 <= j < i ==> (#[trigger] columns[j]).0 != name
}

/// The given columns after a column of the given name and length took its
/// place: that of the first column of its name, or else the end.
pub open spec fn placed(columns: Seq<(Seq<char>, nat)>, name: Seq<char>, length: nat) -> Seq<
    (Seq<char>, nat),
> {
    if exists|i: int| first_named(columns, name, i) {
        columns.update(choose|i: int| first_named(columns, name, i), (name, length))
    } else {
        columns.push((name, length))
    }
}

/// What `DataFrame::with_column` makes of a table with the given columns
/// when it is handed a column with the given name and number of cells: the
/// columns of the table afterwards, or nothing where it refuses the column.
///
/// A table without columns accepts every column.  Any other table accepts a
/// column whose length, as it is stored, is the height of the table.
pub open spec fn with_column_outcome(
    columns: Seq<(Seq<char>, nat)>,
    name: Seq<char>,
    length: nat,
) -> Option<Seq<(Seq<char>, nat)>> {
    let stored = stored_length(columns, length);
    if columns.len() == 0 || stored == frame_height(columns) {
        Some(placed(columns, name, stored))
    } else {
        None
    }
}

/// Calls `DataFrame::default` of the table engine, which makes a table
/// without columns.
#[verifier::external_body]
fn empty_frame() -> (frame: polars::prelude::DataFrame)
    ensures
        frame_columns(frame) == Seq::<(Seq<char>, nat)>::empty(),
{
    polars::prelude::DataFrame::default()
}

/// Calls `DataFrame::with_column` of the table engine, which adds a column
/// to a table or replaces the first column of that name.  The contract
/// claims that it accepts the column exactly where [`with_column_outcome`]
/// says so, and that the table then has the columns given there.  Of a
/// table that refused a column it says nothing.
#[verifier::external_body]
fn with_column(frame: &mut polars::prelude::DataFrame, series: polars::prelude::Series) -> (outcome:
    Result<(), polars::prelude::PolarsError>)
    ensures
        outcome is Ok <==> with_column_outcome(
            frame_columns(*old(frame)),
            series_name(series),
            series_len(series),
        ) is Some,
        outcome is Ok ==> Some(frame_columns(*final(frame))) == with_column_outcome(
            frame_columns(*old(frame)),
            series_name(series),
            series_len(series),
        ),
{
    match frame.with_column(series) {
        Ok(_) => Ok(()),
        Err(error) => Err(error),
    }
}

/// Calls `Series::name` of the table engine and copies the name it gives.
#[verifier::external_body]
fn name_of(series: &polars::prelude::Series) -> (name: String)
    ensures
        name@ == series_name(*series),
{
    series.name().to_string()
}

/// Calls `Series::len` of the table engine, the number of cells of the
/// column.
#[verifier::external_body]
fn len_of(series: &polars::prelude::Series) -> (length: usize)
    ensures
        length == series_len(*series),
{
    series.len()
}

/// The name and the number of cells of each of the given columns of the
/// table engine: what decides whether [`load`] can load them.
pub fn shapes(series: &Vec<polars::prelude::Series>) -> (shapes: Vec<(String, usize)>)
    ensures
        shapes@.len() == series@.len(),
        forall|k: int|
            0 <= k < series@.len() ==> (#[trigger] shapes@[k]).0@ == series_name(series@[k])
                && shapes@[k].1 == series_len(series@[k]),
{
    let mut shapes: Vec<(String, usize)> = Vec::new();
    let mut k: usize = 0;
    while k < series.len()
        invariant
            k <= series.len(),
            shapes@.len() == k,
            forall|i: int|
                0 <= i < k ==> (#[trigger] shapes@[i]).0@ == series_name(series@[i])
                    && shapes@[i].1 == series_len(series@[i]),
        decreases series.len() - k,
    {
        let name = name_of(&series[k]);
        let length = len_of(&series[k]);
        shapes.push((name, length));
        k += 1;
    }
    shapes
}

/// The columns of the table that results when the given columns are added,
/// in order, to a table that has `columns`; nothing if one of them is
/// refused.
pub open spec fn loaded(columns: Seq<(Seq<char>, nat)>, series: Seq<polars::prelude::Series>) -> Option<
    Seq<(Seq<char>, nat)>,
>
    decreases series.len(),
{
    if series.len() == 0 {
        Some(columns)
    } else {
        match with_column_outcome(columns, series_name(series[0]), series_len(series[0])) {
            Some(next) => loaded(next, series.subrange(1, series.len() as int)),
            None => None,
        }
    }
}

/// Whether `result` is what loading gives: the table with the columns
/// `columns`, or, where a column was refused, the error of a mesh that
/// cannot be flattened.
pub open spec fn load_result(
    columns: Option<Seq<(Seq<char>, nat)>>,
    result: Result<polars::prelude::DataFrame, GeoNodeError>,
) -> bool {
    match columns {
        Some(columns) => result matches Ok(frame) && frame_columns(frame) == columns,
        None => result == Err::<polars::prelude::DataFrame, GeoNodeError>(
            GeoNodeError::DataframeFromMeshError,
        ),
    }
}

/// Adds the given columns, in order, to an empty table of the table engine.
/// The first column that the engine refuses ends the loading.
pub fn load(series: Vec<polars::prelude::Series>) -> (result: Result<
    polars::prelude::DataFrame,
    GeoNodeError,
>)
    ensures
        load_result(loaded(Seq::empty(), series@), result),
{
    let mut rest = series;
    let mut frame = empty_frame();
    while rest.len() > 0
        invariant
            loaded(Seq::empty(), series@) == loaded(frame_columns(frame), rest@),
        decreases rest.len(),
    {
        let ghost before = rest@;
        let ghost columns = frame_columns(frame);
        let next = rest.remove(0);
        proof {
            assert(rest@ =~= before.subrange(1, before.len() as int));
            assert(loaded(columns, before) == match with_column_outcome(
                columns,
                series_name(next),
                series_len(next),
            ) {
                Some(more) => loaded(more, rest@),
                None => None,
            });
        }
        match table_outcome(with_column(&mut frame, next)) {
            Ok(_) => {},
            Err(error) => {
                return Err(error);
            },
        }
    }
    Ok(frame)
}

/// A table without columns accepts every column: loading a single column
/// succeeds, and the table then has that column and no other.
pub proof fn lemma_first_column_loads(series: polars::prelude::Series)
    ensures
        loaded(Seq::empty(), seq![series]) == Some(
            seq![(series_name(series), series_len(series))],
        ),
{
    let empty = Seq::<(Seq<char>, nat)>::empty();
    let name = series_name(series);
    let length = series_len(series);
    assert(!exists|i: int| first_named(empty, name, i));
    assert(placed(empty, name, length) =~= seq![(name, length)]);
    assert(seq![series].subrange(1, 1) =~= Seq::<polars::prelude::Series>::empty());
    reveal_with_fuel(loaded, 3);
}

/// The names and lengths of the given columns of the table engine.
pub open spec fn shapes_of(series: Seq<polars::prelude::Series>) -> Seq<(Seq<char>, nat)> {
    Seq::new(series.len(), |k: int| (series_name(series[k]), series_len(series[k])))
}

/// Whether the given columns have names that differ from each other and all
/// the same number of cells.
pub open spec fn alike(series: Seq<polars::prelude::Series>) -> bool {
    &&& forall|i: int, j: int|
        0 <= i < j < series.len() ==> series_name(#[trigger] series[i]) != series_name(
            #[trigger] series[j],
        )
    &&& forall|i: int|
        0 <= i < series.len() ==> series_len(#[trigger] series[i]) == series_len(series[0])
}

/// Once the first `k` of columns that are alike are in the table, the rest
/// loads too.
proof fn lemma_rest_loads(series: Seq<polars::prelude::Series>, k: int)
    requires
        alike(series),
        0 <= k <= series.len(),
    ensures
        loaded(shapes_of(series.subrange(0, k)), series.subrange(k, series.len() as int)) == Some(
            shapes_of(series),
        ),
    decreases series.len() - k,
{
    let columns = shapes_of(series.subrange(0, k));
    let rest = series.subrange(k, series.len() as int);
    if k == series.len() {
        assert(series.subrange(0, k) =~= series);
    } else {
        let name = series_name(series[k]);
        let length = series_len(series[k]);
        assert(rest[0] == series[k]);
        assert(rest.subrange(1, rest.len() as int) =~= series.subrange(k + 1, series.len() as int));
        assert forall|i: int| !first_named(columns, name, i) by {
            if 0 <= i < columns.len() {
                assert(series.subrange(0, k)[i] == series[i]);
                assert(columns[i].0 == series_name(series[i]));
            }
        }
        if k > 0 {
            assert(series.subrange(0, k)[0] == series[0]);
            assert(frame_height(columns) == series_len(series[0]));
        }
        assert(stored_length(columns, length) == length);
        assert(placed(columns, name, length) =~= shapes_of(series.subrange(0, k + 1))) by {
            assert forall|i: int| 0 <= i < k + 1 implies columns.push((name, length))[i]
                == shapes_of(series.subrange(0, k + 1))[i] by {
                assert(series.subrange(0, k + 1)[i] == series[i]);
                if i < k {
                    assert(series.subrange(0, k)[i] == series[i]);
                }
            }
        }
        lemma_rest_loads(series, k + 1);
    }
}

/// Columns with names that differ from each other and with the same number
/// of cells load, and the table has them in their order.
pub proof fn lemma_alike_columns_load(series: Seq<polars::prelude::Series>)
    requires
        alike(series),
    ensures
        loaded(Seq::empty(), series) == Some(shapes_of(series)),
{
    lemma_rest_loads(series, 0);
    assert(shapes_of(series.subrange(0, 0)) =~= Seq::<(Seq<char>, nat)>::empty());
    assert(series.subrange(0, series.len() as int) =~= series);
}

/// Rebuilding of a mesh from a table.
pub trait ToMesh {
    fn to_mesh(&self) -> Result<Mesh, GeoNodeError>;
}

impl ToMesh for polars::prelude::DataFrame {
    /// An empty triangle list, whatever the table holds.
    fn to_mesh(&self) -> (result: Result<Mesh, GeoNodeError>)
        ensures
            result matches Ok(mesh) && mesh@ == Mesh::empty(PrimitiveTopology::TriangleList),
    {
        Ok(Mesh::new(PrimitiveTopology::TriangleList))
    }
}

/// Reading of three named columns as one list of triples of
/// single-precision bit patterns.
pub trait ToVecOfVec3 {
    fn to_vec_of_vec3(&self, col_x_name: &str, col_y_name: &str, col_z_name: &str) -> Result<
        Vec<[u32; 3]>,
        GeoNodeError,
    >;
}

} // verus!
