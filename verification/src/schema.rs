//! The schema of a table and its recovery from the head of a chunk stream.

use vstd::prelude::*;

use crate::error::{explained, ErrorKind, Failure, IngestError};

verus! {

/// One column: its name and the name of its logical type.
#[derive(Debug, PartialEq, Eq)]
pub struct Column {
    pub name: String,
    pub logical_type: String,
}

/// A column as a mathematical value.
pub struct ColumnView {
    pub name: Seq<char>,
    pub logical_type: Seq<char>,
}

impl View for Column {
    type V = ColumnView;

    open spec fn view(&self) -> ColumnView {
        ColumnView { name: self.name@, logical_type: self.logical_type@ }
    }
}

impl Clone for Column {
    fn clone(&self) -> (copy: Column)
        ensures
            copy@ == self@,
    {
        Column { name: self.name.clone(), logical_type: self.logical_type.clone() }
    }
}

impl Column {
    /// The column called `name` of type `logical_type`.
    pub fn new(name: &str, logical_type: &str) -> (column: Column)
        ensures
            column@ == (ColumnView { name: name@, logical_type: logical_type@ }),
    {
        Column { name: name.to_owned(), logical_type: logical_type.to_owned() }
    }

    /// Whether two columns have the same name and the same type.
    pub fn same_as(&self, other: &Column) -> (same: bool)
        ensures
            same == (self@ == other@),
    {
        self.name == other.name && self.logical_type == other.logical_type
    }
}

/// The columns of `columns`, in order, as mathematical values.
pub open spec fn columns_view(columns: Seq<Column>) -> Seq<ColumnView> {
    columns.map_values(|column: Column| column@)
}

/// Whether two lists hold the same columns in the same order.
pub fn same_columns(left: &Vec<Column>, right: &Vec<Column>) -> (same: bool)
    ensures
        same == (columns_view(left@) == columns_view(right@)),
{
    if left.len() != right.len() {
        assert(columns_view(left@).len() != columns_view(right@).len());
        return false;
    }
    let mut i: usize = 0;
    while i < left.len()
        invariant
            i <= left.len(),
            left.len() == right.len(),
            forall|j: int| 0 <= j < i ==> left@[j]@ == right@[j]@,
        decreases left.len() - i,
    {
        if !left[i].same_as(&right[i]) {
            assert(columns_view(left@)[i as int] != columns_view(right@)[i as int]);
            return false;
        }
        i += 1;
    }
    assert(columns_view(left@) =~= columns_view(right@));
    true
}

/// The schema of a table: its columns, in order.
#[derive(Debug)]
pub struct Schema {
    pub columns: Vec<Column>,
}

impl View for Schema {
    type V = Seq<ColumnView>;

    open spec fn view(&self) -> Seq<ColumnView> {
        columns_view(self.columns@)
    }
}

impl Schema {
    /// The schema made of `columns`.
    pub fn new(columns: Vec<Column>) -> (schema: Schema)
        ensures
            schema@ == columns_view(columns@),
    {
        Schema { columns }
    }

    /// Whether `columns` are exactly the columns of this schema.
    pub fn admits(&self, columns: &Vec<Column>) -> (admitted: bool)
        ensures
            admitted == (columns_view(columns@) == self@),
    {
        same_columns(columns, &self.columns)
    }
}

/// What a look at the head of a chunk stream found. The look does not take
/// the chunk off the stream.
#[derive(Debug)]
pub enum FirstChunk {
    /// The stream ended before it gave any chunk.
    Missing,
    /// The transport failed to deliver the chunk.
    Unreadable { detail: String },
    /// The chunk came, and its header does not describe a schema.
    Undecodable { detail: String },
    /// The chunk came, and its header describes these columns.
    Decoded { columns: Vec<Column> },
}

/// The message of a stream without a first chunk.
pub open spec fn missing_chunk_message() -> Seq<char> {
    "Missing first FlightData"@
}

/// What the first chunk yields: the columns it describes, or the failure that
/// it stands for.
pub open spec fn extracted(first: FirstChunk) -> Result<Seq<ColumnView>, Failure> {
    match first {
        FirstChunk::Missing => Err(
            Failure { kind: ErrorKind::FailedPrecondition, message: missing_chunk_message() },
        ),
        FirstChunk::Unreadable { detail } => Err(
            Failure {
                kind: ErrorKind::FailedPrecondition,
                message: explained("Failed to read FlightData: "@, detail@),
            },
        ),
        FirstChunk::Undecodable { detail } => Err(
            Failure {
                kind: ErrorKind::InvalidArgument,
                message: explained("Missing schema in first message: "@, detail@),
            },
        ),
        FirstChunk::Decoded { columns } => Ok(columns_view(columns@)),
    }
}

/// Recovers the schema from what the head of the stream showed. A stream
/// without a first chunk, or whose first chunk could not be read, breaks the
/// stream's contract; a first chunk that describes no schema is an invalid
/// argument.
pub fn extract_schema(first: FirstChunk) -> (schema: Result<Schema, IngestError>)
    ensures
        match (extracted(first), schema) {
            (Ok(columns), Ok(found)) => found@ == columns,
            (Err(failure), Err(e)) => e@ == failure,
            _ => false,
        },
{
    match first {
        FirstChunk::Missing => Err(
            IngestError::new(ErrorKind::FailedPrecondition, "Missing first FlightData".to_owned()),
        ),
        FirstChunk::Unreadable { detail } => Err(
            IngestError::explain(
                ErrorKind::FailedPrecondition,
                "Failed to read FlightData: ",
                detail.as_str(),
            ),
        ),
        FirstChunk::Undecodable { detail } => Err(
            IngestError::explain(
                ErrorKind::InvalidArgument,
                "Missing schema in first message: ",
                detail.as_str(),
            ),
        ),
        FirstChunk::Decoded { columns } => Ok(Schema::new(columns)),
    }
}

} // verus!
