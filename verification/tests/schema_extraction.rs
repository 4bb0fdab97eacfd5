use arrow::datatypes::{DataType, Field, Schema as ArrowSchema};
use arrow::ipc::convert::try_schema_from_flatbuffer_bytes;
use arrow::ipc::writer::{DictionaryTracker, IpcDataGenerator, IpcWriteOptions};
use flight_ingest::error::{ErrorKind, IngestError};
use flight_ingest::schema::{extract_schema, same_columns, Column, FirstChunk, Schema};

fn id_and_name() -> Vec<Column> {
    vec![Column::new("id", "Int64"), Column::new("name", "Utf8")]
}

fn header_of(schema: &ArrowSchema) -> Vec<u8> {
    let mut tracker = DictionaryTracker::new(false);
    IpcDataGenerator::default()
        .schema_to_bytes_with_dictionary_tracker(schema, &mut tracker, &IpcWriteOptions::default())
        .ipc_message
}

fn look_at(header: &[u8]) -> FirstChunk {
    match try_schema_from_flatbuffer_bytes(header) {
        Ok(schema) => FirstChunk::Decoded {
            columns: schema
                .fields()
                .iter()
                .map(|field| Column::new(field.name(), &field.data_type().to_string()))
                .collect(),
        },
        Err(error) => FirstChunk::Undecodable { detail: error.to_string() },
    }
}

#[test]
fn column_holds_name_and_type() {
    let column = Column::new("id", "Int64");
    assert_eq!(column.name, "id");
    assert_eq!(column.logical_type, "Int64");
    assert_eq!(column.clone(), column);
}

#[test]
fn columns_are_the_same_by_name_and_type() {
    assert!(Column::new("id", "Int64").same_as(&Column::new("id", "Int64")));
    assert!(!Column::new("id", "Int64").same_as(&Column::new("id", "Int32")));
    assert!(!Column::new("id", "Int64").same_as(&Column::new("key", "Int64")));
}

#[test]
fn column_lists_are_compared_in_order() {
    assert!(same_columns(&id_and_name(), &id_and_name()));
    assert!(same_columns(&vec![], &vec![]));
    let swapped = vec![Column::new("name", "Utf8"), Column::new("id", "Int64")];
    assert!(!same_columns(&id_and_name(), &swapped));
    assert!(!same_columns(&id_and_name(), &vec![Column::new("id", "Int64")]));
    assert!(!same_columns(&vec![], &id_and_name()));
}

#[test]
fn schema_admits_its_own_columns_only() {
    let schema = Schema::new(id_and_name());
    assert!(schema.admits(&id_and_name()));
    assert!(!schema.admits(&vec![Column::new("id", "Int64"), Column::new("name", "LargeUtf8")]));
    assert!(!schema.admits(&vec![]));
}

#[test]
fn decoded_first_chunk_gives_its_columns() {
    let schema = extract_schema(FirstChunk::Decoded { columns: id_and_name() }).unwrap();
    assert_eq!(schema.columns, id_and_name());
}

#[test]
fn decoded_first_chunk_without_columns_gives_an_empty_schema() {
    let schema = extract_schema(FirstChunk::Decoded { columns: vec![] }).unwrap();
    assert!(schema.columns.is_empty());
}

#[test]
fn empty_stream_breaks_the_precondition() {
    let error = extract_schema(FirstChunk::Missing).unwrap_err();
    assert_eq!(error.kind, ErrorKind::FailedPrecondition);
    assert_eq!(error.message, "Missing first FlightData");
}

#[test]
fn unreadable_first_chunk_breaks_the_precondition() {
    let first = FirstChunk::Unreadable { detail: "connection reset".to_string() };
    let error = extract_schema(first).unwrap_err();
    assert_eq!(
        error,
        IngestError::new(
            ErrorKind::FailedPrecondition,
            "Failed to read FlightData: connection reset".to_string()
        )
    );
}

#[test]
fn undecodable_first_chunk_is_an_invalid_argument() {
    let first = FirstChunk::Undecodable { detail: "Unable to get root as message".to_string() };
    let error = extract_schema(first).unwrap_err();
    assert_eq!(error.kind, ErrorKind::InvalidArgument);
    assert_eq!(error.message, "Missing schema in first message: Unable to get root as message");
}

#[test]
fn header_written_by_arrow_is_extracted() {
    let arrow_schema = ArrowSchema::new(vec![
        Field::new("id", DataType::Int64, false),
        Field::new("name", DataType::Utf8, true),
    ]);
    let schema = extract_schema(look_at(&header_of(&arrow_schema))).unwrap();
    assert_eq!(schema.columns, id_and_name());
}

#[test]
fn bytes_that_are_no_header_are_an_invalid_argument() {
    let error = extract_schema(look_at(&[1, 2, 3])).unwrap_err();
    assert_eq!(error.kind, ErrorKind::InvalidArgument);
    assert!(error.message.starts_with("Missing schema in first message: "));
}

#[test]
fn error_is_built_from_prefix_and_detail() {
    let error = IngestError::explain(ErrorKind::Internal, "Failed to write: ", "disk full");
    assert_eq!(error.kind, ErrorKind::Internal);
    assert_eq!(error.message, "Failed to write: disk full");
    assert_eq!(error.clone(), error);
}
