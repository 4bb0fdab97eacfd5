//! The opening of an ingest: everything that is decided before the first row
//! is handed to the file writer.

use vstd::prelude::*;

use crate::destination::{invalid_url_message, resolve, TableIdent};
use crate::error::{ErrorKind, IngestError};
use crate::plan::{SinkPlan, WritePolicy};
use crate::schema::{extract_schema, extracted, FirstChunk};
use crate::sequence::ChunkCounter;
use crate::sink::{fresh, SinkWriter};

verus! {

/// One ingest that has been opened: the plan for the file writer, the sink
/// that the batches pass, and the counter of the chunks.
#[derive(Debug)]
pub struct Ingest {
    pub plan: SinkPlan,
    pub sink: SinkWriter,
    pub chunks: ChunkCounter,
}

/// Opens the ingest into the table `ident` of a stream whose head showed
/// `first`. The schema is recovered first, so a stream without a schema fails
/// as the schema extractor says, whatever the table is called. Only then is
/// the destination resolved. An ingest that opens has a sink over the columns
/// of the first chunk that has seen nothing yet, a counter at 0, and the plan
/// of one file under the path of the table.
pub fn begin(ident: &TableIdent, first: FirstChunk) -> (opened: Result<Ingest, IngestError>)
    ensures
        match extracted(first) {
            Err(failure) => opened is Err && opened->Err_0@ == failure,
            Ok(columns) => match opened {
                Ok(ingest) => {
                    &&& ingest.sink.schema() == columns
                    &&& ingest.sink.progress() == fresh()
                    &&& ingest.chunks.position() == 0
                    &&& ingest.plan.destination.path@ == ident.path()
                    &&& ingest.plan.policy == WritePolicy::Overwrite
                },
                Err(e) => e.kind == ErrorKind::Internal && exists|cause: Seq<char>|
                    e.message@ == invalid_url_message(ident.path(), cause),
            },
        },
{
    let schema = match extract_schema(first) {
        Ok(schema) => schema,
        Err(e) => {
            return Err(e);
        },
    };
    let destination = match resolve(ident) {
        Ok(destination) => destination,
        Err(e) => {
            return Err(e);
        },
    };
    Ok(
        Ingest {
            plan: SinkPlan::single_file(destination),
            sink: SinkWriter::new(schema),
            chunks: ChunkCounter::new(),
        },
    )
}

} // verus!
