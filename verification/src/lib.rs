//! The core of a streaming ingest endpoint: a client sends the chunks of one
//! table over a request-scoped stream, and the endpoint stores their rows as
//! one columnar file and answers with the number of rows.
//!
//! This library holds what such an endpoint decides, and leaves to its
//! caller what it moves: reading chunks off the network, decoding them, and
//! writing the file. The caller tells the library what it read and is told
//! what to do with it.
//!
//! - [`reader`]: reading ahead in the stream by one chunk.
//! - [`schema`]: the schema of the table, recovered from the first chunk.
//! - [`destination`]: the path of the file, derived from the name of the table.
//! - [`plan`]: what the file writer is told to do.
//! - [`batch`], [`sink`]: the batches on their way to the file writer, the
//!   count of their rows, and the answer to the client.
//! - [`sequence`]: the position of a chunk in its stream, for diagnostics.
//! - [`ingest`]: the opening of an ingest.
//! - [`error`]: the failures an ingest can end in.

pub mod batch;
pub mod destination;
pub mod error;
pub mod ingest;
pub mod plan;
pub mod reader;
pub mod schema;
pub mod sequence;
pub mod sink;
