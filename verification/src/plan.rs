//! What the file writer is told to do with the rows of an ingest.

use vstd::prelude::*;

use crate::destination::{extension_suffix, Destination};
use crate::schema::Column;

verus! {

/// What happens to rows that are already stored at the destination.
#[derive(Clone, Copy, Debug, PartialEq, Eq, Structural)]
pub enum WritePolicy {
    /// The new rows are added to them.
    Append,
    /// The new rows take their place.
    Overwrite,
    /// The new rows take the place of those that collide with them.
    Replace,
}

/// The configuration of the file writer for one ingest.
#[derive(Debug)]
pub struct SinkPlan {
    pub destination: Destination,
    pub policy: WritePolicy,
    pub file_extension: String,
    pub partition_columns: Vec<Column>,
    pub keep_partition_columns: bool,
}

impl SinkPlan {
    /// The plan of every ingest: one file at `destination` that takes the
    /// place of whatever is stored there, with no partitioning by column.
    pub fn single_file(destination: Destination) -> (plan: SinkPlan)
        ensures
            plan.destination == destination,
            plan.policy == WritePolicy::Overwrite,
            seq!['.'] + plan.file_extension@ == extension_suffix(),
            plan.partition_columns@.len() == 0,
            !plan.keep_partition_columns,
    {
        proof {
            reveal_strlit("parquet");
        }
        let file_extension = "parquet".to_owned();
        SinkPlan {
            destination,
            policy: WritePolicy::Overwrite,
            file_extension,
            partition_columns: Vec::new(),
            keep_partition_columns: false,
        }
    }
}

} // verus!
