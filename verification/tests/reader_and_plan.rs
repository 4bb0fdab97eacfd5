use flight_ingest::destination::{resolve, TableIdent};
use flight_ingest::plan::{SinkPlan, WritePolicy};
use flight_ingest::reader::Lookahead;
use flight_ingest::sequence::ChunkCounter;

#[test]
fn empty_buffer_shows_and_gives_nothing() {
    let mut buffer: Lookahead<u32> = Lookahead::new();
    assert_eq!(buffer.peek(), None);
    assert_eq!(buffer.take(), None);
}

#[test]
fn looking_does_not_consume() {
    let mut buffer = Lookahead::new();
    assert_eq!(buffer.hold("schema chunk".to_string()), None);
    assert_eq!(buffer.peek(), Some(&"schema chunk".to_string()));
    assert_eq!(buffer.peek(), Some(&"schema chunk".to_string()));
    assert_eq!(buffer.take(), Some("schema chunk".to_string()));
    assert_eq!(buffer.peek(), None);
    assert_eq!(buffer.take(), None);
}

#[test]
fn full_buffer_refuses_a_second_item() {
    let mut buffer = Lookahead::new();
    assert_eq!(buffer.hold(1), None);
    assert_eq!(buffer.hold(2), Some(2));
    assert_eq!(buffer.take(), Some(1));
    assert_eq!(buffer.hold(3), None);
    assert_eq!(buffer.peek(), Some(&3));
}

#[test]
fn counter_gives_positions_from_zero() {
    let mut counter = ChunkCounter::new();
    assert_eq!(counter.mark(), 0);
    assert_eq!(counter.mark(), 1);
    assert_eq!(counter.mark(), 2);
}

#[test]
fn plan_overwrites_one_parquet_file() {
    let ident = TableIdent {
        catalog: "lake".to_string(),
        namespace: "sales".to_string(),
        table: "orders".to_string(),
    };
    let plan = SinkPlan::single_file(resolve(&ident).unwrap());
    assert_eq!(plan.destination.path, "lake/sales/orders.parquet");
    assert_eq!(plan.policy, WritePolicy::Overwrite);
    assert_eq!(plan.file_extension, "parquet");
    assert!(plan.partition_columns.is_empty());
    assert!(!plan.keep_partition_columns);
}
