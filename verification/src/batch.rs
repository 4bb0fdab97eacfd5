//! Row batches as the sink sees them, and the sequence they arrive in.

use vstd::prelude::*;

use crate::schema::{columns_view, Column, ColumnView};

verus! {

/// A decoded block of rows: how many rows it holds and which columns.
#[derive(Debug)]
pub struct RowBatch {
    pub rows: u64,
    pub columns: Vec<Column>,
}

/// A row batch as a mathematical value.
pub struct BatchView {
    pub rows: nat,
    pub columns: Seq<ColumnView>,
}

impl View for RowBatch {
    type V = BatchView;

    open spec fn view(&self) -> BatchView {
        BatchView { rows: self.rows as nat, columns: columns_view(self.columns@) }
    }
}

impl RowBatch {
    /// A batch of `rows` rows over `columns`.
    pub fn new(rows: u64, columns: Vec<Column>) -> (batch: RowBatch)
        ensures
            batch@ == (BatchView { rows: rows as nat, columns: columns_view(columns@) }),
    {
        RowBatch { rows, columns }
    }
}

/// One element of the sequence that the decoder of a chunk stream yields: a
/// row batch, or the failure to decode one.
#[derive(Debug)]
pub enum StreamItem {
    Batch(RowBatch),
    Broken { detail: String },
}

/// A stream item as a mathematical value.
pub enum ItemView {
    Batch(BatchView),
    Broken(Seq<char>),
}

impl View for StreamItem {
    type V = ItemView;

    open spec fn view(&self) -> ItemView {
        match self {
            StreamItem::Batch(batch) => ItemView::Batch(batch@),
            StreamItem::Broken { detail } => ItemView::Broken(detail@),
        }
    }
}

/// The items of `items`, in order, as mathematical values.
pub open spec fn items_view(items: Seq<StreamItem>) -> Seq<ItemView> {
    items.map_values(|item: StreamItem| item@)
}

/// The rows that `item` holds: those of a batch, none where decoding failed.
pub open spec fn rows_of(item: ItemView) -> nat {
    match item {
        ItemView::Batch(batch) => batch.rows,
        ItemView::Broken(_) => 0,
    }
}

/// The rows of all of `items` together.
pub open spec fn total_rows(items: Seq<ItemView>) -> nat
    decreases items.len(),
{
    if items.len() == 0 {
        0
    } else {
        total_rows(items.drop_last()) + rows_of(items.last())
    }
}

/// Whether `item` is a batch over exactly the columns of `schema`.
pub open spec fn conforms(schema: Seq<ColumnView>, item: ItemView) -> bool {
    item matches ItemView::Batch(batch) && batch.columns == schema
}

} // verus!
