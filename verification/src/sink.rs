//! The commit protocol of the sink: which batches are handed on to the file
//! writer, how many rows they hold, and what the ingest reports in the end.

use vstd::prelude::*;

use crate::batch::{conforms, items_view, rows_of, total_rows, ItemView, StreamItem};
use crate::error::{explained, ErrorKind, Failure, IngestError};
use crate::schema::{ColumnView, Schema};

verus! {

/// The largest row count that a response can carry.
pub const ROW_LIMIT: u64 = 9_223_372_036_854_775_807;

/// How far a sink has come: the rows of the batches it has handed on, and the
/// failure that ended it, if one did.
pub struct Progress {
    pub rows: nat,
    pub failure: Option<Failure>,
}

/// The progress of a sink that has seen nothing yet.
pub open spec fn fresh() -> Progress {
    Progress { rows: 0, failure: None }
}

/// The failure that a chunk which cannot be decoded stands for.
pub open spec fn decode_failure(detail: Seq<char>) -> Failure {
    Failure {
        kind: ErrorKind::Internal,
        message: explained("Failed to decode FlightData: "@, detail),
    }
}

/// The failure that a batch over other columns than the schema's stands for.
pub open spec fn mismatch_failure() -> Failure {
    Failure { kind: ErrorKind::Internal, message: "Record batch does not match the schema"@ }
}

/// The failure of an ingest with more rows than a response can carry.
pub open spec fn overflow_failure() -> Failure {
    Failure { kind: ErrorKind::Internal, message: "Row count exceeds what a response can carry"@ }
}

/// The failure of a file writer that did not store the rows.
pub open spec fn write_failure(detail: Seq<char>) -> Failure {
    Failure { kind: ErrorKind::Internal, message: explained("Failed to write: "@, detail) }
}

/// The failure of a file writer that stored another number of rows than it
/// was handed.
pub open spec fn miscount_failure() -> Failure {
    Failure {
        kind: ErrorKind::Internal,
        message: "Rows reported by the writer differ from the rows received"@,
    }
}

/// The progress after `item`, for a sink over `schema` whose progress was
/// `before`. A sink that has failed stays as it is. A batch over the columns
/// of the schema adds its rows; any other item is the failure that ends the
/// sink.
pub open spec fn step(schema: Seq<ColumnView>, before: Progress, item: ItemView) -> Progress {
    if before.failure is Some {
        before
    } else {
        match item {
            ItemView::Broken(detail) => Progress {
                rows: before.rows,
                failure: Some(decode_failure(detail)),
            },
            ItemView::Batch(batch) => if batch.columns != schema {
                Progress { rows: before.rows, failure: Some(mismatch_failure()) }
            } else if before.rows + batch.rows > ROW_LIMIT {
                Progress { rows: before.rows, failure: Some(overflow_failure()) }
            } else {
                Progress { rows: before.rows + batch.rows, failure: None }
            },
        }
    }
}

/// The progress after all of `items`, in order, from `start`.
pub open spec fn run(schema: Seq<ColumnView>, start: Progress, items: Seq<ItemView>) -> Progress
    decreases items.len(),
{
    if items.len() == 0 {
        start
    } else {
        step(schema, run(schema, start, items.drop_last()), items.last())
    }
}

/// What an ingest reports once the file writer is done: the failure that ended
/// the sink, else the failure of the writer, else the number of rows, which
/// the sink and the writer must agree on.
pub open spec fn outcome(progress: Progress, written: Result<u64, Seq<char>>) -> Result<
    int,
    Failure,
> {
    match progress.failure {
        Some(failure) => Err(failure),
        None => match written {
            Err(detail) => Err(write_failure(detail)),
            Ok(count) => if count == progress.rows {
                Ok(count as int)
            } else {
                Err(miscount_failure())
            },
        },
    }
}

/// What the file writer said, as a mathematical value.
pub open spec fn written_view(written: Result<u64, String>) -> Result<u64, Seq<char>> {
    match written {
        Ok(count) => Ok(count),
        Err(detail) => Err(detail@),
    }
}

/// Whether `report` is what `expected` says: the same count, or an error that
/// says the same failure.
pub open spec fn reports(report: Result<i64, IngestError>, expected: Result<int, Failure>) -> bool {
    match (report, expected) {
        (Ok(count), Ok(rows)) => count == rows,
        (Err(e), Err(failure)) => e@ == failure,
        _ => false,
    }
}

/// The sink of one ingest. It sees every item of the batch sequence before
/// the file writer does and decides whether the item is handed on.
#[derive(Debug)]
pub struct SinkWriter {
    schema: Schema,
    rows: u64,
    failure: Option<IngestError>,
}

impl SinkWriter {
    #[verifier::type_invariant]
    spec fn within_limit(self) -> bool {
        self.rows <= ROW_LIMIT
    }

    /// The columns that every batch must have.
    pub closed spec fn schema(&self) -> Seq<ColumnView> {
        self.schema@
    }

    /// How far the sink has come.
    pub closed spec fn progress(&self) -> Progress {
        Progress {
            rows: self.rows as nat,
            failure: match self.failure {
                Some(e) => Some(e@),
                None => None,
            },
        }
    }

    /// A sink over `schema` that has seen nothing yet.
    pub fn new(schema: Schema) -> (sink: SinkWriter)
        ensures
            sink.schema() == schema@,
            sink.progress() == fresh(),
    {
        SinkWriter { schema, rows: 0, failure: None }
    }

    /// The rows of the batches handed on so far.
    pub fn rows(&self) -> (rows: u64)
        ensures
            rows == self.progress().rows,
            rows <= ROW_LIMIT,
    {
        proof {
            use_type_invariant(self);
        }
        self.rows
    }

    /// The failure that ended the sink, if one did.
    pub fn failure(&self) -> (failure: Option<IngestError>)
        ensures
            match (failure, self.progress().failure) {
                (Some(e), Some(f)) => e@ == f,
                (None, None) => true,
                _ => false,
            },
    {
        match &self.failure {
            Some(e) => Some(e.clone()),
            None => None,
        }
    }

    /// Ends a sink that has not failed yet with `e`.
    fn fail(&mut self, e: IngestError) -> (verdict: Result<(), IngestError>)
        requires
            old(self).progress().failure is None,
        ensures
            final(self).schema() == old(self).schema(),
            final(self).progress() == (Progress {
                rows: old(self).progress().rows,
                failure: Some(e@),
            }),
            verdict matches Err(reported) && reported@ == e@,
    {
        proof {
            use_type_invariant(&*self);
        }
        self.failure = Some(e.clone());
        Err(e)
    }

    /// Takes the next item of the batch sequence. `Ok` says that the item is
    /// a batch to hand on to the file writer; an error says that the ingest
    /// has failed, now or earlier, and with what.
    pub fn take(&mut self, item: &StreamItem) -> (verdict: Result<(), IngestError>)
        ensures
            final(self).schema() == old(self).schema(),
            final(self).progress() == step(old(self).schema(), old(self).progress(), item@),
            match verdict {
                Ok(_) => final(self).progress().failure is None,
                Err(e) => final(self).progress().failure == Some(e@),
            },
    {
        proof {
            use_type_invariant(&*self);
        }
        if let Some(e) = &self.failure {
            return Err(e.clone());
        }
        match item {
            StreamItem::Broken { detail } => {
                let e = IngestError::explain(
                    ErrorKind::Internal,
                    "Failed to decode FlightData: ",
                    detail.as_str(),
                );
                self.fail(e)
            },
            StreamItem::Batch(batch) => {
                if !self.schema.admits(&batch.columns) {
                    let e = IngestError::new(
                        ErrorKind::Internal,
                        "Record batch does not match the schema".to_owned(),
                    );
                    self.fail(e)
                } else if batch.rows > ROW_LIMIT - self.rows {
                    let e = IngestError::new(
                        ErrorKind::Internal,
                        "Row count exceeds what a response can carry".to_owned(),
                    );
                    self.fail(e)
                } else {
                    self.rows = self.rows + batch.rows;
                    Ok(())
                }
            },
        }
    }

    /// Takes `items` in order, up to the first that fails the ingest. The
    /// verdict is that of the whole sequence.
    pub fn take_all(&mut self, items: &Vec<StreamItem>) -> (verdict: Result<(), IngestError>)
        ensures
            final(self).schema() == old(self).schema(),
            final(self).progress() == run(
                old(self).schema(),
                old(self).progress(),
                items_view(items@),
            ),
            match verdict {
                Ok(_) => final(self).progress().failure is None,
                Err(e) => final(self).progress().failure == Some(e@),
            },
    {
        let ghost schema = self.schema();
        let ghost start = self.progress();
        let ghost all = items_view(items@);
        let mut i: usize = 0;
        while i < items.len()
            invariant
                i <= items.len(),
                all == items_view(items@),
                schema == old(self).schema(),
                start == old(self).progress(),
                self.schema() == schema,
                self.progress() == run(schema, start, all.take(i as int)),
            decreases items.len() - i,
        {
            let verdict = self.take(&items[i]);
            proof {
                let upto = all.take(i as int + 1);
                assert(upto.drop_last() =~= all.take(i as int));
            }
            if let Err(e) = verdict {
                proof {
                    lemma_failure_is_final(schema, self.progress(), all.skip(i as int + 1));
                    lemma_run_in_parts(
                        schema,
                        start,
                        all.take(i as int + 1),
                        all.skip(i as int + 1),
                    );
                    assert(all.take(i as int + 1) + all.skip(i as int + 1) =~= all);
                }
                return Err(e);
            }
            i += 1;
        }
        assert(all.take(i as int) =~= all);
        match self.failure() {
            Some(e) => Err(e),
            None => Ok(()),
        }
    }

    /// Ends the ingest with what the file writer said: the number of rows it
    /// stored, or why it stored none.
    pub fn finish(self, written: Result<u64, String>) -> (report: Result<i64, IngestError>)
        ensures
            reports(report, outcome(self.progress(), written_view(written))),
    {
        proof {
            use_type_invariant(&self);
        }
        match self.failure {
            Some(e) => Err(e),
            None => match written {
                Err(detail) => Err(
                    IngestError::explain(ErrorKind::Internal, "Failed to write: ", detail.as_str()),
                ),
                Ok(count) => if count == self.rows {
                    Ok(count as i64)
                } else {
                    Err(
                        IngestError::new(
                            ErrorKind::Internal,
                            "Rows reported by the writer differ from the rows received".to_owned(),
                        ),
                    )
                },
            },
        }
    }
}

/// Takes a whole batch sequence through a fresh sink over `schema` and ends
/// the ingest with what the file writer said.
pub fn settle(schema: Schema, items: &Vec<StreamItem>, written: Result<u64, String>) -> (report:
    Result<i64, IngestError>)
    ensures
        reports(report, outcome(run(schema@, fresh(), items_view(items@)), written_view(written))),
{
    let mut sink = SinkWriter::new(schema);
    let _ = sink.take_all(items);
    sink.finish(written)
}

/// A sink that has failed stays as it is, whatever comes after.
pub proof fn lemma_failure_is_final(schema: Seq<ColumnView>, failed: Progress, items: Seq<ItemView>)
    requires
        failed.failure is Some,
    ensures
        run(schema, failed, items) == failed,
    decreases items.len(),
{
    if items.len() > 0 {
        lemma_failure_is_final(schema, failed, items.drop_last());
    }
}

/// Taking a sequence is taking its first part, then the rest from where the
/// first part ended.
pub proof fn lemma_run_in_parts(
    schema: Seq<ColumnView>,
    start: Progress,
    first: Seq<ItemView>,
    rest: Seq<ItemView>,
)
    ensures
        run(schema, start, first + rest) == run(schema, run(schema, start, first), rest),
    decreases rest.len(),
{
    if rest.len() == 0 {
        assert(first + rest =~= first);
    } else {
        lemma_run_in_parts(schema, start, first, rest.drop_last());
        assert((first + rest).drop_last() =~= first + rest.drop_last());
    }
}

/// A sink never counts more rows than it has seen.
pub proof fn lemma_rows_are_bounded(schema: Seq<ColumnView>, items: Seq<ItemView>)
    ensures
        run(schema, fresh(), items).rows <= total_rows(items),
    decreases items.len(),
{
    if items.len() > 0 {
        lemma_rows_are_bounded(schema, items.drop_last());
    }
}

/// A sink is still without failure after a sequence exactly if every item
/// was a batch over the columns of the schema and the rows of all of them
/// together can be carried by a response. Its rows are then the rows of all
/// the items together.
pub proof fn lemma_clean_run(schema: Seq<ColumnView>, items: Seq<ItemView>)
    ensures
        run(schema, fresh(), items).failure is None <==> total_rows(items) <= ROW_LIMIT && forall|
            i: int,
        |
            0 <= i < items.len() ==> conforms(schema, #[trigger] items[i]),
        run(schema, fresh(), items).failure is None ==> run(schema, fresh(), items).rows
            == total_rows(items),
    decreases items.len(),
{
    if items.len() > 0 {
        let front = items.drop_last();
        lemma_clean_run(schema, front);
        lemma_rows_are_bounded(schema, front);
        if run(schema, fresh(), items).failure is None {
            assert forall|i: int| 0 <= i < items.len() implies conforms(
                schema,
                #[trigger] items[i],
            ) by {
                if i < front.len() {
                    assert(front[i] == items[i]);
                }
            }
        }
        if total_rows(items) <= ROW_LIMIT && forall|i: int|
            0 <= i < items.len() ==> conforms(schema, #[trigger] items[i]) {
            assert forall|i: int| 0 <= i < front.len() implies conforms(
                schema,
                #[trigger] front[i],
            ) by {}
        }
    }
}

/// A count that an ingest reports is the number of rows of all the batches of
/// the stream together, and every item of the stream was a batch over the
/// columns of the schema.
pub proof fn lemma_reported_count_is_total(
    schema: Seq<ColumnView>,
    items: Seq<ItemView>,
    written: Result<u64, Seq<char>>,
)
    requires
        outcome(run(schema, fresh(), items), written) is Ok,
    ensures
        outcome(run(schema, fresh(), items), written) == Ok::<int, Failure>(
            total_rows(items) as int,
        ),
        forall|i: int| 0 <= i < items.len() ==> conforms(schema, #[trigger] items[i]),
{
    lemma_clean_run(schema, items);
}

/// A stream of batches over the columns of the schema, stored by a file writer
/// that says so, is reported with the number of rows of all the batches
/// together.
pub proof fn lemma_conforming_stream_is_counted(schema: Seq<ColumnView>, items: Seq<ItemView>)
    requires
        forall|i: int| 0 <= i < items.len() ==> conforms(schema, #[trigger] items[i]),
        total_rows(items) <= ROW_LIMIT,
    ensures
        outcome(run(schema, fresh(), items), Ok(total_rows(items) as u64)) == Ok::<int, Failure>(
            total_rows(items) as int,
        ),
{
    lemma_clean_run(schema, items);
}

/// A batch over other columns than the schema's fails the ingest, whatever
/// else the stream holds and whatever the file writer says, and neither its
/// rows nor those of any later batch are counted.
pub proof fn lemma_mismatch_fails_ingest(
    schema: Seq<ColumnView>,
    items: Seq<ItemView>,
    at: int,
    written: Result<u64, Seq<char>>,
)
    requires
        0 <= at < items.len(),
        items[at] is Batch,
        !conforms(schema, items[at]),
    ensures
        outcome(run(schema, fresh(), items), written) is Err,
        run(schema, fresh(), items).rows <= total_rows(items.take(at)),
{
    let before = items.take(at);
    let upto = items.take(at + 1);
    let after = items.skip(at + 1);
    assert(upto.drop_last() =~= before);
    assert(upto + after =~= items);
    lemma_rows_are_bounded(schema, before);
    lemma_run_in_parts(schema, fresh(), upto, after);
    lemma_failure_is_final(schema, run(schema, fresh(), upto), after);
}

/// One item on its way to one of two ingests that are served at the same
/// time.
pub struct Arrival {
    pub for_first: bool,
    pub item: ItemView,
}

/// The items of `arrivals` that go to the first ingest, or those that go to
/// the second, in the order in which they arrive.
pub open spec fn arrivals_for(arrivals: Seq<Arrival>, first: bool) -> Seq<ItemView>
    decreases arrivals.len(),
{
    if arrivals.len() == 0 {
        Seq::empty()
    } else if arrivals.last().for_first == first {
        arrivals_for(arrivals.drop_last(), first).push(arrivals.last().item)
    } else {
        arrivals_for(arrivals.drop_last(), first)
    }
}

/// The progress of the sinks of two ingests after `arrivals`, each item taken
/// by the sink of its own ingest at the moment it arrives.
pub open spec fn run_both(
    first_schema: Seq<ColumnView>,
    second_schema: Seq<ColumnView>,
    start: (Progress, Progress),
    arrivals: Seq<Arrival>,
) -> (Progress, Progress)
    decreases arrivals.len(),
{
    if arrivals.len() == 0 {
        start
    } else {
        let before = run_both(first_schema, second_schema, start, arrivals.drop_last());
        if arrivals.last().for_first {
            (step(first_schema, before.0, arrivals.last().item), before.1)
        } else {
            (before.0, step(second_schema, before.1, arrivals.last().item))
        }
    }
}

/// Two ingests that are served at the same time do not touch each other:
/// however their items interleave, each sink ends where it would have ended
/// had it been served alone.
pub proof fn lemma_ingests_do_not_interfere(
    first_schema: Seq<ColumnView>,
    second_schema: Seq<ColumnView>,
    start: (Progress, Progress),
    arrivals: Seq<Arrival>,
)
    ensures
        run_both(first_schema, second_schema, start, arrivals) == (
            run(first_schema, start.0, arrivals_for(arrivals, true)),
            run(second_schema, start.1, arrivals_for(arrivals, false)),
        ),
    decreases arrivals.len(),
{
    if arrivals.len() > 0 {
        let earlier = arrivals.drop_last();
        lemma_ingests_do_not_interfere(first_schema, second_schema, start, earlier);
        let mine = arrivals_for(earlier, arrivals.last().for_first);
        assert(mine.push(arrivals.last().item).drop_last() =~= mine);
    }
}

} // verus!
