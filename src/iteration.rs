use vstd::prelude::*;
use vstd::string::*;
use crate::json::{pretty_text_of, JsonValue};
use crate::model::{FetchError, OrderBook, PriceSample};
use crate::record::{build_record, combined, render_record, written_as_record};
use crate::stamp::{snapshot_file_name, snapshot_path, valid_parts, LocalStamp};

verus! {

/// What the two legs of one iteration came to.
pub enum Reconciled {
    /// Both legs succeeded: a record can be made of these.
    Ready(OrderBook, PriceSample),
    /// At least one leg failed; each leg's own error, if it had one. Nothing is persisted.
    Failed { depth: Option<FetchError>, price: Option<FetchError> },
}

/// The error of a leg's outcome, if it failed.
pub open spec fn leg_error<T>(r: Result<T, FetchError>) -> Option<FetchError> {
    match r {
        Ok(_) => None,
        Err(e) => Some(e),
    }
}

/// The reconciled outcome of a depth leg and a price leg.
pub open spec fn reconciled(
    depth: Result<OrderBook, FetchError>,
    price: Result<PriceSample, FetchError>,
) -> Reconciled {
    match (depth, price) {
        (Ok(b), Ok(p)) => Reconciled::Ready(b, p),
        _ => Reconciled::Failed { depth: leg_error(depth), price: leg_error(price) },
    }
}

/// The depth leg's error as an outcome reports it.
pub open spec fn depth_failure(r: Reconciled) -> Option<FetchError> {
    match r {
        Reconciled::Ready(_, _) => None,
        Reconciled::Failed { depth, price: _ } => depth,
    }
}

/// The price leg's error as an outcome reports it.
pub open spec fn price_failure(r: Reconciled) -> Option<FetchError> {
    match r {
        Reconciled::Ready(_, _) => None,
        Reconciled::Failed { depth: _, price } => price,
    }
}

/// Joins the outcomes of the two legs of an iteration.
pub fn reconcile(depth: Result<OrderBook, FetchError>, price: Result<PriceSample, FetchError>) -> (r:
    Reconciled)
    ensures
        r == reconciled(depth, price),
{
    match (depth, price) {
        (Ok(b), Ok(p)) => Reconciled::Ready(b, p),
        (Err(d), Ok(_)) => Reconciled::Failed { depth: Some(d), price: None },
        (Ok(_), Err(p)) => Reconciled::Failed { depth: None, price: Some(p) },
        (Err(d), Err(p)) => Reconciled::Failed { depth: Some(d), price: Some(p) },
    }
}

/// A record is ready to persist exactly when both legs succeeded; otherwise
/// nothing of the iteration is persisted.
pub proof fn lemma_ready_only_when_both_succeed(
    depth: Result<OrderBook, FetchError>,
    price: Result<PriceSample, FetchError>,
)
    ensures
        reconciled(depth, price) is Ready <==> (depth is Ok && price is Ok),
        reconciled(depth, price) matches Reconciled::Ready(b, p) ==> depth == Ok::<
            OrderBook,
            FetchError,
        >(b) && price == Ok::<PriceSample, FetchError>(p),
{
}

/// Each leg's failure is reported as that leg's own, whatever the other leg
/// came to: a failing leg neither hides nor stands in for the other.
pub proof fn lemma_legs_independent(
    depth: Result<OrderBook, FetchError>,
    price: Result<PriceSample, FetchError>,
)
    ensures
        depth_failure(reconciled(depth, price)) == leg_error(depth),
        price_failure(reconciled(depth, price)) == leg_error(price),
{
}

/// A file to write: where, and what.
pub struct SnapshotFile {
    pub path: String,
    pub contents: String,
}

/// Builds the file of the snapshot of `symbol` taken at `stamp`
/// (`epoch_seconds` since the epoch) under `dir`.
pub fn snapshot_file(
    book: OrderBook,
    price: PriceSample,
    symbol: &str,
    dir: &str,
    stamp: &LocalStamp,
    epoch_seconds: u64,
) -> (f: SnapshotFile)
    requires
        stamp.wf(),
    ensures
        f.path@ == snapshot_file_name(dir@, symbol@, *stamp),
        exists|j: JsonValue|
            written_as_record(j, combined(book, price, *stamp, epoch_seconds)) && f.contents@
                == pretty_text_of(j),
{
    let path = snapshot_path(dir, symbol, stamp);
    let record = build_record(book, price, stamp, epoch_seconds);
    let contents = render_record(&record);
    SnapshotFile { path, contents }
}

/// Builds the file of the snapshot of `symbol` under `dir` from a reading of
/// the local clock: its date and time parts and the seconds since the epoch.
/// Fails, with a persistence error, exactly where the year is outside
/// 0..=9999, a part is out of range, or the reading is before the epoch.
pub fn snapshot_file_at(
    book: OrderBook,
    price: PriceSample,
    symbol: &str,
    dir: &str,
    year: i32,
    month: u32,
    day: u32,
    hour: u32,
    minute: u32,
    second: u32,
    epoch_seconds: i64,
) -> (r: Result<SnapshotFile, FetchError>)
    ensures
        r is Ok <==> valid_parts(year, month, day, hour, minute, second) && epoch_seconds >= 0,
        r matches Ok(f) ==> ({
            let stamp = LocalStamp { year, month, day, hour, minute, second };
            f.path@ == snapshot_file_name(dir@, symbol@, stamp) && exists|j: JsonValue|
                written_as_record(j, combined(book, price, stamp, epoch_seconds as u64))
                    && f.contents@ == pretty_text_of(j)
        }),
        r matches Err(e) ==> e is Persistence,
{
    match LocalStamp::from_parts(year, month, day, hour, minute, second) {
        None => Err(FetchError::Persistence(String::from_str("the local time is out of range"))),
        Some(stamp) => {
            if epoch_seconds < 0 {
                return Err(FetchError::Persistence(String::from_str("the clock reads before the epoch")));
            }
            Ok(snapshot_file(book, price, symbol, dir, &stamp, epoch_seconds as u64))
        },
    }
}

} // verus!
