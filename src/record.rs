use vstd::prelude::*;
use vstd::string::*;
use crate::decode::{level_of, levels_from, levels_of, number_from, number_of, text_from, text_of};
use crate::json::{
    document_of, field, get_field, member, member_from, parse_document, pretty_text_of,
    render_document, JsonValue,
};
use crate::model::{
    levels_view, Level, OrderBook, PriceSample, PriceSampleView, SnapshotRecord,
    SnapshotRecordView,
};
use crate::stamp::{display_text, LocalStamp};

verus! {

/// Whether `j` is the document written for a price sample:
/// `{"price": <text>, "timestamp": <millis>}`, in that order.
pub open spec fn written_as_price(j: JsonValue, p: PriceSampleView) -> bool {
    match j {
        JsonValue::Object(e) => e@.len() == 2 && e@[0].0@ == "price"@ && text_of(e@[0].1) == Some(
            p.price,
        ) && e@[1].0@ == "timestamp"@ && e@[1].1 == JsonValue::Number(p.captured_at_millis),
        _ => false,
    }
}

/// Whether `j` is the document written for a record: the members
/// `lastUpdateId`, `bids`, `asks`, `current_price`, `local_timestamp` and
/// `local_datetime`, in that order.
pub open spec fn written_as_record(j: JsonValue, r: SnapshotRecordView) -> bool {
    match j {
        JsonValue::Object(e) => e@.len() == 6 && e@[0].0@ == "lastUpdateId"@ && e@[0].1
            == JsonValue::Number(r.last_update_id) && e@[1].0@ == "bids"@ && levels_of(e@[1].1)
            == Some(r.bids) && e@[2].0@ == "asks"@ && levels_of(e@[2].1) == Some(r.asks)
            && e@[3].0@ == "current_price"@ && written_as_price(e@[3].1, r.current_price)
            && e@[4].0@ == "local_timestamp"@ && e@[4].1 == JsonValue::Number(
            r.local_epoch_seconds,
        ) && e@[5].0@ == "local_datetime"@ && text_of(e@[5].1) == Some(r.local_datetime),
        _ => false,
    }
}

/// The price sample that a document describes: members `price` (a string)
/// and `timestamp` (an unsigned integer).
pub open spec fn price_sample_of(j: JsonValue) -> Option<PriceSampleView> {
    let price = field(j, "price"@);
    let stamp = field(j, "timestamp"@);
    if price is Some && stamp is Some && text_of(price->0) is Some && number_of(stamp->0) is Some {
        Some(
            PriceSampleView {
                price: text_of(price->0)->0,
                captured_at_millis: number_of(stamp->0)->0,
            },
        )
    } else {
        None
    }
}

/// The record that a document describes, looked up by member name.
pub open spec fn record_of(j: JsonValue) -> Option<SnapshotRecordView> {
    let id = field(j, "lastUpdateId"@);
    let bids = field(j, "bids"@);
    let asks = field(j, "asks"@);
    let price = field(j, "current_price"@);
    let secs = field(j, "local_timestamp"@);
    let text = field(j, "local_datetime"@);
    if id is Some && bids is Some && asks is Some && price is Some && secs is Some && text is Some
        && number_of(id->0) is Some && levels_of(bids->0) is Some && levels_of(asks->0) is Some
        && price_sample_of(price->0) is Some && number_of(secs->0) is Some && text_of(
        text->0,
    ) is Some {
        Some(
            SnapshotRecordView {
                last_update_id: number_of(id->0)->0,
                bids: levels_of(bids->0)->0,
                asks: levels_of(asks->0)->0,
                current_price: price_sample_of(price->0)->0,
                local_epoch_seconds: number_of(secs->0)->0,
                local_datetime: text_of(text->0)->0,
            },
        )
    } else {
        None
    }
}

/// The record that combines `book` and `price` with the capture time.
pub open spec fn combined(
    book: OrderBook,
    price: PriceSample,
    stamp: LocalStamp,
    epoch_seconds: u64,
) -> SnapshotRecordView {
    SnapshotRecordView {
        last_update_id: book.last_update_id,
        bids: levels_view(book.bids@),
        asks: levels_view(book.asks@),
        current_price: price@,
        local_epoch_seconds: epoch_seconds,
        local_datetime: display_text(stamp),
    }
}

/// Combines one order book and one price sample, taken in the same
/// iteration, with the local capture time.
pub fn build_record(book: OrderBook, price: PriceSample, stamp: &LocalStamp, epoch_seconds: u64) -> (r:
    SnapshotRecord)
    requires
        stamp.wf(),
    ensures
        r@ == combined(book, price, *stamp, epoch_seconds),
{
    let local_datetime = stamp.display();
    SnapshotRecord {
        last_update_id: book.last_update_id,
        bids: book.bids,
        asks: book.asks,
        current_price: price,
        local_epoch_seconds: epoch_seconds,
        local_datetime,
    }
}

fn level_document(l: &Level) -> (r: JsonValue)
    ensures
        level_of(r) == Some(l@),
{
    let mut pair: Vec<JsonValue> = Vec::new();
    pair.push(JsonValue::Text(l.price.clone()));
    pair.push(JsonValue::Text(l.quantity.clone()));
    JsonValue::Array(pair)
}

fn levels_document(levels: &Vec<Level>) -> (r: JsonValue)
    ensures
        levels_of(r) == Some(levels_view(levels@)),
{
    let mut items: Vec<JsonValue> = Vec::new();
    let mut i: usize = 0;
    while i < levels.len()
        invariant
            i <= levels@.len(),
            items@.len() == i,
            forall|k: int| 0 <= k < i ==> (#[trigger] level_of(items@[k])) == Some(levels@[k]@),
        decreases levels@.len() - i,
    {
        items.push(level_document(&levels[i]));
        i = i + 1;
    }
    let r = JsonValue::Array(items);
    assert(levels_of(r)->0 =~= levels_view(levels@));
    r
}

fn member_entry(key: &str, value: JsonValue) -> (r: (String, JsonValue))
    ensures
        r.0@ == key@,
        r.1 == value,
{
    (String::from_str(key), value)
}

fn price_document(p: &PriceSample) -> (r: JsonValue)
    ensures
        written_as_price(r, p@),
{
    let mut e: Vec<(String, JsonValue)> = Vec::new();
    e.push(member_entry("price", JsonValue::Text(p.price.clone())));
    e.push(member_entry("timestamp", JsonValue::Number(p.captured_at_millis)));
    JsonValue::Object(e)
}

/// The JSON document of a record. Reading it back gives the same record.
pub fn record_document(r: &SnapshotRecord) -> (j: JsonValue)
    ensures
        written_as_record(j, r@),
        record_of(j) == Some(r@),
{
    let mut e: Vec<(String, JsonValue)> = Vec::new();
    e.push(member_entry("lastUpdateId", JsonValue::Number(r.last_update_id)));
    e.push(member_entry("bids", levels_document(&r.bids)));
    e.push(member_entry("asks", levels_document(&r.asks)));
    e.push(member_entry("current_price", price_document(&r.current_price)));
    e.push(member_entry("local_timestamp", JsonValue::Number(r.local_epoch_seconds)));
    e.push(member_entry("local_datetime", JsonValue::Text(r.local_datetime.clone())));
    let j = JsonValue::Object(e);
    proof {
        lemma_record_round_trip(j, r@);
    }
    j
}

proof fn lemma_price_round_trip(j: JsonValue, p: PriceSampleView)
    requires
        written_as_price(j, p),
    ensures
        price_sample_of(j) == Some(p),
{
    reveal_strlit("price");
    reveal_strlit("timestamp");
    reveal_with_fuel(member_from, 3);
    let e = j->Object_0@;
    assert(member(e, "price"@) == Some(e[0].1));
    assert("price"@.len() == 5 && "timestamp"@.len() == 9);
    assert(e[0].0@ != "timestamp"@);
    assert(member(e, "timestamp"@) == Some(e[1].1));
}

/// Reading back the document written for a record gives that record, field for
/// field: numbers and texts exactly, levels in their order.
pub proof fn lemma_record_round_trip(j: JsonValue, r: SnapshotRecordView)
    requires
        written_as_record(j, r),
    ensures
        record_of(j) == Some(r),
{
    reveal_strlit("lastUpdateId");
    reveal_strlit("bids");
    reveal_strlit("asks");
    reveal_strlit("current_price");
    reveal_strlit("local_timestamp");
    reveal_strlit("local_datetime");
    reveal_with_fuel(member_from, 7);
    let e = j->Object_0@;
    assert("lastUpdateId"@.len() == 12 && "bids"@.len() == 4 && "asks"@.len() == 4);
    assert("current_price"@.len() == 13 && "local_timestamp"@.len() == 15);
    assert("local_datetime"@.len() == 14);
    assert("bids"@[0] == 'b' && "asks"@[0] == 'a');
    assert("local_timestamp"@[6] == 't' && "local_datetime"@[6] == 'd');
    assert(e[0].0@ != "bids"@);
    assert(e[0].0@ != "asks"@);
    assert(e[1].0@ != "asks"@);
    assert(e[0].0@ != "current_price"@);
    assert(e[1].0@ != "current_price"@);
    assert(e[2].0@ != "current_price"@);
    assert(e[0].0@ != "local_timestamp"@);
    assert(e[1].0@ != "local_timestamp"@);
    assert(e[2].0@ != "local_timestamp"@);
    assert(e[3].0@ != "local_timestamp"@);
    assert(e[0].0@ != "local_datetime"@);
    assert(e[1].0@ != "local_datetime"@);
    assert(e[2].0@ != "local_datetime"@);
    assert(e[3].0@ != "local_datetime"@);
    assert(e[4].0@ != "local_datetime"@);
    lemma_price_round_trip(e[3].1, r.current_price);
    assert(record_of(j) =~= Some(r));
}

/// Reads a price sample from its document.
pub fn price_sample_from_document(j: &JsonValue) -> (r: Option<PriceSample>)
    ensures
        r matches Some(p) ==> price_sample_of(*j) == Some(p@),
        r is None ==> price_sample_of(*j) is None,
{
    let price = get_field(j, &String::from_str("price"));
    let stamp = get_field(j, &String::from_str("timestamp"));
    match (price, stamp) {
        (Some(price), Some(stamp)) => match (text_from(price), number_from(stamp)) {
            (Some(price), Some(captured_at_millis)) => Some(PriceSample { price, captured_at_millis }),
            _ => None,
        },
        _ => None,
    }
}

/// Reads a record from its document.
pub fn record_from_document(j: &JsonValue) -> (r: Option<SnapshotRecord>)
    ensures
        r matches Some(x) ==> record_of(*j) == Some(x@),
        r is None ==> record_of(*j) is None,
{
    let id = get_field(j, &String::from_str("lastUpdateId"));
    let bids = get_field(j, &String::from_str("bids"));
    let asks = get_field(j, &String::from_str("asks"));
    let price = get_field(j, &String::from_str("current_price"));
    let secs = get_field(j, &String::from_str("local_timestamp"));
    let text = get_field(j, &String::from_str("local_datetime"));
    if id.is_none() || bids.is_none() || asks.is_none() || price.is_none() || secs.is_none()
        || text.is_none() {
        return None;
    }
    let id = number_from(id.unwrap());
    let bids = levels_from(bids.unwrap());
    let asks = levels_from(asks.unwrap());
    let price = price_sample_from_document(price.unwrap());
    let secs = number_from(secs.unwrap());
    let text = text_from(text.unwrap());
    match (id, bids, asks, price, secs, text) {
        (Some(last_update_id), Some(bids), Some(asks), Some(current_price), Some(local_epoch_seconds), Some(local_datetime)) => {
            Some(SnapshotRecord { last_update_id, bids, asks, current_price, local_epoch_seconds, local_datetime })
        },
        _ => None,
    }
}

/// The pretty-printed JSON text of a record.
pub fn render_record(r: &SnapshotRecord) -> (t: String)
    ensures
        exists|j: JsonValue| written_as_record(j, r@) && t@ == pretty_text_of(j),
{
    let j = record_document(r);
    let t = render_document(&j);
    t.unwrap()
}

/// Parses the text of a persisted record.
pub fn parse_record(text: &str) -> (r: Option<SnapshotRecord>)
    ensures
        r matches Some(x) ==> document_of(text@) matches Some(d) && record_of(d) == Some(x@),
        r is None ==> (document_of(text@) matches Some(d) ==> record_of(d) is None),
{
    match parse_document(text) {
        Some(d) => record_from_document(&d),
        None => None,
    }
}

} // verus!
