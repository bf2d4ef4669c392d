use vstd::prelude::*;
use vstd::string::*;
use crate::json::{document_of, field, get_field, parse_document, JsonValue};
use crate::model::{levels_view, FetchError, Level, OrderBook, OrderBookView, PriceSample};

verus! {

/// The text held by a JSON string.
pub open spec fn text_of(j: JsonValue) -> Option<Seq<char>> {
    match j {
        JsonValue::Text(t) => Some(t@),
        _ => None,
    }
}

/// A level is an array of exactly two strings: price, then quantity.
pub open spec fn level_of(j: JsonValue) -> Option<(Seq<char>, Seq<char>)> {
    match j {
        JsonValue::Array(a) => if a@.len() == 2 && text_of(a@[0]) is Some && text_of(a@[1]) is Some {
            Some((text_of(a@[0])->0, text_of(a@[1])->0))
        } else {
            None
        },
        _ => None,
    }
}

/// Whether every element of `items` is a level.
pub open spec fn all_levels(items: Seq<JsonValue>) -> bool {
    forall|i: int| 0 <= i < items.len() ==> (#[trigger] level_of(items[i])) is Some
}

/// An array whose every element is a level, in the array's order.
pub open spec fn levels_of(j: JsonValue) -> Option<Seq<(Seq<char>, Seq<char>)>> {
    match j {
        JsonValue::Array(a) => if all_levels(a@) {
            Some(Seq::new(a@.len(), |i: int| level_of(a@[i])->0))
        } else {
            None
        },
        _ => None,
    }
}

/// The unsigned integer held by a JSON number.
pub open spec fn number_of(j: JsonValue) -> Option<u64> {
    match j {
        JsonValue::Number(n) => Some(n),
        _ => None,
    }
}

/// The order book that a depth document describes: an object whose members
/// `lastUpdateId`, `bids` and `asks` are an unsigned integer and two arrays of
/// levels. Other members are ignored.
pub open spec fn order_book_of(doc: JsonValue) -> Option<OrderBookView> {
    let id = field(doc, "lastUpdateId"@);
    let bids = field(doc, "bids"@);
    let asks = field(doc, "asks"@);
    if id is Some && bids is Some && asks is Some && number_of(id->0) is Some
        && levels_of(bids->0) is Some && levels_of(asks->0) is Some {
        Some(
            OrderBookView {
                last_update_id: number_of(id->0)->0,
                bids: levels_of(bids->0)->0,
                asks: levels_of(asks->0)->0,
            },
        )
    } else {
        None
    }
}

/// The price that a ticker document reports: its member `price`, a string.
pub open spec fn ticker_price_of(doc: JsonValue) -> Option<Seq<char>> {
    match field(doc, "price"@) {
        Some(p) => text_of(p),
        None => None,
    }
}

/// Whether an HTTP status counts as success.
pub open spec fn is_success_status(status: u16) -> bool {
    200 <= status <= 299
}

pub fn success_status(status: u16) -> (r: bool)
    ensures
        r == is_success_status(status),
{
    200 <= status && status <= 299
}

/// Reads the text of a JSON string.
pub fn text_from(j: &JsonValue) -> (r: Option<String>)
    ensures
        r matches Some(s) ==> text_of(*j) == Some(s@),
        r is None ==> text_of(*j) is None,
{
    match j {
        JsonValue::Text(t) => Some(t.clone()),
        _ => None,
    }
}

/// Reads one level.
pub fn level_from(j: &JsonValue) -> (r: Option<Level>)
    ensures
        r matches Some(l) ==> level_of(*j) == Some(l@),
        r is None ==> level_of(*j) is None,
{
    match j {
        JsonValue::Array(a) => {
            if a.len() != 2 {
                return None;
            }
            let price = text_from(&a[0]);
            let quantity = text_from(&a[1]);
            match (price, quantity) {
                (Some(price), Some(quantity)) => Some(Level { price, quantity }),
                _ => None,
            }
        },
        _ => None,
    }
}

/// Reads an array of levels, keeping its order.
pub fn levels_from(j: &JsonValue) -> (r: Option<Vec<Level>>)
    ensures
        r matches Some(ls) ==> levels_of(*j) == Some(levels_view(ls@)),
        r is None ==> levels_of(*j) is None,
{
    match j {
        JsonValue::Array(a) => {
            let mut out: Vec<Level> = Vec::new();
            let mut i: usize = 0;
            while i < a.len()
                invariant
                    *j == JsonValue::Array(*a),
                    i <= a@.len(),
                    out@.len() == i,
                    forall|k: int| 0 <= k < i ==> (#[trigger] level_of(a@[k])) == Some(out@[k]@),
                decreases a@.len() - i,
            {
                match level_from(&a[i]) {
                    Some(l) => out.push(l),
                    None => {
                        assert(level_of(a@[i as int]) is None);
                        return None;
                    },
                }
                i = i + 1;
            }
            assert(levels_view(out@) =~= Seq::new(a@.len(), |i: int| level_of(a@[i])->0));
            Some(out)
        },
        _ => None,
    }
}

/// Reads the unsigned integer of a JSON number.
pub fn number_from(j: &JsonValue) -> (r: Option<u64>)
    ensures
        r == number_of(*j),
{
    match j {
        JsonValue::Number(n) => Some(*n),
        _ => None,
    }
}

/// Reads the order book that a parsed depth document describes.
pub fn order_book_from_document(doc: &JsonValue) -> (r: Option<OrderBook>)
    ensures
        r matches Some(b) ==> order_book_of(*doc) == Some(b@),
        r is None ==> order_book_of(*doc) is None,
{
    let id = get_field(doc, &String::from_str("lastUpdateId"));
    let bids = get_field(doc, &String::from_str("bids"));
    let asks = get_field(doc, &String::from_str("asks"));
    match (id, bids, asks) {
        (Some(id), Some(bids), Some(asks)) => {
            let id = number_from(id);
            let bids = levels_from(bids);
            let asks = levels_from(asks);
            match (id, bids, asks) {
                (Some(last_update_id), Some(bids), Some(asks)) => Some(
                    OrderBook { last_update_id, bids, asks },
                ),
                _ => None,
            }
        },
        _ => None,
    }
}

/// Reads the price that a parsed ticker document reports.
pub fn ticker_price_from_document(doc: &JsonValue) -> (r: Option<String>)
    ensures
        r matches Some(p) ==> ticker_price_of(*doc) == Some(p@),
        r is None ==> ticker_price_of(*doc) is None,
{
    match get_field(doc, &String::from_str("price")) {
        Some(p) => text_from(p),
        None => None,
    }
}

/// The order book that a depth body describes, if it is JSON of that shape.
pub open spec fn depth_of_body(body: Seq<char>) -> Option<OrderBookView> {
    match document_of(body) {
        Some(d) => order_book_of(d),
        None => None,
    }
}

/// The price that a ticker body reports, if it is JSON of that shape.
pub open spec fn price_of_body(body: Seq<char>) -> Option<Seq<char>> {
    match document_of(body) {
        Some(d) => ticker_price_of(d),
        None => None,
    }
}

fn parse_error(what: &str) -> (e: FetchError)
    ensures
        e is Parse,
{
    FetchError::Parse(String::from_str(what))
}

/// Decodes the depth endpoint's answer: its HTTP status and body.
pub fn decode_depth_response(status: u16, body: &str) -> (r: Result<OrderBook, FetchError>)
    ensures
        r matches Ok(b) ==> is_success_status(status) && depth_of_body(body@) == Some(b@),
        is_success_status(status) && depth_of_body(body@) is Some ==> r is Ok,
        !is_success_status(status) ==> r == Err::<OrderBook, FetchError>(FetchError::HttpStatus(status)),
        is_success_status(status) ==> (r matches Err(e) ==> e is Parse),
{
    if !success_status(status) {
        return Err(FetchError::HttpStatus(status));
    }
    match parse_document(body) {
        None => Err(parse_error("depth body is not JSON")),
        Some(doc) => match order_book_from_document(&doc) {
            Some(book) => Ok(book),
            None => Err(parse_error("depth body is not an order book")),
        },
    }
}

/// Decodes the ticker endpoint's answer: its HTTP status and body; the sample
/// is stamped with `captured_at_millis`.
pub fn decode_price_response(status: u16, body: &str, captured_at_millis: u64) -> (r: Result<
    PriceSample,
    FetchError,
>)
    ensures
        r matches Ok(p) ==> is_success_status(status) && price_of_body(body@) == Some(p.price@)
            && p.captured_at_millis == captured_at_millis,
        is_success_status(status) && price_of_body(body@) is Some ==> r is Ok,
        !is_success_status(status) ==> r == Err::<PriceSample, FetchError>(FetchError::HttpStatus(status)),
        is_success_status(status) ==> (r matches Err(e) ==> e is Parse),
{
    if !success_status(status) {
        return Err(FetchError::HttpStatus(status));
    }
    match parse_document(body) {
        None => Err(parse_error("ticker body is not JSON")),
        Some(doc) => match ticker_price_from_document(&doc) {
            Some(price) => Ok(PriceSample { price, captured_at_millis }),
            None => Err(parse_error("ticker body has no price")),
        },
    }
}

} // verus!
