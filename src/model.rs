use vstd::prelude::*;

verus! {

/// One price level of an order book, kept as the exchange's decimal text.
pub struct Level {
    pub price: String,
    pub quantity: String,
}

impl View for Level {
    type V = (Seq<char>, Seq<char>);

    open spec fn view(&self) -> (Seq<char>, Seq<char>) {
        (self.price@, self.quantity@)
    }
}

/// The views of a sequence of levels, in order.
pub open spec fn levels_view(levels: Seq<Level>) -> Seq<(Seq<char>, Seq<char>)> {
    levels.map_values(|l: Level| l@)
}

/// An order book as the depth endpoint reports it: best price first on each side.
pub struct OrderBook {
    pub last_update_id: u64,
    pub bids: Vec<Level>,
    pub asks: Vec<Level>,
}

pub struct OrderBookView {
    pub last_update_id: u64,
    pub bids: Seq<(Seq<char>, Seq<char>)>,
    pub asks: Seq<(Seq<char>, Seq<char>)>,
}

impl View for OrderBook {
    type V = OrderBookView;

    open spec fn view(&self) -> OrderBookView {
        OrderBookView {
            last_update_id: self.last_update_id,
            bids: levels_view(self.bids@),
            asks: levels_view(self.asks@),
        }
    }
}

/// The last traded price and the moment, in milliseconds since the epoch, it was taken.
pub struct PriceSample {
    pub price: String,
    pub captured_at_millis: u64,
}

pub struct PriceSampleView {
    pub price: Seq<char>,
    pub captured_at_millis: u64,
}

impl View for PriceSample {
    type V = PriceSampleView;

    open spec fn view(&self) -> PriceSampleView {
        PriceSampleView { price: self.price@, captured_at_millis: self.captured_at_millis }
    }
}

/// The persisted unit: one order book, one price, and the local capture time.
pub struct SnapshotRecord {
    pub last_update_id: u64,
    pub bids: Vec<Level>,
    pub asks: Vec<Level>,
    pub current_price: PriceSample,
    pub local_epoch_seconds: u64,
    pub local_datetime: String,
}

pub struct SnapshotRecordView {
    pub last_update_id: u64,
    pub bids: Seq<(Seq<char>, Seq<char>)>,
    pub asks: Seq<(Seq<char>, Seq<char>)>,
    pub current_price: PriceSampleView,
    pub local_epoch_seconds: u64,
    pub local_datetime: Seq<char>,
}

impl View for SnapshotRecord {
    type V = SnapshotRecordView;

    open spec fn view(&self) -> SnapshotRecordView {
        SnapshotRecordView {
            last_update_id: self.last_update_id,
            bids: levels_view(self.bids@),
            asks: levels_view(self.asks@),
            current_price: self.current_price@,
            local_epoch_seconds: self.local_epoch_seconds,
            local_datetime: self.local_datetime@,
        }
    }
}

/// Why one leg of an iteration, or its persistence, failed.
pub enum FetchError {
    /// The request did not complete (connection, name lookup, timeout).
    Transport(String),
    /// The server answered with a status outside 200..=299.
    HttpStatus(u16),
    /// The body was not JSON, or not of the expected shape.
    Parse(String),
    /// The record could not be rendered or written.
    Persistence(String),
}

} // verus!
