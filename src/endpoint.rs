use vstd::prelude::*;
use vstd::string::*;
use crate::stamp::{digit, push_digit};

verus! {

/// Number of price levels asked for on each side of the book.
pub const DEFAULT_DEPTH_LIMIT: u32 = 100;

/// `n` in decimal, without leading zeros.
pub open spec fn decimal(n: nat) -> Seq<char>
    decreases n,
{
    if n < 10 {
        seq![digit(n as int)]
    } else {
        decimal(n / 10).push(digit((n % 10) as int))
    }
}

/// Appends `n` in decimal.
fn push_decimal(out: &mut String, n: u64)
    ensures
        final(out)@ == old(out)@ + decimal(n as nat),
    decreases n,
{
    if n >= 10 {
        push_decimal(out, n / 10);
    }
    push_digit(out, (n % 10) as u32);
    assert(final(out)@ =~= old(out)@ + decimal(n as nat));
}

/// The exchange's REST API root.
pub open spec fn api_root() -> Seq<char> {
    "https://api.binance.us/api/v3"@
}

/// `GET <root>/depth?symbol=<symbol>&limit=<limit>`.
pub open spec fn depth_url_of(symbol: Seq<char>, limit: u32) -> Seq<char> {
    api_root() + "/depth?symbol="@ + symbol + "&limit="@ + decimal(limit as nat)
}

/// `GET <root>/ticker/price?symbol=<symbol>`.
pub open spec fn ticker_url_of(symbol: Seq<char>) -> Seq<char> {
    api_root() + "/ticker/price?symbol="@ + symbol
}

/// The URL of the order-book depth of `symbol`, `limit` levels a side.
pub fn depth_url(symbol: &str, limit: u32) -> (r: String)
    ensures
        r@ == depth_url_of(symbol@, limit),
{
    let mut out = String::from_str("https://api.binance.us/api/v3");
    out.append("/depth?symbol=");
    out.append(symbol);
    out.append("&limit=");
    push_decimal(&mut out, limit as u64);
    assert(out@ =~= depth_url_of(symbol@, limit));
    out
}

/// The URL of the last traded price of `symbol`.
pub fn ticker_url(symbol: &str) -> (r: String)
    ensures
        r@ == ticker_url_of(symbol@),
{
    let mut out = String::from_str("https://api.binance.us/api/v3");
    out.append("/ticker/price?symbol=");
    out.append(symbol);
    assert(out@ =~= ticker_url_of(symbol@));
    out
}

} // verus!
