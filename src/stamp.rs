use vstd::prelude::*;
use vstd::string::*;

verus! {

/// A local wall-clock time at second resolution.
pub struct LocalStamp {
    pub year: i32,
    pub month: u32,
    pub day: u32,
    pub hour: u32,
    pub minute: u32,
    pub second: u32,
}

/// Whether the parts make a stamp of this library: a four-digit year and
/// month, day, hour, minute and second in their ranges.
pub open spec fn valid_parts(year: i32, month: u32, day: u32, hour: u32, minute: u32, second: u32) -> bool {
    0 <= year <= 9999 && 1 <= month <= 12 && 1 <= day <= 31 && hour < 24 && minute < 60 && second
        < 60
}

impl LocalStamp {
    pub open spec fn wf(&self) -> bool {
        valid_parts(self.year, self.month, self.day, self.hour, self.minute, self.second)
    }

    /// Builds a stamp from its parts, or `None` where a part is out of range.
    pub fn from_parts(year: i32, month: u32, day: u32, hour: u32, minute: u32, second: u32) -> (r:
        Option<LocalStamp>)
        ensures
            r is Some <==> valid_parts(year, month, day, hour, minute, second),
            r matches Some(s) ==> s == (LocalStamp { year, month, day, hour, minute, second }),
    {
        if 0 <= year && year <= 9999 && 1 <= month && month <= 12 && 1 <= day && day <= 31 && hour
            < 24 && minute < 60 && second < 60 {
            Some(LocalStamp { year, month, day, hour, minute, second })
        } else {
            None
        }
    }
}

/// The decimal digit `d`, for `d` in 0..=9.
pub open spec fn digit(d: int) -> char {
    if d == 0 {
        '0'
    } else if d == 1 {
        '1'
    } else if d == 2 {
        '2'
    } else if d == 3 {
        '3'
    } else if d == 4 {
        '4'
    } else if d == 5 {
        '5'
    } else if d == 6 {
        '6'
    } else if d == 7 {
        '7'
    } else if d == 8 {
        '8'
    } else {
        '9'
    }
}

/// `n` in two zero-padded decimal digits.
pub open spec fn two_digits(n: int) -> Seq<char> {
    seq![digit(n / 10), digit(n % 10)]
}

/// `n` in four zero-padded decimal digits.
pub open spec fn four_digits(n: int) -> Seq<char> {
    seq![digit(n / 1000), digit(n / 100 % 10), digit(n / 10 % 10), digit(n % 10)]
}

/// The stamp as `YYYYMMDD_HHMMSS`.
pub open spec fn compact_text(s: LocalStamp) -> Seq<char> {
    four_digits(s.year as int) + two_digits(s.month as int) + two_digits(s.day as int) + seq!['_']
        + two_digits(s.hour as int) + two_digits(s.minute as int) + two_digits(s.second as int)
}

/// The stamp as `YYYY-MM-DD HH:MM:SS`.
pub open spec fn display_text(s: LocalStamp) -> Seq<char> {
    four_digits(s.year as int) + seq!['-'] + two_digits(s.month as int) + seq!['-'] + two_digits(
        s.day as int,
    ) + seq![' '] + two_digits(s.hour as int) + seq![':'] + two_digits(s.minute as int) + seq![':']
        + two_digits(s.second as int)
}

/// The path of the snapshot file: `<dir>/orderbook_<symbol>_<YYYYMMDD_HHMMSS>.json`.
pub open spec fn snapshot_file_name(dir: Seq<char>, symbol: Seq<char>, s: LocalStamp) -> Seq<char> {
    dir + "/orderbook_"@ + symbol + "_"@ + compact_text(s) + ".json"@
}

/// Appends the decimal digit `d`.
pub(crate) fn push_digit(out: &mut String, d: u32)
    requires
        d < 10,
    ensures
        final(out)@ == old(out)@.push(digit(d as int)),
{
    let lit: &str = if d == 0 {
        "0"
    } else if d == 1 {
        "1"
    } else if d == 2 {
        "2"
    } else if d == 3 {
        "3"
    } else if d == 4 {
        "4"
    } else if d == 5 {
        "5"
    } else if d == 6 {
        "6"
    } else if d == 7 {
        "7"
    } else if d == 8 {
        "8"
    } else {
        "9"
    };
    proof {
        reveal_strlit("0");
        reveal_strlit("1");
        reveal_strlit("2");
        reveal_strlit("3");
        reveal_strlit("4");
        reveal_strlit("5");
        reveal_strlit("6");
        reveal_strlit("7");
        reveal_strlit("8");
        reveal_strlit("9");
    }
    assert(lit@ =~= seq![digit(d as int)]);
    out.append(lit);
}

/// Appends `n` in two zero-padded digits.
fn push_two_digits(out: &mut String, n: u32)
    requires
        n < 100,
    ensures
        final(out)@ == old(out)@ + two_digits(n as int),
{
    push_digit(out, n / 10);
    push_digit(out, n % 10);
    assert(final(out)@ =~= old(out)@ + two_digits(n as int));
}

/// Appends `n` in four zero-padded digits.
fn push_four_digits(out: &mut String, n: u32)
    requires
        n < 10000,
    ensures
        final(out)@ == old(out)@ + four_digits(n as int),
{
    push_digit(out, n / 1000);
    push_digit(out, n / 100 % 10);
    push_digit(out, n / 10 % 10);
    push_digit(out, n % 10);
    assert(final(out)@ =~= old(out)@ + four_digits(n as int));
}

/// Appends a one-character separator.
fn push_separator(out: &mut String, sep: &str)
    requires
        sep@.len() == 1,
    ensures
        final(out)@ == old(out)@ + sep@,
{
    out.append(sep);
}

impl LocalStamp {
    /// The stamp as `YYYYMMDD_HHMMSS`, as it appears in file names.
    pub fn compact(&self) -> (r: String)
        requires
            self.wf(),
        ensures
            r@ == compact_text(*self),
    {
        let mut out = String::new();
        push_four_digits(&mut out, self.year as u32);
        push_two_digits(&mut out, self.month);
        push_two_digits(&mut out, self.day);
        proof {
            reveal_strlit("_");
        }
        push_separator(&mut out, "_");
        push_two_digits(&mut out, self.hour);
        push_two_digits(&mut out, self.minute);
        push_two_digits(&mut out, self.second);
        assert(out@ =~= compact_text(*self));
        out
    }

    /// The stamp as `YYYY-MM-DD HH:MM:SS`, as it appears in records.
    pub fn display(&self) -> (r: String)
        requires
            self.wf(),
        ensures
            r@ == display_text(*self),
    {
        proof {
            reveal_strlit("-");
            reveal_strlit(" ");
            reveal_strlit(":");
        }
        let mut out = String::new();
        push_four_digits(&mut out, self.year as u32);
        push_separator(&mut out, "-");
        push_two_digits(&mut out, self.month);
        push_separator(&mut out, "-");
        push_two_digits(&mut out, self.day);
        push_separator(&mut out, " ");
        push_two_digits(&mut out, self.hour);
        push_separator(&mut out, ":");
        push_two_digits(&mut out, self.minute);
        push_separator(&mut out, ":");
        push_two_digits(&mut out, self.second);
        assert(out@ =~= display_text(*self));
        out
    }
}

/// The path under `dir` of the snapshot of `symbol` taken at `stamp`.
pub fn snapshot_path(dir: &str, symbol: &str, stamp: &LocalStamp) -> (r: String)
    requires
        stamp.wf(),
    ensures
        r@ == snapshot_file_name(dir@, symbol@, *stamp),
{
    let mut out = String::from_str(dir);
    out.append("/orderbook_");
    out.append(symbol);
    out.append("_");
    let compact = stamp.compact();
    out.append(compact.as_str());
    out.append(".json");
    assert(out@ =~= snapshot_file_name(dir@, symbol@, *stamp));
    out
}

proof fn lemma_digit_injective(a: int, b: int)
    requires
        0 <= a < 10,
        0 <= b < 10,
        digit(a) == digit(b),
    ensures
        a == b,
{
}

proof fn lemma_two_digits_injective(a: int, b: int)
    requires
        0 <= a < 100,
        0 <= b < 100,
        two_digits(a) == two_digits(b),
    ensures
        a == b,
{
    assert(two_digits(a)[0] == two_digits(b)[0]);
    assert(two_digits(a)[1] == two_digits(b)[1]);
    lemma_digit_injective(a / 10, b / 10);
    lemma_digit_injective(a % 10, b % 10);
}

proof fn lemma_four_digits_injective(a: int, b: int)
    requires
        0 <= a < 10000,
        0 <= b < 10000,
        four_digits(a) == four_digits(b),
    ensures
        a == b,
{
    assert(four_digits(a)[0] == four_digits(b)[0]);
    assert(four_digits(a)[1] == four_digits(b)[1]);
    assert(four_digits(a)[2] == four_digits(b)[2]);
    assert(four_digits(a)[3] == four_digits(b)[3]);
    lemma_digit_injective(a / 1000, b / 1000);
    lemma_digit_injective(a / 100 % 10, b / 100 % 10);
    lemma_digit_injective(a / 10 % 10, b / 10 % 10);
    lemma_digit_injective(a % 10, b % 10);
}

/// Two valid stamps with the same compact text are the same stamp.
pub proof fn lemma_compact_injective(a: LocalStamp, b: LocalStamp)
    requires
        a.wf(),
        b.wf(),
        compact_text(a) == compact_text(b),
    ensures
        a == b,
{
    let (x, y) = (compact_text(a), compact_text(b));
    assert(x.subrange(0, 4) =~= four_digits(a.year as int));
    assert(y.subrange(0, 4) =~= four_digits(b.year as int));
    assert(x.subrange(4, 6) =~= two_digits(a.month as int));
    assert(y.subrange(4, 6) =~= two_digits(b.month as int));
    assert(x.subrange(6, 8) =~= two_digits(a.day as int));
    assert(y.subrange(6, 8) =~= two_digits(b.day as int));
    assert(x.subrange(9, 11) =~= two_digits(a.hour as int));
    assert(y.subrange(9, 11) =~= two_digits(b.hour as int));
    assert(x.subrange(11, 13) =~= two_digits(a.minute as int));
    assert(y.subrange(11, 13) =~= two_digits(b.minute as int));
    assert(x.subrange(13, 15) =~= two_digits(a.second as int));
    assert(y.subrange(13, 15) =~= two_digits(b.second as int));
    lemma_four_digits_injective(a.year as int, b.year as int);
    lemma_two_digits_injective(a.month as int, b.month as int);
    lemma_two_digits_injective(a.day as int, b.day as int);
    lemma_two_digits_injective(a.hour as int, b.hour as int);
    lemma_two_digits_injective(a.minute as int, b.minute as int);
    lemma_two_digits_injective(a.second as int, b.second as int);
}

/// Snapshots of one symbol under one directory taken at different seconds get
/// different file names, so neither overwrites the other.
pub proof fn lemma_file_names_distinct(dir: Seq<char>, symbol: Seq<char>, a: LocalStamp, b: LocalStamp)
    requires
        a.wf(),
        b.wf(),
        a != b,
    ensures
        snapshot_file_name(dir, symbol, a) != snapshot_file_name(dir, symbol, b),
{
    reveal_strlit("/orderbook_");
    reveal_strlit("_");
    let start: int = (dir.len() + 11 + symbol.len() + 1) as int;
    if snapshot_file_name(dir, symbol, a) == snapshot_file_name(dir, symbol, b) {
        assert(snapshot_file_name(dir, symbol, a).subrange(start, start + 15) =~= compact_text(a));
        assert(snapshot_file_name(dir, symbol, b).subrange(start, start + 15) =~= compact_text(b));
        lemma_compact_injective(a, b);
    }
}

/// Whether stamp `a` is an earlier second than stamp `b`.
pub open spec fn earlier(a: LocalStamp, b: LocalStamp) -> bool {
    a.year < b.year || (a.year == b.year && (a.month < b.month || (a.month == b.month && (a.day
        < b.day || (a.day == b.day && (a.hour < b.hour || (a.hour == b.hour && (a.minute
        < b.minute || (a.minute == b.minute && a.second < b.second)))))))))
}

/// Whether `x` comes before `y` in lexical order: they agree up to some
/// index, where `x` holds the smaller character.
pub open spec fn lex_less(x: Seq<char>, y: Seq<char>) -> bool {
    exists|i: int|
        0 <= i < x.len() && i < y.len() && #[trigger] x.subrange(0, i) == y.subrange(0, i) && x[i]
            < y[i]
}

proof fn lemma_digit_less(a: int, b: int)
    requires
        0 <= a < b < 10,
    ensures
        digit(a) < digit(b),
{
}

proof fn lemma_two_digits_less(a: int, b: int)
    requires
        0 <= a < b < 100,
    ensures
        lex_less(two_digits(a), two_digits(b)),
{
    let (x, y) = (two_digits(a), two_digits(b));
    if a / 10 < b / 10 {
        lemma_digit_less(a / 10, b / 10);
        assert(x.subrange(0, 0) =~= y.subrange(0, 0));
    } else {
        lemma_digit_less(a % 10, b % 10);
        assert(x.subrange(0, 1) =~= y.subrange(0, 1));
    }
}

proof fn lemma_four_digits_halves(n: int)
    requires
        0 <= n < 10000,
    ensures
        four_digits(n) == two_digits(n / 100) + two_digits(n % 100),
{
    assert(n / 1000 == (n / 100) / 10) by (nonlinear_arith)
        requires
            0 <= n < 10000,
    ;
    assert(n / 10 % 10 == (n % 100) / 10) by (nonlinear_arith)
        requires
            0 <= n < 10000,
    ;
    assert(n % 10 == (n % 100) % 10) by (nonlinear_arith)
        requires
            0 <= n < 10000,
    ;
    assert(four_digits(n) =~= two_digits(n / 100) + two_digits(n % 100));
}

proof fn lemma_four_digits_less(a: int, b: int)
    requires
        0 <= a < b < 10000,
    ensures
        lex_less(four_digits(a), four_digits(b)),
{
    lemma_four_digits_halves(a);
    lemma_four_digits_halves(b);
    let (x, y) = (four_digits(a), four_digits(b));
    assert(a / 100 <= b / 100) by (nonlinear_arith)
        requires
            0 <= a < b,
    ;
    assert(x.subrange(0, 2) =~= two_digits(a / 100));
    assert(y.subrange(0, 2) =~= two_digits(b / 100));
    assert(x.subrange(2, 4) =~= two_digits(a % 100));
    assert(y.subrange(2, 4) =~= two_digits(b % 100));
    if a / 100 < b / 100 {
        lemma_two_digits_less(a / 100, b / 100);
        assert(x.subrange(0, 0) =~= y.subrange(0, 0));
        lemma_lex_at(x, y, 0, two_digits(a / 100), two_digits(b / 100));
    } else {
        assert(a % 100 < b % 100) by (nonlinear_arith)
            requires
                0 <= a < b,
                a / 100 == b / 100,
        ;
        lemma_two_digits_less(a % 100, b % 100);
        assert(x.subrange(0, 2) =~= y.subrange(0, 2));
        lemma_lex_at(x, y, 2, two_digits(a % 100), two_digits(b % 100));
    }
}

/// Texts that agree before `off` and hold, from `off` on, parts of one length
/// in lexical order are themselves in lexical order.
proof fn lemma_lex_at(x: Seq<char>, y: Seq<char>, off: int, fx: Seq<char>, fy: Seq<char>)
    requires
        0 <= off,
        fx.len() == fy.len(),
        off + fx.len() <= x.len(),
        off + fy.len() <= y.len(),
        x.subrange(0, off) == y.subrange(0, off),
        x.subrange(off, off + fx.len()) == fx,
        y.subrange(off, off + fy.len()) == fy,
        lex_less(fx, fy),
    ensures
        lex_less(x, y),
{
    let i = choose|i: int|
        0 <= i < fx.len() && i < fy.len() && #[trigger] fx.subrange(0, i) == fy.subrange(0, i)
            && fx[i] < fy[i];
    assert(0 <= i < fx.len());
    assert(fx.subrange(0, i) == fy.subrange(0, i));
    assert forall|k: int| 0 <= k < off + i implies x[k] == y[k] by {
        if k < off {
            assert(x.subrange(0, off)[k] == y.subrange(0, off)[k]);
            assert(x[k] == x.subrange(0, off)[k]);
            assert(y[k] == y.subrange(0, off)[k]);
        } else {
            let m = k - off;
            assert(fx.subrange(0, i)[m] == fy.subrange(0, i)[m]);
            assert(fx[m] == fy[m]);
            assert(x.subrange(off, off + fx.len())[m] == fx[m]);
            assert(y.subrange(off, off + fy.len())[m] == fy[m]);
            assert(x[k] == x.subrange(off, off + fx.len())[m]);
            assert(y[k] == y.subrange(off, off + fy.len())[m]);
        }
    }
    assert(x.subrange(off, off + fx.len())[i] == fx[i]);
    assert(y.subrange(off, off + fy.len())[i] == fy[i]);
    assert(x.subrange(0, off + i) =~= y.subrange(0, off + i));
}

proof fn lemma_compact_ordered(a: LocalStamp, b: LocalStamp)
    requires
        a.wf(),
        b.wf(),
        earlier(a, b),
    ensures
        lex_less(compact_text(a), compact_text(b)),
{
    let (x, y) = (compact_text(a), compact_text(b));
    assert(x.subrange(0, 4) =~= four_digits(a.year as int));
    assert(y.subrange(0, 4) =~= four_digits(b.year as int));
    assert(x.subrange(4, 6) =~= two_digits(a.month as int));
    assert(y.subrange(4, 6) =~= two_digits(b.month as int));
    assert(x.subrange(6, 8) =~= two_digits(a.day as int));
    assert(y.subrange(6, 8) =~= two_digits(b.day as int));
    assert(x.subrange(9, 11) =~= two_digits(a.hour as int));
    assert(y.subrange(9, 11) =~= two_digits(b.hour as int));
    assert(x.subrange(11, 13) =~= two_digits(a.minute as int));
    assert(y.subrange(11, 13) =~= two_digits(b.minute as int));
    assert(x.subrange(13, 15) =~= two_digits(a.second as int));
    assert(y.subrange(13, 15) =~= two_digits(b.second as int));
    if a.year < b.year {
        lemma_four_digits_less(a.year as int, b.year as int);
        assert(x.subrange(0, 0) =~= y.subrange(0, 0));
        lemma_lex_at(x, y, 0, four_digits(a.year as int), four_digits(b.year as int));
    } else if a.month < b.month {
        lemma_two_digits_less(a.month as int, b.month as int);
        assert(x.subrange(0, 4) =~= y.subrange(0, 4));
        lemma_lex_at(x, y, 4, two_digits(a.month as int), two_digits(b.month as int));
    } else if a.day < b.day {
        lemma_two_digits_less(a.day as int, b.day as int);
        assert(x.subrange(0, 6) =~= y.subrange(0, 6));
        lemma_lex_at(x, y, 6, two_digits(a.day as int), two_digits(b.day as int));
    } else if a.hour < b.hour {
        lemma_two_digits_less(a.hour as int, b.hour as int);
        assert(x.subrange(0, 9) =~= y.subrange(0, 9));
        lemma_lex_at(x, y, 9, two_digits(a.hour as int), two_digits(b.hour as int));
    } else if a.minute < b.minute {
        lemma_two_digits_less(a.minute as int, b.minute as int);
        assert(x.subrange(0, 11) =~= y.subrange(0, 11));
        lemma_lex_at(x, y, 11, two_digits(a.minute as int), two_digits(b.minute as int));
    } else {
        lemma_two_digits_less(a.second as int, b.second as int);
        assert(x.subrange(0, 13) =~= y.subrange(0, 13));
        lemma_lex_at(x, y, 13, two_digits(a.second as int), two_digits(b.second as int));
    }
}

/// Of two snapshots of one symbol under one directory, the one taken at the
/// earlier second has the lexically smaller file name, so names sort by time.
pub proof fn lemma_file_names_ordered(dir: Seq<char>, symbol: Seq<char>, a: LocalStamp, b: LocalStamp)
    requires
        a.wf(),
        b.wf(),
        earlier(a, b),
    ensures
        lex_less(snapshot_file_name(dir, symbol, a), snapshot_file_name(dir, symbol, b)),
{
    reveal_strlit("/orderbook_");
    reveal_strlit("_");
    let (x, y) = (snapshot_file_name(dir, symbol, a), snapshot_file_name(dir, symbol, b));
    let off: int = (dir.len() + 11 + symbol.len() + 1) as int;
    lemma_compact_ordered(a, b);
    assert(x.subrange(0, off) =~= y.subrange(0, off));
    assert(x.subrange(off, off + 15) =~= compact_text(a));
    assert(y.subrange(off, off + 15) =~= compact_text(b));
    lemma_lex_at(x, y, off, compact_text(a), compact_text(b));
}

} // verus!
