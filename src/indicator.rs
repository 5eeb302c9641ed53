//! Indicator selections: their typed parameters, their literal grammar
//! `BB(n, k)`, `EMA(n)`, `SMA(n)`, and its canonical formatting.
use vstd::prelude::*;
use vstd::string::*;
use crate::text::{chars_of, string_of};

verus! {

/// The period of an indicator, in price bars.
#[derive(Clone, Copy, Debug, PartialEq, Eq, Structural)]
pub struct Period(pub u16);

/// The width of Bollinger bands, in standard deviations.
#[derive(Clone, Copy, Debug, PartialEq, Eq, Structural)]
pub struct StdDevMultiplier(pub u8);

/// Default period of Bollinger bands.
pub const BOLLINGER_PERIOD: u16 = 20;

/// Default period of the moving averages.
pub const MOVING_AVERAGE_PERIOD: u16 = 50;

/// Default width of Bollinger bands.
pub const BOLLINGER_MULTIPLIER: u8 = 2;

impl Period {
    /// The default period of Bollinger bands.
    pub fn bollinger() -> (r: Period)
        ensures
            r.0 == BOLLINGER_PERIOD,
    {
        Period(BOLLINGER_PERIOD)
    }

    /// The default period of the moving averages.
    pub fn moving_average() -> (r: Period)
        ensures
            r.0 == MOVING_AVERAGE_PERIOD,
    {
        Period(MOVING_AVERAGE_PERIOD)
    }
}

impl Default for StdDevMultiplier {
    fn default() -> (r: StdDevMultiplier)
        ensures
            r.0 == BOLLINGER_MULTIPLIER,
    {
        StdDevMultiplier(BOLLINGER_MULTIPLIER)
    }
}

/// A technical indicator with its parameters.
#[derive(Clone, Copy, Debug, PartialEq, Eq, Structural)]
pub enum Indicator {
    BollingerBands(Period, StdDevMultiplier),
    ExponentialMovingAverage(Period),
    SimpleMovingAverage(Period),
}

/// Why an indicator literal was refused.
#[derive(Clone, Debug)]
pub enum ParseIndicatorError {
    Empty,
    Invalid,
    /// The parameter `name` does not read as an integer of its type.
    ParseInt { name: String, value: String },
}

/// What reading a literal yields, in terms of plain values.
pub enum IndicatorReading {
    Read(Indicator),
    Empty,
    Invalid,
    BadParam(Seq<char>, Seq<char>),
}

pub open spec fn reading_of(r: Result<Indicator, ParseIndicatorError>) -> IndicatorReading {
    match r {
        Ok(i) => IndicatorReading::Read(i),
        Err(ParseIndicatorError::Empty) => IndicatorReading::Empty,
        Err(ParseIndicatorError::Invalid) => IndicatorReading::Invalid,
        Err(ParseIndicatorError::ParseInt { name, value }) => IndicatorReading::BadParam(
            name@,
            value@,
        ),
    }
}

pub open spec fn is_ws(c: char) -> bool {
    c == ' ' || c == '\t' || c == '\n' || c == '\r'
}

/// Characters that end a parameter.
pub open spec fn is_stop(c: char) -> bool {
    is_ws(c) || c == ',' || c == ')'
}

pub open spec fn is_digit(c: char) -> bool {
    '0' <= c <= '9'
}

/// The first index at or after `i` that holds no whitespace.
pub open spec fn skip_ws(s: Seq<char>, i: int) -> int
    decreases s.len() - i,
{
    if 0 <= i < s.len() && is_ws(s[i]) {
        skip_ws(s, i + 1)
    } else {
        i
    }
}

/// The first index at or after `i` that ends a parameter.
pub open spec fn param_end(s: Seq<char>, i: int) -> int
    decreases s.len() - i,
{
    if 0 <= i < s.len() && !is_stop(s[i]) {
        param_end(s, i + 1)
    } else {
        i
    }
}

/// Whether `s` holds `lit` at `i`.
pub open spec fn has_at(s: Seq<char>, i: int, lit: Seq<char>) -> bool {
    0 <= i && i + lit.len() <= s.len() && s.subrange(i, i + lit.len()) == lit
}

/// Whether `s` holds `c` at `i`.
pub open spec fn char_at(s: Seq<char>, i: int, c: char) -> bool {
    0 <= i < s.len() && s[i] == c
}

/// The kind of indicator a literal names.
pub enum IndicatorKind {
    Bollinger,
    Exponential,
    Simple,
}

/// The shape of an indicator literal: its kind and the spans of its
/// parameters, or none where the text has no such shape.
pub open spec fn indicator_shape(s: Seq<char>) -> Option<(IndicatorKind, int, int, int, int)> {
    let i0 = skip_ws(s, 0);
    let name: Option<(IndicatorKind, int)> = if has_at(s, i0, "BB"@) {
        Some((IndicatorKind::Bollinger, 2int))
    } else if has_at(s, i0, "EMA"@) {
        Some((IndicatorKind::Exponential, 3int))
    } else if has_at(s, i0, "SMA"@) {
        Some((IndicatorKind::Simple, 3int))
    } else {
        None
    };
    match name {
        None => None,
        Some((kind, len)) => {
            let i1 = skip_ws(s, i0 + len);
            let a = skip_ws(s, i1 + 1);
            let a_end = param_end(s, a);
            let i3 = skip_ws(s, a_end);
            if !char_at(s, i1, '(') {
                None
            } else if kind is Bollinger {
                let b = skip_ws(s, i3 + 1);
                let b_end = param_end(s, b);
                let i5 = skip_ws(s, b_end);
                if char_at(s, i3, ',') && char_at(s, i5, ')') && skip_ws(s, i5 + 1) == s.len() {
                    Some((kind, a, a_end, b, b_end))
                } else {
                    None
                }
            } else if char_at(s, i3, ')') && skip_ws(s, i3 + 1) == s.len() {
                Some((kind, a, a_end, a_end, a_end))
            } else {
                None
            }
        },
    }
}

/// The value of a run of decimal digits.
pub open spec fn decimal_value(s: Seq<char>) -> int
    decreases s.len(),
{
    if s.len() == 0 {
        0
    } else {
        decimal_value(s.drop_last()) * 10 + (s.last() as int - '0' as int)
    }
}

/// Whether `s` reads as an integer no greater than `max`.
pub open spec fn reads_as_int(s: Seq<char>, max: int) -> bool {
    s.len() > 0 && (forall|j: int| 0 <= j < s.len() ==> is_digit(#[trigger] s[j]))
        && decimal_value(s) <= max
}

/// What reading an indicator literal yields.
pub open spec fn parse_indicator(s: Seq<char>) -> IndicatorReading {
    match indicator_shape(s) {
        None => if s.len() == 0 {
            IndicatorReading::Empty
        } else {
            IndicatorReading::Invalid
        },
        Some((kind, a, a_end, b, b_end)) => {
            let n = s.subrange(a, a_end);
            let k = s.subrange(b, b_end);
            match kind {
                IndicatorKind::Bollinger => if !reads_as_int(n, 0xffff) {
                    IndicatorReading::BadParam("n"@, n)
                } else if !reads_as_int(k, 0xff) {
                    IndicatorReading::BadParam("k"@, k)
                } else {
                    IndicatorReading::Read(
                        Indicator::BollingerBands(
                            Period(decimal_value(n) as u16),
                            StdDevMultiplier(decimal_value(k) as u8),
                        ),
                    )
                },
                IndicatorKind::Exponential => if !reads_as_int(n, 0xffff) {
                    IndicatorReading::BadParam("n"@, n)
                } else {
                    IndicatorReading::Read(
                        Indicator::ExponentialMovingAverage(Period(decimal_value(n) as u16)),
                    )
                },
                IndicatorKind::Simple => if !reads_as_int(n, 0xffff) {
                    IndicatorReading::BadParam("n"@, n)
                } else {
                    IndicatorReading::Read(
                        Indicator::SimpleMovingAverage(Period(decimal_value(n) as u16)),
                    )
                },
            }
        },
    }
}

/// Every indicator with its default parameters, in menu order.
#[verifier::opaque]
pub open spec fn default_indicators() -> Seq<Indicator> {
    seq![
        Indicator::BollingerBands(Period(20), StdDevMultiplier(2)),
        Indicator::ExponentialMovingAverage(Period(50)),
        Indicator::SimpleMovingAverage(Period(50)),
    ]
}

/// The decimal digits of `n`, most significant first.
pub open spec fn decimal_digits(n: nat) -> Seq<char>
    decreases n,
{
    if n < 10 {
        seq![digit_char(n)]
    } else {
        decimal_digits(n / 10).push(digit_char(n % 10))
    }
}

pub open spec fn digit_char(d: nat) -> char {
    if d == 0 {
        '0'
    } else if d == 1 {
        '1'
    } else if d == 2 {
        '2'
    } else if d == 3 {
        '3'
    } else if d == 4 {
        '4'
    } else if d == 5 {
        '5'
    } else if d == 6 {
        '6'
    } else if d == 7 {
        '7'
    } else if d == 8 {
        '8'
    } else {
        '9'
    }
}

/// The canonical literal of an indicator.
pub open spec fn format_indicator(i: Indicator) -> Seq<char> {
    match i {
        Indicator::BollingerBands(n, k) => "BB("@ + decimal_digits(n.0 as nat) + ", "@
            + decimal_digits(k.0 as nat) + ")"@,
        Indicator::ExponentialMovingAverage(n) => "EMA("@ + decimal_digits(n.0 as nat) + ")"@,
        Indicator::SimpleMovingAverage(n) => "SMA("@ + decimal_digits(n.0 as nat) + ")"@,
    }
}

fn skip_ws_exec(s: &Vec<char>, i: usize) -> (r: usize)
    requires
        i <= s@.len(),
    ensures
        r == skip_ws(s@, i as int),
        i <= r <= s@.len(),
{
    let mut j = i;
    while j < s.len() && (s[j] == ' ' || s[j] == '\t' || s[j] == '\n' || s[j] == '\r')
        invariant
            i <= j <= s@.len(),
            skip_ws(s@, j as int) == skip_ws(s@, i as int),
        decreases s@.len() - j,
    {
        j = j + 1;
    }
    j
}

fn param_end_exec(s: &Vec<char>, i: usize) -> (r: usize)
    requires
        i <= s@.len(),
    ensures
        r == param_end(s@, i as int),
        i <= r <= s@.len(),
{
    let mut j = i;
    while j < s.len() && !(s[j] == ' ' || s[j] == '\t' || s[j] == '\n' || s[j] == '\r' || s[j]
        == ',' || s[j] == ')')
        invariant
            i <= j <= s@.len(),
            param_end(s@, j as int) == param_end(s@, i as int),
        decreases s@.len() - j,
    {
        j = j + 1;
    }
    j
}

fn has_at_exec(s: &Vec<char>, i: usize, lit: &str) -> (r: bool)
    requires
        i <= s@.len(),
    ensures
        r == has_at(s@, i as int, lit@),
{
    let v = chars_of(lit);
    if v.len() > s.len() - i {
        return false;
    }
    let mut j: usize = 0;
    while j < v.len()
        invariant
            v@ == lit@,
            i + v@.len() <= s@.len(),
            s@.len() == s.len(),
            j <= v@.len(),
            forall|t: int| 0 <= t < j ==> s@[i + t] == v@[t],
        decreases v@.len() - j,
    {
        if s[i + j] != v[j] {
            assert(s@.subrange(i as int, i + v@.len())[j as int] != v@[j as int]);
            return false;
        }
        j = j + 1;
    }
    assert(s@.subrange(i as int, i + v@.len()) =~= v@);
    true
}

fn char_at_exec(s: &Vec<char>, i: usize, c: char) -> (r: bool)
    ensures
        r == char_at(s@, i as int, c),
{
    i < s.len() && s[i] == c
}

fn sub_chars(s: &Vec<char>, a: usize, b: usize) -> (r: Vec<char>)
    requires
        a <= b <= s@.len(),
    ensures
        r@ == s@.subrange(a as int, b as int),
{
    let mut r: Vec<char> = Vec::new();
    let mut j = a;
    while j < b
        invariant
            a <= j <= b <= s@.len(),
            r@ == s@.subrange(a as int, j as int),
        decreases b - j,
    {
        r.push(s[j]);
        j = j + 1;
        assert(r@ =~= s@.subrange(a as int, j as int));
    }
    r
}

/// Reads `s[a..b]` as an integer no greater than `max`.
fn read_int(s: &Vec<char>, a: usize, b: usize, max: u64) -> (r: Option<u64>)
    requires
        a <= b <= s@.len(),
        max <= 0xffff,
    ensures
        r is Some <==> reads_as_int(s@.subrange(a as int, b as int), max as int),
        r matches Some(v) ==> v == decimal_value(s@.subrange(a as int, b as int)),
{
    let ghost t = s@.subrange(a as int, b as int);
    if a == b {
        return None;
    }
    let mut acc: u64 = 0;
    let mut too_big = false;
    let mut j = a;
    while j < b
        invariant
            a <= j <= b <= s@.len(),
            max <= 0xffff,
            t == s@.subrange(a as int, b as int),
            forall|x: int| 0 <= x < j - a ==> is_digit(#[trigger] t[x]),
            !too_big ==> acc == decimal_value(t.subrange(0, j - a)) && acc <= max,
            too_big ==> decimal_value(t.subrange(0, j - a)) > max,
            decimal_value(t.subrange(0, j - a)) >= 0,
        decreases b - j,
    {
        let c = s[j];
        if !('0' <= c && c <= '9') {
            assert(t[j - a] == c);
            return None;
        }
        proof {
            assert(t.subrange(0, j - a + 1).drop_last() =~= t.subrange(0, j - a));
            assert(t.subrange(0, j - a + 1).last() == c);
        }
        if !too_big {
            let d = (c as u32 - '0' as u32) as u64;
            acc = acc * 10 + d;
            if acc > max {
                too_big = true;
            }
        }
        j = j + 1;
    }
    assert(t.subrange(0, t.len() as int) =~= t);
    if too_big {
        None
    } else {
        Some(acc)
    }
}

fn digit_lit(d: u64) -> (r: &'static str)
    requires
        d < 10,
    ensures
        r@ == seq![digit_char(d as nat)],
{
    proof {
        reveal_strlit("0");
        reveal_strlit("1");
        reveal_strlit("2");
        reveal_strlit("3");
        reveal_strlit("4");
        reveal_strlit("5");
        reveal_strlit("6");
        reveal_strlit("7");
        reveal_strlit("8");
        reveal_strlit("9");
    }
    let r = if d == 0 {
        "0"
    } else if d == 1 {
        "1"
    } else if d == 2 {
        "2"
    } else if d == 3 {
        "3"
    } else if d == 4 {
        "4"
    } else if d == 5 {
        "5"
    } else if d == 6 {
        "6"
    } else if d == 7 {
        "7"
    } else if d == 8 {
        "8"
    } else {
        "9"
    };
    assert(r@ =~= seq![digit_char(d as nat)]);
    r
}

/// Appends the decimal digits of `n`.
fn push_decimal(out: &mut String, n: u64)
    ensures
        final(out)@ == old(out)@ + decimal_digits(n as nat),
    decreases n,
{
    if n >= 10 {
        push_decimal(out, n / 10);
    }
    out.append(digit_lit(n % 10));
    assert(decimal_digits(n as nat) == if n < 10 {
        seq![digit_char(n as nat)]
    } else {
        decimal_digits((n / 10) as nat).push(digit_char((n % 10) as nat))
    });
    assert(final(out)@ =~= old(out)@ + decimal_digits(n as nat));
}

fn bad_param(name: &str, s: &Vec<char>, a: usize, b: usize) -> (r: ParseIndicatorError)
    requires
        a <= b <= s@.len(),
    ensures
        reading_of(Err(r)) == IndicatorReading::BadParam(name@, s@.subrange(a as int, b as int)),
{
    let value = sub_chars(s, a, b);
    ParseIndicatorError::ParseInt { name: String::from_str(name), value: string_of(&value) }
}

proof fn lemma_decimal_digits(n: nat)
    ensures
        decimal_digits(n).len() >= 1,
        forall|j: int| 0 <= j < decimal_digits(n).len() ==> is_digit(#[trigger] decimal_digits(n)[j]),
        decimal_value(decimal_digits(n)) == n,
    decreases n,
{
    let m = n % 10;
    assert(digit_char(m) as int - '0' as int == m) by {
        assert(m < 10);
    }
    if n >= 10 {
        lemma_decimal_digits(n / 10);
        let d = decimal_digits(n);
        assert(d.drop_last() =~= decimal_digits(n / 10));
        assert(n == (n / 10) * 10 + m);
        assert(d.last() == digit_char(m));
        assert(decimal_value(d) == decimal_value(d.drop_last()) * 10 + (d.last() as int
            - '0' as int));
    } else {
        let d = seq![digit_char(n)];
        assert(d.drop_last() =~= Seq::<char>::empty());
        assert(decimal_value(d.drop_last()) == 0);
        assert(m == n);
        assert(decimal_value(d) == decimal_value(d.drop_last()) * 10 + (d.last() as int
            - '0' as int));
    }
}

proof fn lemma_param_end_digits(s: Seq<char>, i: int, e: int)
    requires
        0 <= i <= e <= s.len(),
        forall|j: int| i <= j < e ==> is_digit(#[trigger] s[j]),
        e == s.len() || is_stop(s[e]),
    ensures
        param_end(s, i) == e,
    decreases e - i,
{
    if i < e {
        lemma_param_end_digits(s, i + 1, e);
    }
}

/// The digits of `n` stand in `s` from `i`, followed by `after`.
proof fn lemma_param_at(s: Seq<char>, i: int, n: nat, after: char)
    requires
        0 <= i,
        i + decimal_digits(n).len() < s.len(),
        s.subrange(i, i + decimal_digits(n).len()) == decimal_digits(n),
        s[i + decimal_digits(n).len()] == after,
        is_stop(after),
    ensures
        skip_ws(s, i) == i,
        param_end(s, i) == i + decimal_digits(n).len(),
        s.subrange(i, param_end(s, i)) == decimal_digits(n),
        reads_as_int(decimal_digits(n), n as int),
{
    lemma_decimal_digits(n);
    let d = decimal_digits(n);
    assert(s[i] == d[0]);
    assert forall|j: int| i <= j < i + d.len() implies is_digit(#[trigger] s[j]) by {
        assert(s[j] == s.subrange(i, i + d.len())[j - i]);
    }
    lemma_param_end_digits(s, i, i + d.len());
}

/// Reading the canonical literal of an indicator gives that indicator back.
pub proof fn lemma_indicator_round_trip(ind: Indicator)
    ensures
        parse_indicator(format_indicator(ind)) == IndicatorReading::Read(ind),
{
    reveal_strlit("BB(");
    reveal_strlit("EMA(");
    reveal_strlit("SMA(");
    reveal_strlit("BB");
    reveal_strlit("EMA");
    reveal_strlit("SMA");
    reveal_strlit(", ");
    reveal_strlit(")");
    let s = format_indicator(ind);
    match ind {
        Indicator::BollingerBands(n, k) => {
            let d = decimal_digits(n.0 as nat);
            let e = decimal_digits(k.0 as nat);
            lemma_decimal_digits(n.0 as nat);
            lemma_decimal_digits(k.0 as nat);
            let p = d.len() as int;
            let q = e.len() as int;
            assert(s.len() == 6 + p + q);
            assert(s[0] == 'B');
            assert(skip_ws(s, 0) == 0);
            assert(s.subrange(0, 2) =~= "BB"@);
            assert(s[2] == '(');
            assert(skip_ws(s, 2) == 2);
            assert(s.subrange(3, 3 + p) =~= d);
            assert(s[3 + p] == ',');
            lemma_param_at(s, 3, n.0 as nat, ',');
            assert(skip_ws(s, 3 + p) == 3 + p);
            assert(s[4 + p] == ' ');
            assert(s.subrange(5 + p, 5 + p + q) =~= e);
            assert(s[5 + p + q] == ')');
            lemma_param_at(s, 5 + p, k.0 as nat, ')');
            assert(skip_ws(s, 4 + p) == 5 + p);
            assert(skip_ws(s, 5 + p + q) == 5 + p + q);
            assert(skip_ws(s, 6 + p + q) == 6 + p + q);
        },
        Indicator::ExponentialMovingAverage(n) | Indicator::SimpleMovingAverage(n) => {
            let d = decimal_digits(n.0 as nat);
            lemma_decimal_digits(n.0 as nat);
            let p = d.len() as int;
            assert(s.len() == 5 + p);
            assert(s[0] != 'B');
            assert(s.subrange(0, 2)[0] != "BB"@[0]);
            assert(skip_ws(s, 0) == 0);
            if ind is ExponentialMovingAverage {
                assert(s.subrange(0, 3) =~= "EMA"@);
            } else {
                assert(s.subrange(0, 3)[0] != "EMA"@[0]);
                assert(s.subrange(0, 3) =~= "SMA"@);
            }
            assert(s[3] == '(');
            assert(skip_ws(s, 3) == 3);
            assert(s.subrange(4, 4 + p) =~= d);
            assert(s[4 + p] == ')');
            lemma_param_at(s, 4, n.0 as nat, ')');
            assert(skip_ws(s, 4 + p) == 4 + p);
            assert(skip_ws(s, 5 + p) == 5 + p);
        },
    }
}

/// The empty literal is refused as empty.
pub proof fn lemma_indicator_empty()
    ensures
        parse_indicator(Seq::<char>::empty()) == IndicatorReading::Empty,
{
    reveal_strlit("BB");
    reveal_strlit("EMA");
    reveal_strlit("SMA");
    assert(skip_ws(Seq::<char>::empty(), 0) == 0);
}

impl Indicator {
    /// Every indicator with its default parameters, in menu order.
    pub fn all() -> (r: Vec<Indicator>)
        ensures
            r@ == default_indicators(),
            r@.len() == 3,
    {
        let r = vec![
            Indicator::BollingerBands(Period::bollinger(), StdDevMultiplier::default()),
            Indicator::ExponentialMovingAverage(Period::moving_average()),
            Indicator::SimpleMovingAverage(Period::moving_average()),
        ];
        reveal(default_indicators);
        assert(r@ =~= seq![
            Indicator::BollingerBands(Period(20), StdDevMultiplier(2)),
            Indicator::ExponentialMovingAverage(Period(50)),
            Indicator::SimpleMovingAverage(Period(50)),
        ]);
        r
    }

    /// Reads an indicator literal.
    pub fn from_str(src: &str) -> (r: Result<Indicator, ParseIndicatorError>)
        ensures
            reading_of(r) == parse_indicator(src@),
    {
        let s = chars_of(src);
        let i0 = skip_ws_exec(&s, 0);
        proof {
            reveal_strlit("BB");
            reveal_strlit("EMA");
            reveal_strlit("SMA");
        }
        let (kind, len): (u8, usize) = if has_at_exec(&s, i0, "BB") {
            (0, 2)
        } else if has_at_exec(&s, i0, "EMA") {
            (1, 3)
        } else if has_at_exec(&s, i0, "SMA") {
            (2, 3)
        } else {
            (3, 0)
        };
        let shape: Option<(usize, usize, usize, usize)> = if kind == 3 || len > s.len() - i0 {
            None
        } else {
            let i1 = skip_ws_exec(&s, i0 + len);
            if !char_at_exec(&s, i1, '(') {
                None
            } else {
                let a = skip_ws_exec(&s, i1 + 1);
                let a_end = param_end_exec(&s, a);
                let i3 = skip_ws_exec(&s, a_end);
                if kind == 0 {
                    if !char_at_exec(&s, i3, ',') || i3 >= s.len() {
                        None
                    } else {
                        let b = skip_ws_exec(&s, i3 + 1);
                        let b_end = param_end_exec(&s, b);
                        let i5 = skip_ws_exec(&s, b_end);
                        if char_at_exec(&s, i5, ')') && skip_ws_exec(&s, i5 + 1) == s.len() {
                            Some((a, a_end, b, b_end))
                        } else {
                            None
                        }
                    }
                } else if char_at_exec(&s, i3, ')') && i3 < s.len() && skip_ws_exec(&s, i3 + 1)
                    == s.len() {
                    Some((a, a_end, a_end, a_end))
                } else {
                    None
                }
            }
        };
        match shape {
            None => if s.len() == 0 {
                Err(ParseIndicatorError::Empty)
            } else {
                Err(ParseIndicatorError::Invalid)
            },
            Some((a, a_end, b, b_end)) => {
                let n = match read_int(&s, a, a_end, 0xffff) {
                    Some(v) => v,
                    None => {
                        return Err(bad_param("n", &s, a, a_end));
                    },
                };
                if kind == 0 {
                    let k = match read_int(&s, b, b_end, 0xff) {
                        Some(v) => v,
                        None => {
                            return Err(bad_param("k", &s, b, b_end));
                        },
                    };
                    Ok(Indicator::BollingerBands(Period(n as u16), StdDevMultiplier(k as u8)))
                } else if kind == 1 {
                    Ok(Indicator::ExponentialMovingAverage(Period(n as u16)))
                } else {
                    Ok(Indicator::SimpleMovingAverage(Period(n as u16)))
                }
            },
        }
    }

    /// The canonical literal of the indicator.
    pub fn to_string(&self) -> (r: String)
        ensures
            r@ == format_indicator(*self),
    {
        let mut out: String;
        match self {
            Indicator::BollingerBands(n, k) => {
                out = String::from_str("BB(");
                push_decimal(&mut out, n.0 as u64);
                out.append(", ");
                push_decimal(&mut out, k.0 as u64);
                out.append(")");
            },
            Indicator::ExponentialMovingAverage(n) => {
                out = String::from_str("EMA(");
                push_decimal(&mut out, n.0 as u64);
                out.append(")");
            },
            Indicator::SimpleMovingAverage(n) => {
                out = String::from_str("SMA(");
                push_decimal(&mut out, n.0 as u64);
                out.append(")");
            },
        }
        out
    }
}

} // verus!
