//! Plain-text rendering shared by the bindings: decimal numbers, booleans,
//! quoted words and the `": "`-joined chain of error messages.
use vstd::prelude::*;

verus! {

/// The character of a decimal digit `d` (`0 <= d < 10`).
pub open spec fn digit_char(d: nat) -> char {
    (d + 48) as char
}

/// The decimal representation of `n`, without leading zeros.
pub open spec fn decimal(n: nat) -> Seq<char>
    decreases n,
{
    if n < 10 {
        seq![digit_char(n)]
    } else {
        decimal(n / 10).push(digit_char(n % 10))
    }
}

/// Whether `c` is one of the characters `'0'..='9'`.
pub open spec fn is_digit(c: char) -> bool {
    '0' <= c <= '9'
}

/// `s` between two double quotes.
pub open spec fn quoted(s: Seq<char>) -> Seq<char> {
    seq!['"'] + s + seq!['"']
}

/// How `true` and `false` are written.
pub open spec fn bool_text(b: bool) -> Seq<char> {
    if b {
        "true"@
    } else {
        "false"@
    }
}

/// How an optional number is written: `Some(<decimal>)` or `None`.
pub open spec fn option_text(o: Option<u8>) -> Seq<char> {
    match o {
        Some(v) => "Some("@ + decimal(v as nat) + ")"@,
        None => "None"@,
    }
}

/// The messages of `parts` joined by `sep`.
pub open spec fn joined(parts: Seq<Seq<char>>, sep: Seq<char>) -> Seq<char>
    decreases parts.len(),
{
    if parts.len() == 0 {
        Seq::empty()
    } else if parts.len() == 1 {
        parts[0]
    } else {
        joined(parts.drop_last(), sep) + sep + parts.last()
    }
}

/// The text of an error followed by the text of each of its causes,
/// outermost first, each separated by `": "`.
pub open spec fn chain_text(messages: Seq<Seq<char>>) -> Seq<char> {
    joined(messages, ": "@)
}

/// A decimal representation is never empty, holds only digits, and starts
/// with a zero only when it is the number zero itself.
pub proof fn lemma_decimal_digits(n: nat)
    ensures
        decimal(n).len() >= 1,
        n >= 10 ==> decimal(n).len() >= 2,
        forall|i: int| 0 <= i < decimal(n).len() ==> is_digit(#[trigger] decimal(n)[i]),
    decreases n,
{
    if n >= 10 {
        lemma_decimal_digits(n / 10);
        let p = decimal(n / 10);
        assert forall|i: int| 0 <= i < decimal(n).len() implies is_digit(#[trigger] decimal(n)[i]) by {
            if i < p.len() {
                assert(decimal(n)[i] == p[i]);
            }
        }
    }
}

/// Two numbers with the same decimal representation are equal.
pub proof fn lemma_decimal_injective(a: nat, b: nat)
    requires
        decimal(a) == decimal(b),
    ensures
        a == b,
    decreases a + b,
{
    lemma_decimal_digits(a);
    lemma_decimal_digits(b);
    if a < 10 && b < 10 {
        assert(decimal(a)[0] == digit_char(a));
        assert(decimal(b)[0] == digit_char(b));
    } else if a >= 10 && b >= 10 {
        let da = decimal(a);
        let db = decimal(b);
        assert(da.last() == digit_char(a % 10));
        assert(db.last() == digit_char(b % 10));
        assert(da.drop_last() =~= decimal(a / 10));
        assert(db.drop_last() =~= decimal(b / 10));
        lemma_decimal_injective(a / 10, b / 10);
    } else {
        assert(decimal(a).len() != decimal(b).len());
    }
}

/// The number that the digits `s` stand for, read most significant first.
pub open spec fn digits_value(s: Seq<char>) -> nat
    decreases s.len(),
{
    if s.len() == 0 {
        0
    } else {
        digits_value(s.drop_last()) * 10 + ((s.last() as int - 48) as nat)
    }
}

/// Reading the decimal representation of `n` gives `n` back.
pub proof fn lemma_decimal_round_trip(n: nat)
    ensures
        digits_value(decimal(n)) == n,
    decreases n,
{
    if n < 10 {
        let d = decimal(n);
        assert(d.drop_last() =~= Seq::<char>::empty());
        assert(d.last() == digit_char(n));
        assert(digit_char(n) as int == n + 48);
        assert(digits_value(d) == digits_value(d.drop_last()) * 10 + ((d.last() as int - 48) as nat));
        assert(digits_value(d.drop_last()) == 0);
    } else {
        lemma_decimal_round_trip(n / 10);
        let d = decimal(n);
        assert(d.drop_last() =~= decimal(n / 10));
        assert(d.last() == digit_char(n % 10));
        assert(digit_char(n % 10) as int == n % 10 + 48);
        assert(n == (n / 10) * 10 + n % 10) by (nonlinear_arith);
        assert(digits_value(d) == digits_value(d.drop_last()) * 10 + ((d.last() as int - 48) as nat));
        assert(digits_value(d.drop_last()) == n / 10);
    }
}

/// The chain of no messages is empty, the chain of one message is that
/// message, and one more cause adds `": "` and its message at the end, so
/// every message appears, outermost first, the root cause last.
pub proof fn lemma_chain_text_steps(ms: Seq<Seq<char>>, m: Seq<char>)
    ensures
        chain_text(Seq::<Seq<char>>::empty()) == Seq::<char>::empty(),
        chain_text(seq![m]) == m,
        ms.len() >= 1 ==> chain_text(ms.push(m)) == chain_text(ms) + ": "@ + m,
{
    assert(ms.push(m).drop_last() =~= ms);
    assert(ms.push(m).last() == m);
}

/// A chain of messages starts with the outermost message and ends with the
/// root cause.
pub proof fn lemma_chain_text_ends(ms: Seq<Seq<char>>)
    requires
        ms.len() >= 1,
    ensures
        chain_text(ms).len() >= ms[0].len(),
        chain_text(ms).len() >= ms.last().len(),
        chain_text(ms).subrange(0, ms[0].len() as int) == ms[0],
        chain_text(ms).subrange(
            chain_text(ms).len() - ms.last().len(),
            chain_text(ms).len() as int,
        ) == ms.last(),
    decreases ms.len(),
{
    let c = chain_text(ms);
    if ms.len() == 1 {
        assert(c.subrange(0, ms[0].len() as int) =~= ms[0]);
        assert(c.subrange(c.len() - ms.last().len(), c.len() as int) =~= ms.last());
    } else {
        let p = ms.drop_last();
        lemma_chain_text_ends(p);
        let cp = chain_text(p);
        assert(c == cp + ": "@ + ms.last());
        assert(p[0] == ms[0]);
        assert(c.subrange(0, ms[0].len() as int) =~= cp.subrange(0, ms[0].len() as int));
        assert(c.subrange(c.len() - ms.last().len(), c.len() as int) =~= ms.last());
    }
}

/// The string of a decimal digit `d`.
fn digit_str(d: u64) -> (s: &'static str)
    requires
        d < 10,
    ensures
        s@ == seq![digit_char(d as nat)],
{
    proof {
        reveal_strlit("0");
        reveal_strlit("1");
        reveal_strlit("2");
        reveal_strlit("3");
        reveal_strlit("4");
        reveal_strlit("5");
        reveal_strlit("6");
        reveal_strlit("7");
        reveal_strlit("8");
        reveal_strlit("9");
    }
    match d {
        0 => "0",
        1 => "1",
        2 => "2",
        3 => "3",
        4 => "4",
        5 => "5",
        6 => "6",
        7 => "7",
        8 => "8",
        _ => "9",
    }
}

/// Writes `n` in decimal.
pub fn decimal_string(n: u64) -> (s: String)
    ensures
        s@ == decimal(n as nat),
    decreases n,
{
    if n < 10 {
        String::from_str(digit_str(n))
    } else {
        let mut s = decimal_string(n / 10);
        s.append(digit_str(n % 10));
        s
    }
}

/// Writes `b` as `true` or `false`.
pub fn bool_string(b: bool) -> (s: String)
    ensures
        s@ == bool_text(b),
        b ==> s@ == "true"@,
        !b ==> s@ == "false"@,
{
    if b {
        String::from_str("true")
    } else {
        String::from_str("false")
    }
}

/// Writes an optional number as `Some(<decimal>)` or `None`.
pub fn option_string(o: Option<u8>) -> (s: String)
    ensures
        s@ == option_text(o),
        o matches Some(v) ==> s@ == "Some("@ + decimal(v as nat) + ")"@,
        o is None ==> s@ == "None"@,
{
    match o {
        Some(v) => {
            let mut s = String::from_str("Some(");
            let d = decimal_string(v as u64);
            s.append(d.as_str());
            s.append(")");
            s
        },
        None => String::from_str("None"),
    }
}

/// Puts `s` between two double quotes.
pub fn quote(s: &str) -> (r: String)
    ensures
        r@ == quoted(s@),
        r@ == seq!['"'] + s@ + seq!['"'],
{
    let mut r = String::from_str("\"");
    r.append(s);
    r.append("\"");
    proof {
        reveal_strlit("\"");
    }
    r
}

/// Joins the message of an error and the messages of its causes, outermost
/// first, with `": "` between them.
pub fn error_chain(messages: &Vec<String>) -> (s: String)
    ensures
        s@ == chain_text(messages@.map_values(|m: String| m@)),
        messages@.len() == 0 ==> s@ == Seq::<char>::empty(),
        messages@.len() == 1 ==> s@ == messages@[0]@,
{
    let ghost texts = messages@.map_values(|m: String| m@);
    let mut s = String::new();
    let n = messages.len();
    let mut i: usize = 0;
    while i < n
        invariant
            n == messages.len(),
            i <= n,
            texts == messages@.map_values(|m: String| m@),
            s@ == joined(texts.take(i as int), ": "@),
        decreases n - i,
    {
        if i != 0 {
            s.append(": ");
        }
        s.append(messages[i].as_str());
        assert(texts.take(i + 1).drop_last() =~= texts.take(i as int));
        i = i + 1;
    }
    assert(texts.take(n as int) =~= texts);
    s
}

} // verus!
