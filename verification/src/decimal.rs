//! Decimal rendering and parsing of unsigned integers.

use vstd::prelude::*;
use vstd::string::*;

verus! {

/// The ASCII digit that stands for `d`, for `d < 10`.
pub open spec fn digit_char(d: nat) -> char {
    if d == 0 { '0' }
    else if d == 1 { '1' }
    else if d == 2 { '2' }
    else if d == 3 { '3' }
    else if d == 4 { '4' }
    else if d == 5 { '5' }
    else if d == 6 { '6' }
    else if d == 7 { '7' }
    else if d == 8 { '8' }
    else { '9' }
}

/// The shortest decimal rendering of `n`, most significant digit first.
pub open spec fn decimal_digits(n: nat) -> Seq<char>
    decreases n,
{
    if n < 10 {
        seq![digit_char(n)]
    } else {
        decimal_digits(n / 10) + seq![digit_char(n % 10)]
    }
}

fn digit_str(d: u64) -> (s: &'static str)
    requires
        d < 10,
    ensures
        s@ == seq![digit_char(d as nat)],
{
    proof {
        reveal_strlit("0");
        reveal_strlit("1");
        reveal_strlit("2");
        reveal_strlit("3");
        reveal_strlit("4");
        reveal_strlit("5");
        reveal_strlit("6");
        reveal_strlit("7");
        reveal_strlit("8");
        reveal_strlit("9");
    }
    if d == 0 { "0" }
    else if d == 1 { "1" }
    else if d == 2 { "2" }
    else if d == 3 { "3" }
    else if d == 4 { "4" }
    else if d == 5 { "5" }
    else if d == 6 { "6" }
    else if d == 7 { "7" }
    else if d == 8 { "8" }
    else { "9" }
}

/// Renders `n` in decimal, as `u64::to_string` does.
pub fn format_decimal(n: u64) -> (s: String)
    ensures
        s@ == decimal_digits(n as nat),
    decreases n,
{
    if n < 10 {
        String::from_str(digit_str(n))
    } else {
        let mut s = format_decimal(n / 10);
        s.append(digit_str(n % 10));
        s
    }
}


/// Whether `c` is one of the ASCII digits `0` to `9`.
pub open spec fn is_digit(c: char) -> bool {
    '0' <= c && c <= '9'
}

/// The value of the ASCII digit `c`.
pub open spec fn digit_value(c: char) -> nat {
    (c as int - '0' as int) as nat
}

/// The value of a string of digits read in base ten.
pub open spec fn digits_value(s: Seq<char>) -> nat
    decreases s.len(),
{
    if s.len() == 0 {
        0
    } else {
        digits_value(s.drop_last()) * 10 + digit_value(s.last())
    }
}

pub open spec fn all_digits(s: Seq<char>) -> bool {
    forall|i: int| 0 <= i < s.len() ==> is_digit(#[trigger] s[i])
}

/// The digits of an unsigned literal: an optional leading `+` is skipped.
pub open spec fn unsigned_digits(s: Seq<char>) -> Seq<char> {
    if s.len() > 0 && s[0] == '+' {
        s.drop_first()
    } else {
        s
    }
}

/// What `str::parse` gives for an unsigned integer type whose largest value is `limit`:
/// an optional `+`, then at least one ASCII digit and nothing else, with a value
/// no larger than `limit`.
pub open spec fn parse_unsigned(s: Seq<char>, limit: nat) -> Option<nat> {
    let d = unsigned_digits(s);
    if d.len() > 0 && all_digits(d) && digits_value(d) <= limit {
        Some(digits_value(d))
    } else {
        None
    }
}

proof fn lemma_digits_value_prefix(t: Seq<char>, k: int)
    requires
        0 <= k <= t.len(),
    ensures
        digits_value(t.take(k)) <= digits_value(t),
    decreases t.len(),
{
    if k < t.len() {
        lemma_digits_value_prefix(t.drop_last(), k);
        assert(t.drop_last().take(k) =~= t.take(k));
    } else {
        assert(t.take(k) =~= t);
    }
}

proof fn lemma_digits_value_step(t: Seq<char>, i: int)
    requires
        0 <= i < t.len(),
    ensures
        digits_value(t.take(i + 1)) == digits_value(t.take(i)) * 10 + digit_value(t[i]),
{
    assert(t.take(i + 1).drop_last() =~= t.take(i));
}

/// Parses `s` as `str::parse` parses an unsigned integer type whose largest value is
/// `limit`.
pub fn parse_decimal(s: &str, limit: u64) -> (r: Option<u64>)
    ensures
        r is None <==> parse_unsigned(s@, limit as nat) is None,
        r matches Some(v) ==> parse_unsigned(s@, limit as nat) == Some(v as nat),
{
    let len = s.unicode_len();
    let mut start: usize = 0;
    if len > 0 && s.get_char(0) == '+' {
        start = 1;
    }
    let ghost d = unsigned_digits(s@);
    assert(d =~= s@.subrange(start as int, len as int));
    if start >= len {
        return None;
    }
    let mut acc: u64 = 0;
    let mut i: usize = start;
    assert(d.take(0) =~= Seq::<char>::empty());
    while i < len
        invariant
            start <= i <= len,
            len == s@.len(),
            start < len,
            d =~= s@.subrange(start as int, len as int),
            d == unsigned_digits(s@),
            acc as nat == digits_value(d.take(i - start)),
            acc <= limit,
            all_digits(d.take(i - start)),
        decreases len - i,
    {
        let c = s.get_char(i);
        let code = c as u32;
        assert(d[i - start] == c);
        if code < 48 || code > 57 {
            assert(!is_digit(d[i - start]));
            assert(!all_digits(d));
            return None;
        }
        let v = (code - 48) as u64;
        assert(digit_value(c) == v);
        proof {
            lemma_digits_value_step(d, i - start);
        }
        if acc > limit / 10 {
            proof {
                assert(acc * 10 > limit) by (nonlinear_arith)
                    requires acc > limit / 10;
                lemma_digits_value_prefix(d, i - start + 1);
                assert(digits_value(d) > limit);
            }
            return None;
        }
        assert(acc * 10 <= limit) by (nonlinear_arith)
            requires acc <= limit / 10;
        let t = acc * 10;
        if v > limit - t {
            proof {
                lemma_digits_value_prefix(d, i - start + 1);
                assert(digits_value(d) > limit);
            }
            return None;
        }
        acc = t + v;
        i = i + 1;
        assert(all_digits(d.take(i - start))) by {
            assert forall|j: int| 0 <= j < d.take(i - start).len() implies is_digit(
                #[trigger] d.take(i - start)[j],
            ) by {
                if j < i - 1 - start {
                    assert(d.take(i - start)[j] == d.take(i - 1 - start)[j]);
                }
            }
        }
    }
    assert(d.take(len - start) =~= d);
    Some(acc)
}


proof fn lemma_digit_char(d: nat)
    requires
        d < 10,
    ensures
        is_digit(digit_char(d)),
        digit_value(digit_char(d)) == d,
{
}

proof fn lemma_decimal_digits_well_formed(n: nat)
    ensures
        decimal_digits(n).len() > 0,
        all_digits(decimal_digits(n)),
        digits_value(decimal_digits(n)) == n,
    decreases n,
{
    if n < 10 {
        lemma_digit_char(n);
        assert(decimal_digits(n).drop_last() =~= Seq::<char>::empty());
        assert(digits_value(Seq::<char>::empty()) == 0);
    } else {
        lemma_decimal_digits_well_formed(n / 10);
        lemma_digit_char(n % 10);
        let s = decimal_digits(n);
        assert(s.drop_last() =~= decimal_digits(n / 10));
        assert(s.last() == digit_char(n % 10));
        assert((n / 10) * 10 + n % 10 == n);
        assert(digits_value(s) == digits_value(s.drop_last()) * 10 + digit_value(s.last()));
        assert forall|i: int| 0 <= i < s.len() implies is_digit(#[trigger] s[i]) by {
            if i < s.len() - 1 {
                assert(s[i] == decimal_digits(n / 10)[i]);
            }
        }
    }
}

/// Reading back a rendered number gives the number: `str::parse` undoes
/// `to_string` for every value the target type can hold.
pub proof fn lemma_parse_format_round_trip(n: nat, limit: nat)
    requires
        n <= limit,
    ensures
        parse_unsigned(decimal_digits(n), limit) == Some(n),
{
    lemma_decimal_digits_well_formed(n);
    let s = decimal_digits(n);
    assert(is_digit(s[0]));
    assert(unsigned_digits(s) == s);
}

} // verus!
