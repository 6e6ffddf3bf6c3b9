//! Currency amounts held exactly, as a whole number of cents, so that wage
//! comparisons never suffer rounding drift. A parser reads the decimal form
//! that request payloads carry (`95000`, `95000.5`, `95000.00`).

use vstd::prelude::*;
use crate::dates::{digit_at, digit_char, digit_str, digit_val, is_digit, lemma_digit_char};

verus! {

/// A non-negative currency amount, as an exact count of cents.
#[derive(Clone, Copy, PartialEq, Eq, Structural, Debug)]
pub struct Money {
    pub cents: u64,
}

/// The most integer digits a parsed amount may have.
pub const MAX_WHOLE_DIGITS: usize = 13;

/// The number named by a run of decimal digits.
pub open spec fn digits_val(s: Seq<char>) -> int
    decreases s.len(),
{
    if s.len() == 0 {
        0
    } else {
        digits_val(s.drop_last()) * 10 + digit_val(s.last())
    }
}

pub open spec fn all_digits(s: Seq<char>) -> bool {
    forall|i: int| 0 <= i < s.len() ==> is_digit(#[trigger] s[i])
}

/// The index of the first `.` at or after `i`, or the length when none follows.
pub open spec fn first_dot_from(s: Seq<char>, i: int) -> int
    recommends
        0 <= i <= s.len(),
    decreases s.len() - i,
{
    if i < 0 || i >= s.len() {
        s.len() as int
    } else if s[i] == '.' {
        i
    } else {
        first_dot_from(s, i + 1)
    }
}

pub open spec fn first_dot(s: Seq<char>) -> int {
    first_dot_from(s, 0)
}

/// The decimal shape of a currency amount: one to thirteen integer digits,
/// then optionally a dot and one or two fraction digits.
pub open spec fn valid_money_str(s: Seq<char>) -> bool {
    let p = first_dot(s);
    &&& 1 <= p <= MAX_WHOLE_DIGITS
    &&& all_digits(s.subrange(0, p))
    &&& (p == s.len() || {
        let f = s.len() - p - 1;
        &&& 1 <= f <= 2
        &&& all_digits(s.subrange(p + 1, s.len() as int))
    })
}

/// The amount in cents named by a string of the shape `valid_money_str`
/// accepts.
pub open spec fn money_cents_of(s: Seq<char>) -> int {
    let p = first_dot(s);
    let whole = digits_val(s.subrange(0, p));
    if p == s.len() {
        whole * 100
    } else {
        let frac = digits_val(s.subrange(p + 1, s.len() as int));
        if s.len() - p - 1 == 1 {
            whole * 100 + frac * 10
        } else {
            whole * 100 + frac
        }
    }
}

pub open spec fn pow10(n: nat) -> int
    decreases n,
{
    if n == 0 {
        1
    } else {
        10 * pow10((n - 1) as nat)
    }
}

pub proof fn lemma_digits_val_bound(s: Seq<char>)
    requires
        all_digits(s),
    ensures
        0 <= digits_val(s) < pow10(s.len()),
    decreases s.len(),
{
    if s.len() > 0 {
        assert(all_digits(s.drop_last()));
        lemma_digits_val_bound(s.drop_last());
    }
}

proof fn lemma_first_dot_at(s: Seq<char>, i: int, k: int)
    requires
        0 <= i <= k <= s.len(),
        forall|j: int| i <= j < k ==> s[j] != '.',
        k < s.len() ==> s[k] == '.',
    ensures
        first_dot_from(s, i) == k,
    decreases k - i,
{
    if i < k {
        lemma_first_dot_at(s, i + 1, k);
    }
}

/// Reads the run of digits `s[from..to]` as a number.
fn parse_digit_run(s: &str, from: usize, to: usize) -> (r: Option<u64>)
    requires
        from <= to <= s@.len(),
        to - from <= MAX_WHOLE_DIGITS,
    ensures
        match r {
            Some(v) => all_digits(s@.subrange(from as int, to as int)) && v == digits_val(
                s@.subrange(from as int, to as int),
            ),
            None => !all_digits(s@.subrange(from as int, to as int)),
        },
{
    let ghost whole = s@.subrange(from as int, to as int);
    let mut acc: u64 = 0;
    let mut i: usize = from;
    proof {
        assert(whole.subrange(0, 0) =~= Seq::<char>::empty());
    }
    while i < to
        invariant
            from <= i <= to <= s@.len(),
            to - from <= MAX_WHOLE_DIGITS,
            whole == s@.subrange(from as int, to as int),
            all_digits(whole.subrange(0, i - from)),
            acc == digits_val(whole.subrange(0, i - from)),
        decreases to - i,
    {
        let ghost prefix = whole.subrange(0, i - from);
        match digit_at(s, i) {
            Some(d) => {
                proof {
                    lemma_digits_val_bound(prefix);
                    assert(pow10((i - from) as nat) <= pow10((MAX_WHOLE_DIGITS - 1) as nat)) by {
                        lemma_pow10_le((i - from) as nat, (MAX_WHOLE_DIGITS - 1) as nat);
                    }
                    assert(pow10(12) == 1000000000000) by {
                        reveal_with_fuel(pow10, 13);
                    }
                    assert(whole.subrange(0, i + 1 - from).drop_last() =~= prefix);
                    assert(whole.subrange(0, i + 1 - from).last() == s@[i as int]);
                }
                acc = acc * 10 + (d as u64);
                i = i + 1;
            },
            None => {
                proof {
                    assert(whole[i - from] == s@[i as int]);
                }
                return None;
            },
        }
    }
    proof {
        assert(whole.subrange(0, to - from) =~= whole);
    }
    Some(acc)
}

proof fn lemma_pow10_le(a: nat, b: nat)
    requires
        a <= b,
    ensures
        pow10(a) <= pow10(b),
        pow10(a) >= 1,
    decreases b,
{
    if a == b {
        lemma_pow10_pos(a);
    } else {
        lemma_pow10_le(a, (b - 1) as nat);
    }
}

proof fn lemma_pow10_pos(n: nat)
    ensures
        pow10(n) >= 1,
    decreases n,
{
    if n > 0 {
        lemma_pow10_pos((n - 1) as nat);
    }
}

/// Finds the first `.` of `s`, as `first_dot` names it.
fn find_dot(s: &str) -> (p: usize)
    ensures
        p == first_dot(s@),
        p <= s@.len(),
{
    let n = s.unicode_len();
    let mut i: usize = 0;
    while i < n
        invariant
            0 <= i <= n == s@.len(),
            forall|j: int| 0 <= j < i ==> s@[j] != '.',
        decreases n - i,
    {
        if s.get_char(i) == '.' {
            proof {
                lemma_first_dot_at(s@, 0, i as int);
            }
            return i;
        }
        i = i + 1;
    }
    proof {
        lemma_first_dot_at(s@, 0, n as int);
    }
    n
}

/// The decimal digits of a whole number, highest first.
pub open spec fn dec_digits(n: int) -> Seq<char>
    decreases n,
{
    if n < 10 {
        seq![digit_char(n)]
    } else {
        dec_digits(n / 10).push(digit_char(n % 10))
    }
}

/// The digits of `n` read back as `n`, and nothing among them but digits.
pub proof fn lemma_dec_digits(n: int)
    requires
        n >= 0,
    ensures
        all_digits(dec_digits(n)),
        digits_val(dec_digits(n)) == n,
        dec_digits(n).len() >= 1,
    decreases n,
{
    lemma_digit_char(n % 10);
    if n < 10 {
        let s = dec_digits(n);
        assert(s.drop_last() =~= Seq::<char>::empty());
        assert(digits_val(Seq::<char>::empty()) == 0);
        assert(digits_val(s) == digits_val(s.drop_last()) * 10 + digit_val(s.last()));
    } else {
        lemma_dec_digits(n / 10);
        let s = dec_digits(n / 10);
        let t = s.push(digit_char(n % 10));
        assert(t.drop_last() =~= s);
        assert forall|j: int| 0 <= j < t.len() implies is_digit(#[trigger] t[j]) by {
            if j < s.len() {
                assert(t[j] == s[j]);
            }
        }
    }
}

/// A number under `pow10(k)` writes in at most `k` digits.
pub proof fn lemma_dec_digits_len(n: int, k: nat)
    requires
        0 <= n < pow10(k),
        k >= 1,
    ensures
        dec_digits(n).len() <= k,
    decreases k,
{
    if n >= 10 {
        assert(pow10(k) == 10 * pow10((k - 1) as nat));
        if k == 1 {
            assert(pow10(0nat) == 1);
        }
        lemma_pow10_pos((k - 1) as nat);
        lemma_dec_digits_len(n / 10, (k - 1) as nat);
    }
}

/// Appends the decimal digits of `n`.
fn push_dec_digits(out: &mut String, n: u64)
    ensures
        final(out)@ == old(out)@ + dec_digits(n as int),
    decreases n,
{
    if n < 10 {
        out.append(digit_str(n as u32));
        proof {
            assert(final(out)@ =~= old(out)@ + dec_digits(n as int));
        }
    } else {
        let ghost before = out@;
        push_dec_digits(out, n / 10);
        out.append(digit_str((n % 10) as u32));
        proof {
            assert(final(out)@ =~= before + dec_digits(n as int));
        }
    }
}

/// The decimal writing of an amount, always with two fraction digits.
pub open spec fn money_str_of(m: Money) -> Seq<char> {
    dec_digits(m.cents as int / 100) + seq![
        '.',
        digit_char((m.cents as int % 100) / 10),
        digit_char(m.cents as int % 10),
    ]
}

/// Writes an amount in its decimal form (`95000.00`); within the thirteen
/// integer digits the type admits, the parser reads the very same count of
/// cents back.
pub fn money_to_string(m: &Money) -> (r: String)
    ensures
        r@ == money_str_of(*m),
        m.cents < 1000000000000000 ==> valid_money_str(r@) && money_cents_of(r@) == m.cents,
{
    let mut out = String::new();
    push_dec_digits(&mut out, m.cents / 100);
    out.append(".");
    out.append(digit_str(((m.cents % 100) / 10) as u32));
    out.append(digit_str((m.cents % 10) as u32));
    proof {
        reveal_strlit(".");
        assert(out@ =~= money_str_of(*m));
        if m.cents < 1000000000000000 {
            let whole = m.cents as int / 100;
            let tens = (m.cents as int % 100) / 10;
            let ones = m.cents as int % 10;
            let ds = dec_digits(whole);
            lemma_dec_digits(whole);
            lemma_digit_char(tens);
            lemma_digit_char(ones);
            let p = ds.len() as int;
            assert forall|j: int| 0 <= j < p implies out@[j] != '.' by {
                assert(is_digit(ds[j]));
            }
            assert(out@[p] == '.');
            lemma_first_dot_at(out@, 0, p);
            assert(pow10(13) == 10000000000000) by {
                reveal_with_fuel(pow10, 14);
            }
            lemma_dec_digits_len(whole, 13);
            assert(out@.subrange(0, p) =~= ds);
            let frac = out@.subrange(p + 1, out@.len() as int);
            assert(frac =~= seq![digit_char(tens), digit_char(ones)]);
            let t1 = seq![digit_char(tens)];
            assert(frac.drop_last() =~= t1);
            assert(t1.drop_last() =~= Seq::<char>::empty());
            assert(digits_val(Seq::<char>::empty()) == 0);
            assert(digits_val(t1) == digits_val(t1.drop_last()) * 10 + digit_val(t1.last()));
            assert(digits_val(frac) == digits_val(frac.drop_last()) * 10 + digit_val(frac.last()));
            assert(digits_val(frac) == tens * 10 + ones);
        }
    }
    out
}

/// Parses a currency amount; yields the exact count of cents on the strings
/// that `valid_money_str` accepts.
pub fn parse_money(s: &str) -> (r: Option<Money>)
    ensures
        match r {
            Some(m) => valid_money_str(s@) && m.cents == money_cents_of(s@),
            None => !valid_money_str(s@),
        },
{
    let n = s.unicode_len();
    let p = find_dot(s);
    if p < 1 || p > MAX_WHOLE_DIGITS {
        return None;
    }
    let whole = match parse_digit_run(s, 0, p) {
        Some(v) => v,
        None => {
            return None;
        },
    };
    proof {
        lemma_digits_val_bound(s@.subrange(0, p as int));
        lemma_pow10_le(p as nat, 13);
        assert(pow10(13) == 10000000000000) by {
            reveal_with_fuel(pow10, 14);
        }
    }
    if p == n {
        return Some(Money { cents: whole * 100 });
    }
    let f = n - p - 1;
    if f < 1 || f > 2 {
        return None;
    }
    let frac = match parse_digit_run(s, p + 1, n) {
        Some(v) => v,
        None => {
            return None;
        },
    };
    proof {
        lemma_digits_val_bound(s@.subrange(p + 1, n as int));
        assert(pow10(2) == 100) by {
            reveal_with_fuel(pow10, 3);
        }
    }
    if f == 1 {
        Some(Money { cents: whole * 100 + frac * 10 })
    } else {
        Some(Money { cents: whole * 100 + frac })
    }
}

} // verus!
