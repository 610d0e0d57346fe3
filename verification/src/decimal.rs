use vstd::prelude::*;

verus! {

/// Number of fractional digits that a parsed decimal keeps.
pub const PLACES: usize = 6;

/// One unit, in millionths.
pub const ONE: i64 = 1_000_000;

pub open spec fn is_digit(c: char) -> bool {
    '0' <= c && c <= '9'
}

pub open spec fn digit_value(c: char) -> nat {
    ((c as u8) - ('0' as u8)) as nat
}

pub open spec fn is_sign(c: char) -> bool {
    c == '+' || c == '-'
}

/// The first position at or after `from` that holds no digit; the length of
/// `s` where digits run to its end.
pub open spec fn digit_run(s: Seq<char>, from: int) -> int
    decreases s.len() - from,
{
    if from < 0 || from >= s.len() {
        s.len() as int
    } else if is_digit(s[from]) {
        digit_run(s, from + 1)
    } else {
        from
    }
}

/// The number that a run of digits writes.
pub open spec fn digits_value(s: Seq<char>) -> nat
    decreases s.len(),
{
    if s.len() == 0 {
        0
    } else {
        digits_value(s.drop_last()) * 10 + digit_value(s.last())
    }
}

/// The first `places` fractional digits read as a whole number, zeros standing
/// in where `s` has fewer digits.
pub open spec fn fraction_value(s: Seq<char>, places: nat) -> nat
    decreases places,
{
    if places == 0 {
        0
    } else {
        let k = (places - 1) as int;
        fraction_value(s, (places - 1) as nat) * 10 + if k < s.len() {
            digit_value(s[k])
        } else {
            0
        }
    }
}

/// The value in millionths of a decimal numeral: an optional sign, one digit
/// or more, and optionally a point followed by any number of digits. Digits
/// after the sixth fractional place are dropped. `None` for any other text
/// and for a value out of the range of `i64`.
pub open spec fn decimal_micros(s: Seq<char>) -> Option<i64> {
    let start: int = if s.len() > 0 && is_sign(s[0]) {
        1
    } else {
        0
    };
    let negative = s.len() > 0 && s[0] == '-';
    let point = digit_run(s, start);
    if point == start {
        None
    } else if point < s.len() && (s[point] != '.' || digit_run(s, point + 1) != s.len()) {
        None
    } else {
        let whole = digits_value(s.subrange(start, point));
        let fraction = if point < s.len() {
            fraction_value(s.subrange(point + 1, s.len() as int), PLACES as nat)
        } else {
            0
        };
        let magnitude = whole * ONE + fraction;
        if magnitude > i64::MAX {
            None
        } else if negative {
            Some((-magnitude) as i64)
        } else {
            Some(magnitude as i64)
        }
    }
}

/// A run of digits ends within the text, holds digits only, and is followed
/// by none.
proof fn lemma_digit_run_bounds(s: Seq<char>, from: int)
    requires
        0 <= from <= s.len(),
    ensures
        from <= digit_run(s, from) <= s.len(),
        forall|i: int| from <= i < digit_run(s, from) ==> is_digit(#[trigger] s[i]),
        digit_run(s, from) < s.len() ==> !is_digit(s[digit_run(s, from)]),
    decreases s.len() - from,
{
    if from < s.len() && is_digit(s[from]) {
        lemma_digit_run_bounds(s, from + 1);
    }
}

/// A run of digits writes no smaller a number than any of its beginnings.
proof fn lemma_digits_value_grows(s: Seq<char>, k: int)
    requires
        0 <= k <= s.len(),
    ensures
        digits_value(s.take(k)) <= digits_value(s),
    decreases s.len() - k,
{
    if k < s.len() {
        lemma_digits_value_grows(s.drop_last(), k);
        assert(s.drop_last().take(k) == s.take(k));
    } else {
        assert(s.take(k) == s);
    }
}

/// Fractional digits read as a whole number stay below ten to the number of
/// places read.
proof fn lemma_fraction_bound(s: Seq<char>, places: nat)
    requires
        forall|i: int| 0 <= i < s.len() ==> is_digit(#[trigger] s[i]),
        places <= PLACES,
    ensures
        fraction_value(s, places) < 1_000_000,
        places == 0 ==> fraction_value(s, places) == 0,
        places <= 1 ==> fraction_value(s, places) < 10,
        places <= 2 ==> fraction_value(s, places) < 100,
        places <= 3 ==> fraction_value(s, places) < 1_000,
        places <= 4 ==> fraction_value(s, places) < 10_000,
        places <= 5 ==> fraction_value(s, places) < 100_000,
    decreases places,
{
    if places > 0 {
        lemma_fraction_bound(s, (places - 1) as nat);
    }
}

fn digit_of(c: char) -> (d: u8)
    requires
        is_digit(c),
    ensures
        d == digit_value(c),
        d <= 9,
{
    (c as u8) - ('0' as u8)
}

fn holds_digit(c: char) -> (r: bool)
    ensures
        r == is_digit(c),
{
    '0' <= c && c <= '9'
}

/// Reads the decimal numeral that the characters `v[from..to]` spell: see
/// `decimal_micros`.
pub fn parse_decimal(v: &Vec<char>, from: usize, to: usize) -> (r: Option<i64>)
    requires
        from <= to <= v.len(),
    ensures
        r == decimal_micros(v@.subrange(from as int, to as int)),
{
    let ghost s = v@.subrange(from as int, to as int);
    let mut i: usize = from;
    let mut negative = false;
    if i < to && (v[i] == '+' || v[i] == '-') {
        negative = v[i] == '-';
        i += 1;
    }
    assert(s.len() > 0 ==> s[0] == v@[from as int]);
    let start: usize = i;
    let mut whole: u64 = 0;
    // More than this many whole units cannot be held in millionths.
    let limit: u64 = 9_223_372_036_854;
    let mut too_large = false;
    while i < to && holds_digit(v[i])
        invariant
            from <= start <= i <= to <= v.len(),
            s == v@.subrange(from as int, to as int),
            digit_run(s, start - from) == digit_run(s, i - from),
            limit == 9_223_372_036_854,
            !too_large ==> whole == digits_value(s.subrange(start - from, i - from)),
            !too_large ==> whole <= limit,
            too_large ==> digits_value(s.subrange(start - from, i - from)) > limit,
        decreases to - i,
    {
        let d = digit_of(v[i]);
        proof {
            let next = s.subrange(start - from, i + 1 - from);
            assert(next.drop_last() == s.subrange(start - from, i - from));
            assert(next.last() == v@[i as int]);
            assert(s[i - from] == v@[i as int]);
        }
        if !too_large {
            let grown: u64 = whole * 10 + d as u64;
            if grown > limit {
                too_large = true;
            } else {
                whole = grown;
            }
        }
        i += 1;
    }
    proof {
        lemma_digit_run_bounds(s, start - from);
        if i < to {
            assert(s[i - from] == v@[i as int]);
        }
        assert(digit_run(s, i - from) == i - from);
    }
    let point: usize = i;
    if point == start {
        return None;
    }
    let mut fraction: u64 = 0;
    if point < to {
        assert(s[point - from] == v@[point as int]);
        if v[point] != '.' {
            return None;
        }
        let first: usize = point + 1;
        let ghost f = s.subrange(first - from, s.len() as int);
        let mut k: usize = 0;
        i = first;
        while i < to && holds_digit(v[i])
            invariant
                from <= first <= i <= to <= v.len(),
                s == v@.subrange(from as int, to as int),
                f == s.subrange(first - from, s.len() as int),
                digit_run(s, first - from) == digit_run(s, i - from),
                forall|j: int| 0 <= j < i - first ==> is_digit(#[trigger] f[j]),
                k == if i - first < PLACES { (i - first) as usize } else { PLACES },
                fraction == fraction_value(f.take(i - first), k as nat),
                fraction < 1_000_000,
            decreases to - i,
        {
            let d = digit_of(v[i]);
            proof {
                assert(s[i - from] == v@[i as int]);
                assert(f[i - first] == v@[i as int]);
            }
            if k < PLACES {
                proof {
                    lemma_fraction_bound(f.take(i - first), k as nat);
                    lemma_fraction_same(f.take(i - first), f.take(i + 1 - first), k as nat);
                    assert(f.take(i + 1 - first)[k as int] == f[i - first]);
                }
                fraction = fraction * 10 + d as u64;
                k += 1;
            } else {
                proof {
                    lemma_fraction_same(f.take(i - first), f.take(i + 1 - first), k as nat);
                }
            }
            i += 1;
        }
        proof {
            lemma_digit_run_bounds(s, first - from);
            if i < to {
                assert(s[i - from] == v@[i as int]);
            }
            assert(digit_run(s, i - from) == i - from);
        }
        if i < to {
            return None;
        }
        assert(f.take(i - first) == f);
        while k < PLACES
            invariant
                k <= PLACES,
                f.len() <= k || k == PLACES,
                forall|j: int| 0 <= j < f.len() ==> is_digit(#[trigger] f[j]),
                fraction == fraction_value(f, k as nat),
            decreases PLACES - k,
        {
            proof {
                lemma_fraction_bound(f, k as nat);
            }
            fraction = fraction * 10;
            k += 1;
        }
        proof {
            lemma_fraction_bound(f, PLACES as nat);
        }
    }
    proof {
        assert(s.subrange(start - from, point - from).take(point - start) == s.subrange(
            start - from,
            point - from,
        ));
    }
    if too_large {
        return None;
    }
    let magnitude: u64 = whole * 1_000_000 + fraction;
    if magnitude > i64::MAX as u64 {
        None
    } else if negative {
        Some(-(magnitude as i64))
    } else {
        Some(magnitude as i64)
    }
}

/// Digits past the places that are read do not change the value read.
proof fn lemma_fraction_same(a: Seq<char>, b: Seq<char>, places: nat)
    requires
        a.len() <= b.len(),
        forall|j: int| 0 <= j < a.len() ==> a[j] == b[j],
        places <= a.len(),
    ensures
        fraction_value(a, places) == fraction_value(b, places),
    decreases places,
{
    if places > 0 {
        lemma_fraction_same(a, b, (places - 1) as nat);
    }
}

} // verus!
