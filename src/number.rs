//! Reading the numbers a user types: integer identifiers and money amounts
//! written with at most two decimal places, held as a count of cents.

use vstd::prelude::*;
use vstd::string::StrSliceExecFns;

verus! {

pub open spec fn is_digit(c: char) -> bool {
    '0' <= c && c <= '9'
}

pub open spec fn digit_value(c: char) -> int {
    c as int - '0' as int
}

pub open spec fn all_digits(s: Seq<char>) -> bool {
    forall|i: int| 0 <= i < s.len() ==> is_digit(#[trigger] s[i])
}

/// The decimal value of a string of digits, most significant first.
pub open spec fn digits_value(s: Seq<char>) -> int
    decreases s.len(),
{
    if s.len() == 0 {
        0
    } else {
        digits_value(s.drop_last()) * 10 + digit_value(s.last())
    }
}

pub open spec fn sign_of(s: Seq<char>) -> int {
    if s.len() > 0 && s[0] == '-' {
        -1
    } else {
        1
    }
}

/// The text after an optional leading `+` or `-`.
pub open spec fn unsigned_part(s: Seq<char>) -> Seq<char> {
    if s.len() > 0 && (s[0] == '-' || s[0] == '+') {
        s.skip(1)
    } else {
        s
    }
}

pub open spec fn in_i64(v: int) -> bool {
    i64::MIN <= v <= i64::MAX
}

/// An optional sign followed by one or more digits, within the range of `i64`.
pub open spec fn integer_of(s: Seq<char>) -> Option<int> {
    let body = unsigned_part(s);
    let v = sign_of(s) * digits_value(body);
    if body.len() > 0 && all_digits(body) && in_i64(v) {
        Some(v)
    } else {
        None
    }
}

/// `body` splits at `p` into whole units, a point, and decimals, of which
/// any past the second are zeros.
pub open spec fn point_at(body: Seq<char>, p: int) -> bool {
    &&& 0 <= p < body.len()
    &&& body[p] == '.'
    &&& all_digits(body.take(p))
    &&& all_digits(body.skip(p + 1))
    &&& forall|k: int| p + 3 <= k < body.len() ==> #[trigger] body[k] == '0'
    &&& body.len() >= 2
}

/// Cents given by the digits after the point: "5" is fifty, "05" is five,
/// "0500" is five.
pub open spec fn fraction_cents(f: Seq<char>) -> int {
    if f.len() == 0 {
        0
    } else if f.len() == 1 {
        digit_value(f[0]) * 10
    } else {
        digit_value(f[0]) * 10 + digit_value(f[1])
    }
}

/// The unsigned amount in cents written by `body`, if it is well formed.
pub open spec fn unsigned_cents(body: Seq<char>) -> Option<int> {
    if body.len() > 0 && all_digits(body) {
        Some(digits_value(body) * 100)
    } else if exists|p: int| point_at(body, p) {
        let p = choose|p: int| point_at(body, p);
        Some(digits_value(body.take(p)) * 100 + fraction_cents(body.skip(p + 1)))
    } else {
        None
    }
}

/// An amount of money in cents: an optional sign, whole units, and
/// optionally a point followed by any number of decimals, with at least one
/// digit in all ("12", "-3.5", ".25", "7.", "2.500"). Decimals past the
/// second must be zeros, as no count of cents holds a finer amount ("1.239"
/// is refused), and the amount must fit an `i64`.
pub open spec fn amount_of(s: Seq<char>) -> Option<int> {
    match unsigned_cents(unsigned_part(s)) {
        Some(c) => if in_i64(sign_of(s) * c) {
            Some(sign_of(s) * c)
        } else {
            None
        },
        None => None,
    }
}

proof fn lemma_digits_value_nonneg(s: Seq<char>)
    requires
        all_digits(s),
    ensures
        digits_value(s) >= 0,
    decreases s.len(),
{
    if s.len() > 0 {
        lemma_digits_value_nonneg(s.drop_last());
    }
}

/// A string of digits is worth at least any of its prefixes.
proof fn lemma_digits_value_prefix(s: Seq<char>, k: int)
    requires
        all_digits(s),
        0 <= k <= s.len(),
    ensures
        digits_value(s) >= digits_value(s.take(k)),
    decreases s.len(),
{
    if k < s.len() {
        assert(s.drop_last().take(k) =~= s.take(k));
        lemma_digits_value_prefix(s.drop_last(), k);
        lemma_digits_value_nonneg(s.drop_last());
    } else {
        assert(s.take(k) =~= s);
    }
}

/// The characters of `s`, in order.
pub(crate) fn chars_of(s: &String) -> (r: Vec<char>)
    ensures
        r@ == s@,
{
    let t = s.as_str();
    let n = t.unicode_len();
    let mut v: Vec<char> = Vec::new();
    let mut i: usize = 0;
    while i < n
        invariant
            n == t@.len(),
            t@ == s@,
            i <= n,
            v@ == t@.take(i as int),
        decreases n - i,
    {
        v.push(t.get_char(i));
        i = i + 1;
        assert(v@ =~= t@.take(i as int));
    }
    assert(t@.take(n as int) =~= t@);
    v
}

/// Whether `s[lo..hi]` holds digits only.
fn digits_only(s: &Vec<char>, lo: usize, hi: usize) -> (r: bool)
    requires
        lo <= hi <= s@.len(),
    ensures
        r == all_digits(s@.subrange(lo as int, hi as int)),
{
    let mut i: usize = lo;
    while i < hi
        invariant
            lo <= i <= hi <= s@.len(),
            forall|j: int| lo <= j < i ==> is_digit(#[trigger] s@[j]),
        decreases hi - i,
    {
        if !('0' <= s[i] && s[i] <= '9') {
            assert(!is_digit(s@.subrange(lo as int, hi as int)[i - lo]));
            return false;
        }
        i = i + 1;
    }
    assert forall|j: int| 0 <= j < hi - lo implies is_digit(
        #[trigger] s@.subrange(lo as int, hi as int)[j],
    ) by {
        assert(s@.subrange(lo as int, hi as int)[j] == s@[lo + j]);
    }
    true
}

/// Reads `s[lo..hi]` as digits, refusing a value above `limit`.
fn read_digits(s: &Vec<char>, lo: usize, hi: usize, limit: u64) -> (r: Option<u64>)
    requires
        lo <= hi <= s@.len(),
    ensures
        match r {
            Some(v) => all_digits(s@.subrange(lo as int, hi as int))
                && v == digits_value(s@.subrange(lo as int, hi as int)) && v <= limit,
            None => !all_digits(s@.subrange(lo as int, hi as int))
                || digits_value(s@.subrange(lo as int, hi as int)) > limit,
        },
{
    let mut acc: u64 = 0;
    let mut i: usize = lo;
    while i < hi
        invariant
            lo <= i <= hi <= s@.len(),
            all_digits(s@.subrange(lo as int, i as int)),
            acc == digits_value(s@.subrange(lo as int, i as int)),
            acc <= limit,
        decreases hi - i,
    {
        let c = s[i];
        let ghost pre = s@.subrange(lo as int, i as int);
        let ghost next = s@.subrange(lo as int, i as int + 1);
        assert(next.drop_last() =~= pre);
        if !('0' <= c && c <= '9') {
            assert(!is_digit(s@.subrange(lo as int, hi as int)[i - lo]));
            return None;
        }
        let d: u64 = (c as u32 - '0' as u32) as u64;
        assert(d == digit_value(c));
        if d > limit || acc > (limit - d) / 10 {
            proof {
                assert(acc * 10 + d > limit) by (nonlinear_arith)
                    requires
                        d > limit || (d <= limit && acc > (limit - d) / 10),
                        acc >= 0,
                ;
                assert(next.last() == c);
                assert(digits_value(next) == acc * 10 + d);
                let whole = s@.subrange(lo as int, hi as int);
                if all_digits(whole) {
                    assert(whole.take(i + 1 - lo) =~= next);
                    lemma_digits_value_prefix(whole, i + 1 - lo);
                }
            }
            return None;
        }
        proof {
            assert(acc * 10 + d <= limit) by (nonlinear_arith)
                requires
                    acc <= (limit - d) / 10,
                    d <= 9,
            ;
            assert(next.last() == c);
        }
        acc = acc * 10 + d;
        i = i + 1;
        assert(all_digits(next)) by {
            assert forall|j: int| 0 <= j < next.len() implies is_digit(#[trigger] next[j]) by {
                if j < next.len() - 1 {
                    assert(next[j] == pre[j]);
                }
            }
        }
    }
    Some(acc)
}


/// A point with no other point before it is the only place `body` can split.
proof fn lemma_point_unique(body: Seq<char>, p: int)
    requires
        0 <= p < body.len(),
        body[p] == '.',
        forall|j: int| 0 <= j < p ==> body[j] != '.',
    ensures
        forall|q: int| #[trigger] point_at(body, q) ==> q == p,
{
    assert forall|q: int| #[trigger] point_at(body, q) implies q == p by {
        if q > p {
            assert(body.take(q)[p] == '.');
        }
    }
}

/// Reads an identifier as `str::parse::<i64>` does: an optional sign and
/// at least one digit.
pub fn parse_integer(s: &String) -> (r: Option<i64>)
    ensures
        match r {
            Some(v) => integer_of(s@) == Some(v as int),
            None => integer_of(s@) is None,
        },
{
    let cs = chars_of(s);
    let n = cs.len();
    let mut neg = false;
    let mut lo: usize = 0;
    if n > 0 && (cs[0] == '-' || cs[0] == '+') {
        neg = cs[0] == '-';
        lo = 1;
    }
    assert(unsigned_part(s@) =~= cs@.subrange(lo as int, n as int));
    assert(sign_of(s@) == if neg { -1int } else { 1int });
    if lo == n {
        return None;
    }
    match read_digits(&cs, lo, n, 9223372036854775808u64) {
        None => None,
        Some(v) => {
            if neg {
                if v == 9223372036854775808u64 {
                    Some(i64::MIN)
                } else {
                    Some(-(v as i64))
                }
            } else if v > 9223372036854775807u64 {
                None
            } else {
                Some(v as i64)
            }
        },
    }
}

/// Largest count of whole units whose cents can fit an `i64`.
const MAX_UNITS: u64 = 92233720368547758;

/// Reads a money amount in cents; see `amount_of` for the accepted text.
pub fn parse_amount(s: &String) -> (r: Option<i64>)
    ensures
        match r {
            Some(v) => amount_of(s@) == Some(v as int),
            None => amount_of(s@) is None,
        },
{
    let cs = chars_of(s);
    let n = cs.len();
    let mut neg = false;
    let mut lo: usize = 0;
    if n > 0 && (cs[0] == '-' || cs[0] == '+') {
        neg = cs[0] == '-';
        lo = 1;
    }
    let ghost body = cs@.subrange(lo as int, n as int);
    assert(unsigned_part(s@) =~= body);
    assert(sign_of(s@) == if neg { -1int } else { 1int });
    if lo == n {
        assert(!exists|p: int| point_at(body, p));
        return None;
    }
    let mut i: usize = lo;
    while i < n && cs[i] != '.'
        invariant
            lo <= i <= n == cs@.len(),
            body == cs@.subrange(lo as int, n as int),
            forall|j: int| 0 <= j < i - lo ==> body[j] != '.',
        decreases n - i,
    {
        i = i + 1;
    }
    let mut cents: u64 = 0;
    if i == n {
        assert forall|q: int| !point_at(body, q) by {}
        match read_digits(&cs, lo, n, MAX_UNITS) {
            None => {
                proof {
                    if all_digits(body) {
                        assert(digits_value(body) * 100 > i64::MAX) by (nonlinear_arith)
                            requires digits_value(body) > 92233720368547758int;
                    }
                }
                return None;
            },
            Some(u) => {
                cents = u * 100;
            },
        }
    } else {
        let ghost p = i - lo;
        proof {
            lemma_point_unique(body, p);
        }
        assert(body[p] == cs@[i as int]);
        assert(!is_digit(body[p]));
        assert(!all_digits(body) && body[p] == '.');
        if n - lo < 2 {
            return None;
        }
        assert(body.take(p) =~= cs@.subrange(lo as int, i as int));
        assert(body.skip(p + 1) =~= cs@.subrange(i + 1, n as int));
        if !digits_only(&cs, i + 1, n) {
            return None;
        }
        let mut k: usize = i + 1;
        while k < n
            invariant
                i < k <= n == cs@.len(),
                lo <= i,
                p == i - lo,
                body == cs@.subrange(lo as int, n as int),
                forall|j: int| p + 3 <= j < k - lo ==> #[trigger] body[j] == '0',
                forall|q: int| #[trigger] point_at(body, q) ==> q == p,
                !all_digits(body),
                unsigned_part(s@) == body,
            decreases n - k,
        {
            if k - i >= 3 && cs[k] != '0' {
                assert(body[k - lo] == cs@[k as int]);
                assert(!point_at(body, p));
                return None;
            }
            assert(k - i >= 3 ==> body[k - lo] == cs@[k as int]);
            k = k + 1;
        }
        let ghost fseq = body.skip(p + 1);
        let fc: u64 = if i + 1 == n {
            0
        } else if i + 2 == n {
            assert(is_digit(fseq[0]));
            ((cs[i + 1] as u32 - '0' as u32) as u64) * 10
        } else {
            assert(is_digit(fseq[0]) && is_digit(fseq[1]));
            ((cs[i + 1] as u32 - '0' as u32) as u64) * 10 + (cs[i + 2] as u32 - '0' as u32) as u64
        };
        assert(fc == fraction_cents(fseq));
        let units = match read_digits(&cs, lo, i, MAX_UNITS) {
            None => {
                proof {
                    if all_digits(body.take(p)) {
                        assert(digits_value(body.take(p)) * 100 + fraction_cents(body.skip(p + 1))
                            > i64::MAX + 1) by {
                            let f = body.skip(p + 1);
                            if f.len() == 1 {
                                assert(is_digit(f[0]));
                            }
                            if f.len() >= 2 {
                                assert(is_digit(f[0]) && is_digit(f[1]));
                            }
                            assert(digits_value(body.take(p)) * 100 >= 9223372036854775900int)
                                by (nonlinear_arith)
                                requires digits_value(body.take(p)) > 92233720368547758int;
                        }
                    }
                }
                return None;
            },
            Some(u) => u,
        };
        assert(point_at(body, p));
        cents = units * 100 + fc;
    }
    assert(unsigned_cents(body) == Some(cents as int));
    if neg {
        if cents == 9223372036854775808u64 {
            Some(i64::MIN)
        } else if cents > 9223372036854775808u64 {
            None
        } else {
            Some(-(cents as i64))
        }
    } else if cents > 9223372036854775807u64 {
        None
    } else {
        Some(cents as i64)
    }
}

} // verus!
