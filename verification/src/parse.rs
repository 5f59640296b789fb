//! Verified parsing primitives for property keys and values: decimal
//! integers, short decimal fractions, dotted-namespace prefixes, and
//! the `<namespace>.level[<integer>].<field>` key shape.

use vstd::prelude::*;
use vstd::string::StrSliceExecFns;

verus! {

/// Whether a character is a decimal digit.
pub open spec fn is_digit(c: char) -> bool {
    ('0' as u32) <= (c as u32) && (c as u32) <= ('9' as u32)
}

/// The value of a decimal digit character.
pub open spec fn digit_val(c: char) -> nat
    recommends
        is_digit(c),
{
    ((c as u32) - ('0' as u32)) as nat
}

/// Whether every character of a sequence is a decimal digit.
pub open spec fn all_digits(s: Seq<char>) -> bool {
    forall|i: int| 0 <= i < s.len() ==> is_digit(#[trigger] s[i])
}

/// The value of a sequence of decimal digit characters, read base 10.
pub open spec fn dec_val(s: Seq<char>) -> nat
    recommends
        all_digits(s),
    decreases s.len(),
{
    if s.len() == 0 {
        0
    } else {
        dec_val(s.drop_last()) * 10 + digit_val(s.last())
    }
}

/// Base-10 parsing of a string into `u32`: one or more decimal digits
/// whose value fits, and nothing else.
pub open spec fn spec_parse_u32(s: Seq<char>) -> Option<u32> {
    if s.len() >= 1 && all_digits(s) && dec_val(s) <= u32::MAX {
        Some(dec_val(s) as u32)
    } else {
        None
    }
}

/// A decimal fixed-point value with three fractional digits, stored as
/// a signed count of thousandths.
#[derive(Clone, Copy, Debug, PartialEq, Eq, Structural)]
pub struct FixedDecimal {
    /// The value in thousandths.
    pub milli: i64,
}

/// The value, in thousandths, of the fractional digits of a decimal
/// fraction; digits beyond the third are beneath the resolution of the
/// stored value and are ignored.
pub open spec fn spec_frac_milli(s: Seq<char>) -> nat
    recommends
        all_digits(s),
{
    let d0 = if s.len() >= 1 {
        digit_val(s[0])
    } else {
        0
    };
    let d1 = if s.len() >= 2 {
        digit_val(s[1])
    } else {
        0
    };
    let d2 = if s.len() >= 3 {
        digit_val(s[2])
    } else {
        0
    };
    100 * d0 + 10 * d1 + d2
}

/// The first position at or after `from` that does not hold a decimal
/// digit (or the length of the sequence when digits run to its end).
pub open spec fn digits_end(s: Seq<char>, from: int) -> int
    recommends
        0 <= from <= s.len(),
    decreases s.len() - from,
{
    if from < 0 || from >= s.len() {
        from
    } else if !is_digit(s[from]) {
        from
    } else {
        digits_end(s, from + 1)
    }
}

/// Base-10 parsing of a string into an unsigned fixed-point count of
/// thousandths: one or more integer digits, optionally followed by a
/// dot and fractional digits (whose tail beyond the third digit is
/// ignored). Values above `i64::MAX` thousandths are rejected.
pub open spec fn spec_parse_unsigned_fixed_milli(s: Seq<char>) -> Option<int> {
    let de = digits_end(s, 0);
    if de == 0 {
        None
    } else if de == s.len() {
        if dec_val(s) * 1000 <= i64::MAX {
            Some((dec_val(s) * 1000) as int)
        } else {
            None
        }
    } else {
        let frac = s.subrange(de + 1, s.len() as int);
        if s[de] == '.' && all_digits(frac) {
            let v = dec_val(s.subrange(0, de)) * 1000 + spec_frac_milli(frac);
            if v <= i64::MAX {
                Some(v as int)
            } else {
                None
            }
        } else {
            None
        }
    }
}

/// Base-10 parsing of a string into a signed fixed-point count of
/// thousandths: an optional leading minus sign, then the unsigned form.
pub open spec fn spec_parse_fixed_milli(s: Seq<char>) -> Option<int> {
    if s.len() >= 1 && s[0] == '-' {
        match spec_parse_unsigned_fixed_milli(s.subrange(1, s.len() as int)) {
            Some(v) => Some(-v),
            None => None,
        }
    } else {
        spec_parse_unsigned_fixed_milli(s)
    }
}

/// `spec_parse_fixed_milli`, packaged as a `FixedDecimal`.
pub open spec fn spec_parse_fixed(s: Seq<char>) -> Option<FixedDecimal> {
    match spec_parse_fixed_milli(s) {
        Some(v) => Some(FixedDecimal { milli: v as i64 }),
        None => None,
    }
}

/// The level index and field name of a key of the exact shape
/// `<prefix><integer>].<field>`, where `prefix` ends with `level[`:
/// the digits after the prefix (non-empty, value at most
/// `u32::MAX - 1` so one more than an index is still a count), then
/// `].`, then the field name (which may be empty or contain anything).
pub open spec fn spec_parse_level_key(prefix: Seq<char>, key: Seq<char>) -> Option<
    (u32, Seq<char>),
> {
    let p = prefix.len() as int;
    if key.len() > p && key.subrange(0, p) == prefix {
        let de = digits_end(key, p);
        if de > p && de + 2 <= key.len() && key[de] == ']' && key[de + 1] == '.' && dec_val(
            key.subrange(p, de),
        ) < u32::MAX {
            Some(
                (
                    dec_val(key.subrange(p, de)) as u32,
                    key.subrange(de + 2, key.len() as int),
                ),
            )
        } else {
            None
        }
    } else {
        None
    }
}

/// Collects the characters of a string.
pub fn to_chars(s: &str) -> (r: Vec<char>)
    ensures
        r@ == s@,
{
    let n: usize = s.unicode_len();
    let mut r: Vec<char> = Vec::new();
    let mut i: usize = 0;
    while i < n
        invariant
            i <= n,
            n == s@.len(),
            r@ == s@.subrange(0, i as int),
        decreases n - i,
    {
        r.push(s.get_char(i));
        i = i + 1;
        proof {
            assert(r@ =~= s@.subrange(0, i as int));
        }
    }
    proof {
        assert(s@.subrange(0, n as int) =~= s@);
    }
    r
}

/// Whether the characters in `[from, to)` equal the given string.
pub fn chars_eq_str(v: &Vec<char>, from: usize, to: usize, s: &str) -> (r: bool)
    requires
        from <= to <= v@.len(),
    ensures
        r == (v@.subrange(from as int, to as int) == s@),
{
    let n: usize = s.unicode_len();
    if to - from != n {
        proof {
            assert(v@.subrange(from as int, to as int).len() != s@.len());
        }
        return false;
    }
    let mut i: usize = 0;
    while i < n
        invariant
            i <= n,
            n == s@.len(),
            from <= to <= v@.len(),
            to - from == n,
            forall|k: int| 0 <= k < i ==> v@[from + k] == s@[k],
        decreases n - i,
    {
        if v[from + i] != s.get_char(i) {
            proof {
                assert(v@.subrange(from as int, to as int)[i as int] != s@[i as int]);
            }
            return false;
        }
        i = i + 1;
    }
    proof {
        assert(v@.subrange(from as int, to as int) =~= s@);
    }
    true
}

/// The value of the all-digit characters in `[from, to)`, tracked
/// against a cap: gives the value when it does not exceed the cap, and
/// reports overflow otherwise.
fn digits_value_capped(v: &Vec<char>, from: usize, to: usize, cap: u64) -> (r: Option<u64>)
    requires
        from <= to <= v@.len(),
        forall|k: int| from <= k < to ==> is_digit(#[trigger] v@[k]),
    ensures
        r is Some <==> dec_val(v@.subrange(from as int, to as int)) <= cap,
        r matches Some(x) ==> x == dec_val(v@.subrange(from as int, to as int)),
{
    let mut acc: u128 = 0;
    let mut overflowed = false;
    let mut i: usize = from;
    proof {
        assert(v@.subrange(from as int, from as int) =~= Seq::<char>::empty());
    }
    while i < to
        invariant
            from <= i <= to <= v@.len(),
            forall|k: int| from <= k < to ==> is_digit(#[trigger] v@[k]),
            !overflowed ==> acc == dec_val(v@.subrange(from as int, i as int)) && acc <= cap,
            overflowed ==> dec_val(v@.subrange(from as int, i as int)) > cap,
        decreases to - i,
    {
        proof {
            assert(is_digit(v@[i as int]));
        }
        let c: char = v[i];
        let d: u64 = ((c as u32) - ('0' as u32)) as u64;
        let ghost pre = v@.subrange(from as int, i as int);
        i = i + 1;
        proof {
            let cur = v@.subrange(from as int, i as int);
            assert(cur.drop_last() =~= pre);
            assert(cur.last() == c);
            assert(dec_val(cur) == dec_val(pre) * 10 + digit_val(c));
            assert(d == digit_val(c));
        }
        if overflowed {
            proof {
                let cur = v@.subrange(from as int, i as int);
                assert(dec_val(cur) >= dec_val(pre));
            }
        } else {
            acc = acc * 10 + (d as u128);
            if acc > cap as u128 {
                overflowed = true;
            }
        }
    }
    if overflowed {
        None
    } else {
        Some(acc as u64)
    }
}

/// Scans for the end of the digit run that starts at `from`, looking
/// no further than `end`.
fn scan_digits_end(v: &Vec<char>, from: usize, end: usize) -> (r: usize)
    requires
        from <= end <= v@.len(),
    ensures
        from <= r <= end,
        forall|k: int| from <= k < r ==> is_digit(#[trigger] v@[k]),
        r < end ==> !is_digit(v@[r as int]),
        r
            == (if digits_end(v@, from as int) > end {
            end as int
        } else {
            digits_end(v@, from as int)
        }),
{
    let mut i: usize = from;
    while i < end && (v[i] as u32) >= ('0' as u32) && (v[i] as u32) <= ('9' as u32)
        invariant
            from <= i <= end <= v@.len(),
            digits_end(v@, from as int) == digits_end(v@, i as int),
            forall|k: int| from <= k < i ==> is_digit(#[trigger] v@[k]),
        decreases end - i,
    {
        i = i + 1;
    }
    proof {
        lemma_digits_end_ge(v@, i as int);
        if i < end && !is_digit(v@[i as int]) {
            assert(digits_end(v@, i as int) == i);
        }
    }
    i
}

/// `digits_end` never lies before the position it starts from.
proof fn lemma_digits_end_ge(s: Seq<char>, from: int)
    requires
        0 <= from <= s.len(),
    ensures
        digits_end(s, from) >= from,
        digits_end(s, from) <= s.len(),
    decreases s.len() - from,
{
    if from < s.len() && is_digit(s[from]) {
        lemma_digits_end_ge(s, from + 1);
    }
}

/// Parses the all-or-nothing `u32` in the characters `[from, to)`.
pub fn parse_u32_chars(v: &Vec<char>, from: usize, to: usize) -> (r: Option<u32>)
    requires
        from <= to <= v@.len(),
    ensures
        r == spec_parse_u32(v@.subrange(from as int, to as int)),
{
    if from == to {
        return None;
    }
    let de = scan_digits_end(v, from, to);
    if de < to {
        proof {
            assert(!is_digit(v@[de as int]));
            assert(v@.subrange(from as int, to as int)[de - from] == v@[de as int]);
            assert(!all_digits(v@.subrange(from as int, to as int)));
        }
        return None;
    }
    proof {
        assert(forall|k: int|
            0 <= k < to - from ==> is_digit(
                #[trigger] v@.subrange(from as int, to as int)[k],
            ));
    }
    match digits_value_capped(v, from, to, u32::MAX as u64) {
        Some(x) => Some(x as u32),
        None => None,
    }
}

/// Base-10 parsing of a string into `u32`.
pub fn parse_u32_str(s: &str) -> (r: Option<u32>)
    ensures
        r == spec_parse_u32(s@),
{
    let chars = to_chars(s);
    let n = chars.len();
    let r = parse_u32_chars(&chars, 0, n);
    proof {
        assert(chars@.subrange(0, n as int) =~= s@);
    }
    r
}

/// Parses the signed fixed-point decimal in the characters `[from, to)`
/// into a count of thousandths.
#[verifier::rlimit(50)]
fn parse_fixed_chars(v: &Vec<char>, from: usize, to: usize) -> (r: Option<FixedDecimal>)
    requires
        from <= to <= v@.len(),
    ensures
        r == spec_parse_fixed(v@.subrange(from as int, to as int)),
{
    let ghost whole = v@.subrange(from as int, to as int);
    let negative = from < to && v[from] == '-';
    let start: usize = if negative {
        from + 1
    } else {
        from
    };
    let ghost body = v@.subrange(start as int, to as int);
    proof {
        if negative {
            assert(whole.subrange(1, whole.len() as int) =~= body);
        } else {
            assert(whole =~= body);
        }
    }
    let de = scan_digits_end(v, start, to);
    proof {
        // within [start, to) the digit run of the whole vector and of
        // the body subrange coincide
        lemma_digits_end_subrange(v@, start as int, to as int);
        assert(digits_end(body, 0) == de - start);
    }
    if de == start {
        return None;
    }
    let int_milli: Option<u64> = match digits_value_capped(v, start, de, i64::MAX as u64) {
        Some(x) => {
            if x <= (i64::MAX as u64) / 1000 {
                Some(x * 1000)
            } else {
                None
            }
        },
        None => None,
    };
    proof {
        assert(v@.subrange(start as int, de as int) =~= body.subrange(0, de - start));
    }
    if de == to {
        // pure integer
        proof {
            assert(body.subrange(0, de - start) =~= body);
        }
        match int_milli {
            Some(x) => {
                let milli: i64 = if negative {
                    -(x as i64)
                } else {
                    x as i64
                };
                return Some(FixedDecimal { milli });
            },
            None => {
                return None;
            },
        }
    }
    if v[de] != '.' {
        return None;
    }
    let frac_start: usize = de + 1;
    let ghost frac = body.subrange(de - start + 1, body.len() as int);
    proof {
        assert(frac =~= v@.subrange(frac_start as int, to as int));
    }
    let frac_end = scan_digits_end(v, frac_start, to);
    if frac_end < to {
        proof {
            assert(!is_digit(v@[frac_end as int]));
            assert(frac[frac_end - frac_start] == v@[frac_end as int]);
            assert(!all_digits(frac));
        }
        return None;
    }
    proof {
        assert(forall|k: int| 0 <= k < frac.len() ==> is_digit(#[trigger] frac[k]));
    }
    let frac_len: usize = to - frac_start;
    let d0: u64 = if frac_len >= 1 {
        proof {
            assert(frac[0] == v@[frac_start as int]);
        }
        ((v[frac_start] as u32) - ('0' as u32)) as u64
    } else {
        0
    };
    let d1: u64 = if frac_len >= 2 {
        proof {
            assert(frac[1] == v@[frac_start + 1]);
        }
        ((v[frac_start + 1] as u32) - ('0' as u32)) as u64
    } else {
        0
    };
    let d2: u64 = if frac_len >= 3 {
        proof {
            assert(frac[2] == v@[frac_start + 2]);
        }
        ((v[frac_start + 2] as u32) - ('0' as u32)) as u64
    } else {
        0
    };
    let frac_milli: u64 = 100 * d0 + 10 * d1 + d2;
    proof {
        assert(frac_milli == spec_frac_milli(frac));
    }
    match int_milli {
        Some(x) => {
            if x <= (i64::MAX as u64) - frac_milli {
                let total: u64 = x + frac_milli;
                let milli: i64 = if negative {
                    -(total as i64)
                } else {
                    total as i64
                };
                Some(FixedDecimal { milli })
            } else {
                None
            }
        },
        None => None,
    }
}

/// The digit run scanned inside a subrange matches the digit run of
/// the subrange taken on its own.
proof fn lemma_digits_end_subrange(s: Seq<char>, start: int, to: int)
    requires
        0 <= start <= to <= s.len(),
    ensures
        ({
            let body = s.subrange(start, to);
            let de = if digits_end(s, start) > to {
                to
            } else {
                digits_end(s, start)
            };
            digits_end(body, 0) == de - start
        }),
{
    let body = s.subrange(start, to);
    lemma_digits_end_shift(s, start, to, start);
}

/// Relates `digits_end` on a suffix position of the original sequence
/// to `digits_end` on the corresponding position of the subrange.
proof fn lemma_digits_end_shift(s: Seq<char>, start: int, to: int, i: int)
    requires
        0 <= start <= i <= to <= s.len(),
    ensures
        ({
            let de = if digits_end(s, i) > to {
                to
            } else {
                digits_end(s, i)
            };
            digits_end(s.subrange(start, to), i - start) == de - start
        }),
    decreases to - i,
{
    let body = s.subrange(start, to);
    if i == to {
        assert(digits_end(body, i - start) == i - start);
        lemma_digits_end_ge(s, i);
    } else {
        if is_digit(s[i]) {
            lemma_digits_end_shift(s, start, to, i + 1);
            assert(body[i - start] == s[i]);
        } else {
            assert(body[i - start] == s[i]);
            assert(digits_end(body, i - start) == i - start);
            assert(digits_end(s, i) == i);
        }
    }
}

/// Base-10 parsing of a string into a signed fixed-point decimal.
pub fn parse_fixed_str(s: &str) -> (r: Option<FixedDecimal>)
    ensures
        r == spec_parse_fixed(s@),
{
    let chars = to_chars(s);
    let n = chars.len();
    let r = parse_fixed_chars(&chars, 0, n);
    proof {
        assert(chars@.subrange(0, n as int) =~= s@);
    }
    r
}

/// Parses a level-indexed key of the exact shape
/// `<prefix><integer>].<field>`; gives the level index and the
/// position where the field name starts.
pub fn parse_level_key(key: &Vec<char>, prefix: &str) -> (r: Option<(u32, usize)>)
    ensures
        r is Some <==> spec_parse_level_key(prefix@, key@) is Some,
        r matches Some(pair) ==> spec_parse_level_key(prefix@, key@) matches Some(spair)
            && spair.0 == pair.0 && pair.1 <= key@.len() && spair.1 == key@.subrange(
            pair.1 as int,
            key@.len() as int,
        ),
{
    let p: usize = prefix.unicode_len();
    let n: usize = key.len();
    if n <= p {
        return None;
    }
    if !chars_eq_str(key, 0, p, prefix) {
        return None;
    }
    let de = scan_digits_end(key, p, n);
    if de == p {
        return None;
    }
    if n - de < 2 {
        return None;
    }
    if key[de] != ']' || key[de + 1] != '.' {
        return None;
    }
    let idx = match digits_value_capped(key, p, de, (u32::MAX - 1) as u64) {
        Some(x) => x as u32,
        None => {
            return None;
        },
    };
    Some((idx, de + 2))
}

/// The position of the first `.` of a key, or the key's length when
/// it has no dot; the namespace segment is everything before it.
pub open spec fn spec_first_dot(s: Seq<char>) -> int {
    if exists|i: int| 0 <= i < s.len() && s[i] == '.' {
        choose|i: int|
            0 <= i < s.len() && s[i] == '.' && forall|j: int| 0 <= j < i ==> s[j] != '.'
    } else {
        s.len() as int
    }
}

/// The namespace segment of a key: the text before its first dot, or
/// the whole key when it has no dot.
pub open spec fn spec_namespace(s: Seq<char>) -> Seq<char> {
    s.subrange(0, spec_first_dot(s))
}

/// Finds the position of the first dot of a key (or its length).
pub fn find_first_dot(v: &Vec<char>) -> (r: usize)
    ensures
        r == spec_first_dot(v@),
        r <= v@.len(),
        forall|j: int| 0 <= j < r ==> v@[j] != '.',
        r < v@.len() ==> v@[r as int] == '.',
{
    let n: usize = v.len();
    let mut i: usize = 0;
    while i < n
        invariant
            i <= n,
            n == v@.len(),
            forall|j: int| 0 <= j < i ==> v@[j] != '.',
        decreases n - i,
    {
        if v[i] == '.' {
            proof {
                lemma_first_dot_found(v@, i as int);
            }
            return i;
        }
        i = i + 1;
    }
    proof {
        assert(forall|j: int| 0 <= j < v@.len() ==> v@[j] != '.');
        assert(!(exists|k: int| 0 <= k < v@.len() && v@[k] == '.'));
    }
    n
}

/// When position `i` holds the first dot, `spec_first_dot` is `i`.
proof fn lemma_first_dot_found(s: Seq<char>, i: int)
    requires
        0 <= i < s.len(),
        s[i] == '.',
        forall|j: int| 0 <= j < i ==> s[j] != '.',
    ensures
        spec_first_dot(s) == i,
{
    assert(exists|k: int| 0 <= k < s.len() && s[k] == '.');
    let w = choose|k: int|
        0 <= k < s.len() && s[k] == '.' && forall|j: int| 0 <= j < k ==> s[j] != '.';
    assert(0 <= i < s.len() && s[i] == '.' && (forall|j: int| 0 <= j < i ==> s[j] != '.'));
    if w < i {
        assert(s[w] != '.');
    }
    if i < w {
        assert(s[i] != '.');
    }
}

} // verus!
