//! Decimal rendering of integers, used to put the observed sentinel
//! values into error messages.

use vstd::prelude::*;
use vstd::string::StringExecFns;

verus! {

/// The character for one decimal digit value.
pub open spec fn digit_char(d: nat) -> char {
    if d == 0 {
        '0'
    } else if d == 1 {
        '1'
    } else if d == 2 {
        '2'
    } else if d == 3 {
        '3'
    } else if d == 4 {
        '4'
    } else if d == 5 {
        '5'
    } else if d == 6 {
        '6'
    } else if d == 7 {
        '7'
    } else if d == 8 {
        '8'
    } else {
        '9'
    }
}

/// The canonical decimal rendering of a non-negative integer: no sign,
/// no leading zeros (except for the value zero itself).
pub open spec fn spec_u64_dec(n: nat) -> Seq<char>
    decreases n,
{
    if n < 10 {
        seq![digit_char(n)]
    } else {
        spec_u64_dec(n / 10).push(digit_char(n % 10))
    }
}

/// The canonical decimal rendering of an integer, with a leading minus
/// sign when it is negative.
pub open spec fn spec_i64_dec(n: int) -> Seq<char> {
    if n < 0 {
        seq!['-'] + spec_u64_dec((-n) as nat)
    } else {
        spec_u64_dec(n as nat)
    }
}

/// The characters of a least-significant-digit-first sequence of digit
/// values, read back in most-significant-first order.
spec fn rev_digit_chars(ds: Seq<u64>) -> Seq<char> {
    Seq::new(ds.len(), |i: int| digit_char(ds[ds.len() - 1 - i] as nat))
}

/// One decimal digit as a string slice.
fn digit_to_str(d: u64) -> (r: &'static str)
    requires
        d < 10,
    ensures
        r@ == seq![digit_char(d as nat)],
{
    let r: &'static str = if d == 0 {
        "0"
    } else if d == 1 {
        "1"
    } else if d == 2 {
        "2"
    } else if d == 3 {
        "3"
    } else if d == 4 {
        "4"
    } else if d == 5 {
        "5"
    } else if d == 6 {
        "6"
    } else if d == 7 {
        "7"
    } else if d == 8 {
        "8"
    } else {
        "9"
    };
    proof {
        reveal_strlit("0");
        reveal_strlit("1");
        reveal_strlit("2");
        reveal_strlit("3");
        reveal_strlit("4");
        reveal_strlit("5");
        reveal_strlit("6");
        reveal_strlit("7");
        reveal_strlit("8");
        reveal_strlit("9");
        assert(r@ =~= seq![digit_char(d as nat)]);
    }
    r
}

/// Renders a non-negative integer in decimal.
pub fn u64_to_string(n: u64) -> (s: String)
    ensures
        s@ == spec_u64_dec(n as nat),
{
    let mut digits: Vec<u64> = Vec::new();
    let mut m: u64 = n / 10;
    digits.push(n % 10);
    proof {
        assert(rev_digit_chars(digits@) =~= seq![digit_char((n % 10) as nat)]);
        if n >= 10 {
            assert(spec_u64_dec(n as nat) =~= spec_u64_dec(m as nat) + rev_digit_chars(digits@));
        }
    }
    while m > 0
        invariant
            m > 0 ==> spec_u64_dec(n as nat) == spec_u64_dec(m as nat) + rev_digit_chars(digits@),
            m == 0 ==> spec_u64_dec(n as nat) == rev_digit_chars(digits@),
            digits@.len() >= 1,
            forall|i: int| 0 <= i < digits@.len() ==> digits@[i] < 10,
        decreases m,
    {
        let d: u64 = m % 10;
        let ghost pre = digits@;
        digits.push(d);
        let m_next: u64 = m / 10;
        proof {
            assert(rev_digit_chars(digits@) =~= seq![digit_char(d as nat)] + rev_digit_chars(pre));
            if m >= 10 {
                assert(spec_u64_dec(m as nat) == spec_u64_dec(m_next as nat).push(
                    digit_char((m % 10) as nat),
                ));
                assert(spec_u64_dec(m_next as nat) + rev_digit_chars(digits@)
                    =~= (spec_u64_dec(m_next as nat).push(digit_char(d as nat))) + rev_digit_chars(
                    pre,
                ));
            } else {
                assert(spec_u64_dec(m as nat) =~= seq![digit_char(m as nat)]);
                assert(rev_digit_chars(digits@) =~= spec_u64_dec(m as nat) + rev_digit_chars(pre));
            }
        }
        m = m_next;
    }
    let mut s = String::new();
    let mut j: usize = digits.len();
    while j > 0
        invariant
            j <= digits@.len(),
            forall|i: int| 0 <= i < digits@.len() ==> digits@[i] < 10,
            s@ == rev_digit_chars(digits@).subrange(0, digits@.len() - j),
        decreases j,
    {
        j = j - 1;
        let ghost pre = s@;
        s.append(digit_to_str(digits[j]));
        proof {
            let ghost rev = rev_digit_chars(digits@);
            let ghost k = digits@.len() - j - 1;
            assert(rev[k as int] == digit_char(digits@[j as int] as nat));
            assert(s@ =~= rev.subrange(0, k + 1));
        }
    }
    proof {
        assert(rev_digit_chars(digits@).subrange(0, digits@.len() as int) =~= rev_digit_chars(
            digits@,
        ));
        assert(s@ == spec_u64_dec(n as nat));
    }
    s
}

/// Renders an integer in decimal, with a minus sign when negative.
pub fn i64_to_string(n: i64) -> (s: String)
    ensures
        s@ == spec_i64_dec(n as int),
{
    if n >= 0 {
        u64_to_string(n as u64)
    } else {
        let mag: u64 = (-(n as i128)) as u64;
        proof {
            assert(mag as int == -(n as int));
        }
        let mut s = "-".to_owned();
        proof {
            reveal_strlit("-");
            assert(s@ =~= seq!['-']);
        }
        let rendered = u64_to_string(mag);
        s.append(rendered.as_str());
        s
    }
}

/// A message made of a fixed prefix followed by the decimal rendering
/// of an observed value.
pub fn message_with_i64(prefix: &str, value: i64) -> (s: String)
    ensures
        s@ == prefix@ + spec_i64_dec(value as int),
{
    let mut s = prefix.to_owned();
    let rendered = i64_to_string(value);
    s.append(rendered.as_str());
    s
}

/// A message made of a fixed prefix followed by the decimal rendering
/// of an observed non-negative value.
pub fn message_with_u64(prefix: &str, value: u64) -> (s: String)
    ensures
        s@ == prefix@ + spec_u64_dec(value as nat),
{
    let mut s = prefix.to_owned();
    let rendered = u64_to_string(value);
    s.append(rendered.as_str());
    s
}

} // verus!
