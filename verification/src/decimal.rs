//! Decimal text: reading an unsigned integer out of a header value and
//! printing one into a header-shaped string.

use vstd::prelude::*;

verus! {

/// Whether `c` is a decimal digit.
pub open spec fn is_dec_digit(c: char) -> bool {
    '0' <= c && c <= '9'
}

/// The numeric value of a decimal digit (unconstrained elsewhere).
pub open spec fn digit_val(c: char) -> int {
    match c {
        '0' => 0,
        '1' => 1,
        '2' => 2,
        '3' => 3,
        '4' => 4,
        '5' => 5,
        '6' => 6,
        '7' => 7,
        '8' => 8,
        '9' => 9,
        _ => 10,
    }
}

/// The digit character for a value below ten (unconstrained elsewhere).
pub open spec fn digit_char(d: int) -> char {
    if d == 0 {
        '0'
    } else if d == 1 {
        '1'
    } else if d == 2 {
        '2'
    } else if d == 3 {
        '3'
    } else if d == 4 {
        '4'
    } else if d == 5 {
        '5'
    } else if d == 6 {
        '6'
    } else if d == 7 {
        '7'
    } else if d == 8 {
        '8'
    } else if d == 9 {
        '9'
    } else {
        ' '
    }
}

/// Whether every character of `s` is a decimal digit.
pub open spec fn all_dec_digits(s: Seq<char>) -> bool {
    forall|i: int| 0 <= i < s.len() ==> is_dec_digit(#[trigger] s[i])
}

/// The number a digit string denotes, most significant digit first.
pub open spec fn dec_value(s: Seq<char>) -> int
    decreases s.len(),
{
    if s.len() == 0 {
        0
    } else {
        dec_value(s.drop_last()) * 10 + digit_val(s.last())
    }
}

/// The inputs `parse_u64` accepts: a non-empty all-digit string whose value
/// fits in a `u64`.
pub open spec fn parses_as_u64(s: Seq<char>) -> bool {
    s.len() > 0 && all_dec_digits(s) && dec_value(s) <= u64::MAX
}

/// The canonical decimal spelling of a non-negative number: no sign, no
/// leading zero except for zero itself.
pub open spec fn dec_seq(n: int) -> Seq<char>
    decreases n,
{
    if n < 10 {
        seq![digit_char(n)]
    } else {
        dec_seq(n / 10).push(digit_char(n % 10))
    }
}

/// A digit string denotes a non-negative number.
pub proof fn lemma_dec_value_nonneg(s: Seq<char>)
    ensures
        dec_value(s) >= 0,
    decreases s.len(),
{
    if s.len() > 0 {
        lemma_dec_value_nonneg(s.drop_last());
    }
}

/// Appending one digit multiplies the value by ten and adds the digit.
proof fn lemma_dec_value_step(s: Seq<char>, i: int)
    requires
        0 <= i < s.len(),
    ensures
        dec_value(s.take(i + 1)) == dec_value(s.take(i)) * 10 + digit_val(s[i]),
{
    assert(s.take(i + 1).drop_last() =~= s.take(i));
    assert(s.take(i + 1).last() == s[i]);
}

/// The value of a digit string is at least the value of any of its prefixes.
proof fn lemma_dec_value_prefix_le(s: Seq<char>, i: int)
    requires
        0 <= i <= s.len(),
    ensures
        dec_value(s.take(i)) <= dec_value(s),
    decreases s.len() - i,
{
    if i == s.len() {
        assert(s.take(i) =~= s);
    } else {
        lemma_dec_value_step(s, i);
        lemma_dec_value_nonneg(s.take(i));
        lemma_dec_value_prefix_le(s, i + 1);
        assert(dec_value(s.take(i)) <= dec_value(s.take(i)) * 10 + digit_val(s[i]))
            by (nonlinear_arith)
            requires
                dec_value(s.take(i)) >= 0,
                digit_val(s[i]) >= 0,
        ;
    }
}

/// Reads a base-ten unsigned integer from `s`: the whole string must be
/// decimal digits and the value must fit in a `u64`, else `None`.
pub fn parse_u64(s: &str) -> (r: Option<u64>)
    ensures
        parses_as_u64(s@) ==> r == Some((dec_value(s@) as u64)),
        !parses_as_u64(s@) ==> r is None,
{
    let n = s.unicode_len();
    if n == 0 {
        return None;
    }
    let mut val: u64 = 0;
    let mut i: usize = 0;
    while i < n
        invariant
            0 <= i <= n,
            n == s@.len(),
            forall|j: int| 0 <= j < i ==> is_dec_digit(#[trigger] s@[j]),
            val == dec_value(s@.take(i as int)),
        decreases n - i,
    {
        let c = s.get_char(i);
        let d: u64 = match c {
            '0' => 0,
            '1' => 1,
            '2' => 2,
            '3' => 3,
            '4' => 4,
            '5' => 5,
            '6' => 6,
            '7' => 7,
            '8' => 8,
            '9' => 9,
            _ => {
                return None;
            },
        };
        assert(is_dec_digit(s@[i as int]) && d == digit_val(s@[i as int]));
        proof {
            lemma_dec_value_step(s@, i as int);
        }
        let next = match val.checked_mul(10) {
            Some(m) => m.checked_add(d),
            None => None,
        };
        match next {
            Some(v) => {
                val = v;
            },
            None => {
                proof {
                    lemma_dec_value_prefix_le(s@, i as int + 1);
                }
                return None;
            },
        }
        i = i + 1;
    }
    proof {
        assert(s@.take(i as int) =~= s@);
        assert(all_dec_digits(s@));
    }
    Some(val)
}

/// Writes `n` in base ten, most significant digit first, with no sign and
/// no leading zeros.
pub fn u64_to_string(n: u64) -> (r: String)
    ensures
        r@ == dec_seq(n as int),
    decreases n,
{
    let d = n % 10;
    let digit = digit_str(d);
    if n < 10 {
        String::from_str(digit)
    } else {
        let mut prefix = u64_to_string(n / 10);
        prefix.append(digit);
        assert(prefix@ =~= dec_seq(n as int));
        prefix
    }
}

/// The one-character string for a digit value.
fn digit_str(d: u64) -> (r: &'static str)
    requires
        d < 10,
    ensures
        r@ =~= seq![digit_char(d as int)],
{
    proof {
        reveal_strlit("0");
        reveal_strlit("1");
        reveal_strlit("2");
        reveal_strlit("3");
        reveal_strlit("4");
        reveal_strlit("5");
        reveal_strlit("6");
        reveal_strlit("7");
        reveal_strlit("8");
        reveal_strlit("9");
    }
    match d {
        0 => "0",
        1 => "1",
        2 => "2",
        3 => "3",
        4 => "4",
        5 => "5",
        6 => "6",
        7 => "7",
        8 => "8",
        _ => "9",
    }
}

} // verus!
