//! Decimal encoding and parsing of 64-bit cache keys, with the round-trip
//! law that makes the marker protocol sound.

use vstd::prelude::*;
use vstd::string::*;

verus! {

/// The digit character for a value below ten.
pub open spec fn digit_char(d: int) -> char {
    if d == 0 {
        '0'
    } else if d == 1 {
        '1'
    } else if d == 2 {
        '2'
    } else if d == 3 {
        '3'
    } else if d == 4 {
        '4'
    } else if d == 5 {
        '5'
    } else if d == 6 {
        '6'
    } else if d == 7 {
        '7'
    } else if d == 8 {
        '8'
    } else {
        '9'
    }
}

/// The value of a digit character, or a value below zero for a non-digit.
pub open spec fn digit_val(c: char) -> int {
    if c == '0' {
        0
    } else if c == '1' {
        1
    } else if c == '2' {
        2
    } else if c == '3' {
        3
    } else if c == '4' {
        4
    } else if c == '5' {
        5
    } else if c == '6' {
        6
    } else if c == '7' {
        7
    } else if c == '8' {
        8
    } else if c == '9' {
        9
    } else {
        -1
    }
}

pub open spec fn is_digit(c: char) -> bool {
    digit_val(c) >= 0
}

pub open spec fn all_digits(s: Seq<char>) -> bool {
    forall|i: int| 0 <= i < s.len() ==> is_digit(#[trigger] s[i])
}

/// The decimal rendering of `n`, most significant digit first, no sign and
/// no leading zero except for zero itself.
pub open spec fn spec_encode_u64(n: nat) -> Seq<char>
    decreases n,
{
    if n < 10 {
        seq![digit_char(n as int)]
    } else {
        spec_encode_u64(n / 10).push(digit_char((n % 10) as int))
    }
}

/// The numeric value of a digit string, read most significant digit first.
pub open spec fn digits_val(s: Seq<char>) -> nat
    decreases s.len(),
{
    if s.len() == 0 {
        0
    } else {
        digits_val(s.drop_last()) * 10 + (if digit_val(s.last()) >= 0 {
            digit_val(s.last()) as nat
        } else {
            0
        })
    }
}

/// What parsing a marker text yields: the value of a nonempty all-digit
/// string that fits in 64 bits, and nothing otherwise.
pub open spec fn spec_parse_u64(s: Seq<char>) -> Option<u64> {
    if s.len() > 0 && all_digits(s) && digits_val(s) <= u64::MAX {
        Some(digits_val(s) as u64)
    } else {
        None
    }
}

fn digit_str(d: u64) -> (r: &'static str)
    requires
        d < 10,
    ensures
        r@ =~= seq![digit_char(d as int)],
{
    if d == 0 {
        let r = "0";
        proof {
            reveal_strlit("0");
        }
        r
    } else if d == 1 {
        let r = "1";
        proof {
            reveal_strlit("1");
        }
        r
    } else if d == 2 {
        let r = "2";
        proof {
            reveal_strlit("2");
        }
        r
    } else if d == 3 {
        let r = "3";
        proof {
            reveal_strlit("3");
        }
        r
    } else if d == 4 {
        let r = "4";
        proof {
            reveal_strlit("4");
        }
        r
    } else if d == 5 {
        let r = "5";
        proof {
            reveal_strlit("5");
        }
        r
    } else if d == 6 {
        let r = "6";
        proof {
            reveal_strlit("6");
        }
        r
    } else if d == 7 {
        let r = "7";
        proof {
            reveal_strlit("7");
        }
        r
    } else if d == 8 {
        let r = "8";
        proof {
            reveal_strlit("8");
        }
        r
    } else {
        let r = "9";
        proof {
            reveal_strlit("9");
        }
        r
    }
}

/// The decimal text of `n`, as the marker file stores it.
pub fn encode_u64(n: u64) -> (r: String)
    ensures
        r@ == spec_encode_u64(n as nat),
    decreases n,
{
    if n < 10 {
        digit_str(n).to_owned()
    } else {
        let mut r = encode_u64(n / 10);
        r.append(digit_str(n % 10));
        proof {
            assert(r@ =~= spec_encode_u64((n / 10) as nat).push(digit_char((n % 10) as int)));
        }
        r
    }
}

fn digit_of(c: char) -> (r: Option<u64>)
    ensures
        r matches Some(d) ==> digit_val(c) == d as int && d < 10,
        r is None ==> !is_digit(c),
{
    if c == '0' {
        Some(0)
    } else if c == '1' {
        Some(1)
    } else if c == '2' {
        Some(2)
    } else if c == '3' {
        Some(3)
    } else if c == '4' {
        Some(4)
    } else if c == '5' {
        Some(5)
    } else if c == '6' {
        Some(6)
    } else if c == '7' {
        Some(7)
    } else if c == '8' {
        Some(8)
    } else if c == '9' {
        Some(9)
    } else {
        None
    }
}

/// A longer digit prefix never has a smaller value.
proof fn lemma_digits_val_prefix_le(s: Seq<char>, i: int)
    requires
        0 <= i <= s.len(),
    ensures
        digits_val(s.subrange(0, i)) <= digits_val(s),
    decreases s.len() - i,
{
    if i < s.len() {
        lemma_digits_val_prefix_le(s, i + 1);
        let a = s.subrange(0, i);
        let b = s.subrange(0, i + 1);
        assert(b.drop_last() =~= a);
        assert(digits_val(a) <= digits_val(b));
    } else {
        assert(s.subrange(0, i) =~= s);
    }
}

/// Parses a decimal marker text; exactly the nonempty all-digit strings whose
/// value fits in 64 bits are accepted.
pub fn parse_u64(s: &str) -> (r: Option<u64>)
    ensures
        r == spec_parse_u64(s@),
{
    let len = s.unicode_len();
    if len == 0 {
        return None;
    }
    let mut acc: u64 = 0;
    let mut i: usize = 0;
    while i < len
        invariant
            len == s@.len(),
            0 < len,
            i <= len,
            all_digits(s@.subrange(0, i as int)),
            acc == digits_val(s@.subrange(0, i as int)),
        decreases len - i,
    {
        let c = s.get_char(i);
        let ghost pre = s@.subrange(0, i as int);
        let ghost cur = s@.subrange(0, i as int + 1);
        assert(cur.drop_last() =~= pre);
        match digit_of(c) {
            None => {
                assert(!is_digit(s@[i as int]));
                return None;
            },
            Some(d) => {
                if acc > (u64::MAX - d) / 10 {
                    proof {
                        assert(digits_val(cur) == acc * 10 + d);
                        assert(acc * 10 + d > u64::MAX) by (nonlinear_arith)
                            requires
                                acc > (u64::MAX - d) / 10,
                                d < 10,
                        {
                            assert(acc >= (u64::MAX - d) / 10 + 1);
                            assert(acc * 10 >= ((u64::MAX - d) / 10 + 1) * 10);
                            assert(((u64::MAX - d) / 10) * 10 + (u64::MAX - d) % 10 == u64::MAX
                                - d);
                        }
                        lemma_digits_val_prefix_le(s@, i as int + 1);
                        assert(digits_val(s@) >= digits_val(cur));
                    }
                    return None;
                }
                proof {
                    assert(acc * 10 + d <= u64::MAX) by (nonlinear_arith)
                        requires
                            acc <= (u64::MAX - d) / 10,
                            d < 10,
                    {
                        assert(acc * 10 <= ((u64::MAX - d) / 10) * 10);
                        assert(((u64::MAX - d) / 10) * 10 <= u64::MAX - d);
                    }
                    assert(digits_val(cur) == acc * 10 + d);
                }
                acc = acc * 10 + d;
            },
        }
        i += 1;
    }
    proof {
        assert(s@.subrange(0, len as int) =~= s@);
    }
    Some(acc)
}

/// The digits of an encoded value are digits.
proof fn lemma_encode_all_digits(n: nat)
    ensures
        all_digits(spec_encode_u64(n)),
        spec_encode_u64(n).len() > 0,
    decreases n,
{
    if n >= 10 {
        lemma_encode_all_digits(n / 10);
        let pre = spec_encode_u64(n / 10);
        let whole = spec_encode_u64(n);
        assert forall|i: int| 0 <= i < whole.len() implies is_digit(#[trigger] whole[i]) by {
            if i < pre.len() {
                assert(whole[i] == pre[i]);
            }
        }
    }
}

/// Reading back the digits of an encoded value yields the value.
proof fn lemma_encode_val(n: nat)
    ensures
        digits_val(spec_encode_u64(n)) == n,
    decreases n,
{
    if n < 10 {
        let s = spec_encode_u64(n);
        assert(s.drop_last() =~= Seq::<char>::empty());
        assert(digits_val(Seq::<char>::empty()) == 0);
        assert(s.last() == digit_char(n as int));
        assert(digit_val(digit_char(n as int)) == n);
        assert(digits_val(s) == digits_val(s.drop_last()) * 10 + digit_val(s.last()));
    } else {
        lemma_encode_val(n / 10);
        let s = spec_encode_u64(n);
        let pre = spec_encode_u64(n / 10);
        assert(s.drop_last() =~= pre);
        assert(s.last() == digit_char((n % 10) as int));
        assert(digit_val(digit_char((n % 10) as int)) == n % 10);
        assert(digits_val(s) == digits_val(pre) * 10 + n % 10);
        assert((n / 10) * 10 + n % 10 == n) by (nonlinear_arith);
    }
}

/// The round trip of the marker protocol: a recorded key is read back
/// exactly.
pub proof fn lemma_parse_encode_round_trip(n: u64)
    ensures
        spec_parse_u64(spec_encode_u64(n as nat)) == Some(n),
{
    lemma_encode_all_digits(n as nat);
    lemma_encode_val(n as nat);
}

} // verus!
