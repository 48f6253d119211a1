//! Decimal numerals: writing a number for a CSS selector and reading the
//! folder number given on the command line.
use vstd::prelude::*;

verus! {

/// The ASCII digit for `d` (meant for `d < 10`).
pub open spec fn digit_char(d: nat) -> char {
    (48 + d) as char
}

/// Whether `c` is one of the ASCII digits `0`..`9`.
pub open spec fn is_ascii_digit(c: char) -> bool {
    '0' <= c && c <= '9'
}

/// The shortest decimal numeral of `n`, without sign or leading zeros.
pub open spec fn decimal(n: nat) -> Seq<char>
    decreases n,
{
    if n < 10 {
        seq![digit_char(n)]
    } else {
        decimal(n / 10).push(digit_char(n % 10))
    }
}

/// The value of a string of ASCII digits read in base ten.
pub open spec fn digits_value(s: Seq<char>) -> nat
    decreases s.len(),
{
    if s.len() == 0 {
        0
    } else {
        digits_value(s.drop_last()) * 10 + ((s.last() as nat) - 48) as nat
    }
}

/// The part of an unsigned numeral after an optional leading `+`.
pub open spec fn unsigned_digits(s: Seq<char>) -> Seq<char> {
    if s.len() > 0 && s[0] == '+' {
        s.drop_first()
    } else {
        s
    }
}

/// Whether every character of `s` is an ASCII digit.
pub open spec fn all_digits(s: Seq<char>) -> bool {
    forall|i: int| 0 <= i < s.len() ==> #[trigger] is_ascii_digit(s[i])
}

/// What reading `s` as a `u8` gives: an optional `+`, then one or more ASCII
/// digits whose value is at most 255; anything else is refused.
pub open spec fn parse_u8_spec(s: Seq<char>) -> Option<u8> {
    let d = unsigned_digits(s);
    if d.len() > 0 && all_digits(d) && digits_value(d) <= 255 {
        Some(digits_value(d) as u8)
    } else {
        None
    }
}

/// The one-character string for the digit `d`.
fn digit_str(d: u64) -> (s: &'static str)
    requires
        d < 10,
    ensures
        s@ == seq![digit_char(d as nat)],
{
    proof {
        reveal_strlit("0");
        reveal_strlit("1");
        reveal_strlit("2");
        reveal_strlit("3");
        reveal_strlit("4");
        reveal_strlit("5");
        reveal_strlit("6");
        reveal_strlit("7");
        reveal_strlit("8");
        reveal_strlit("9");
    }
    if d == 0 {
        "0"
    } else if d == 1 {
        "1"
    } else if d == 2 {
        "2"
    } else if d == 3 {
        "3"
    } else if d == 4 {
        "4"
    } else if d == 5 {
        "5"
    } else if d == 6 {
        "6"
    } else if d == 7 {
        "7"
    } else if d == 8 {
        "8"
    } else {
        "9"
    }
}

/// Writes `n` in decimal.
pub fn to_decimal(n: u64) -> (s: String)
    ensures
        s@ == decimal(n as nat),
    decreases n,
{
    if n < 10 {
        String::from_str(digit_str(n))
    } else {
        let mut s = to_decimal(n / 10);
        s.append(digit_str(n % 10));
        s
    }
}

/// Reads `s` as a `u8`, as the folder number on the command line is read.
pub fn parse_u8(s: &str) -> (r: Option<u8>)
    ensures
        r == parse_u8_spec(s@),
{
    let len = s.unicode_len();
    let mut start: usize = 0;
    if len > 0 && s.get_char(0) == '+' {
        start = 1;
    }
    let ghost d = unsigned_digits(s@);
    assert(d =~= s@.subrange(start as int, len as int));
    if start == len {
        return None;
    }
    let mut value: u32 = 0;
    let mut i: usize = start;
    while i < len
        invariant
            start <= i <= len,
            len == s@.len(),
            d == s@.subrange(start as int, len as int),
            d == unsigned_digits(s@),
            all_digits(s@.subrange(start as int, i as int)),
            value as nat == if digits_value(s@.subrange(start as int, i as int)) < 256 {
                digits_value(s@.subrange(start as int, i as int))
            } else {
                256
            },
        decreases len - i,
    {
        let c = s.get_char(i);
        if !('0' <= c && c <= '9') {
            assert(d[i - start] == c);
            assert(!is_ascii_digit(d[i - start]));
            assert(!all_digits(d));
            return None;
        }
        let ghost prev = s@.subrange(start as int, i as int);
        let ghost next = s@.subrange(start as int, i + 1);
        assert(next.drop_last() =~= prev);
        assert(next.last() == c);
        let dv: u32 = (c as u32) - 48;
        if value >= 26 {
            value = 256;
        } else {
            value = value * 10 + dv;
            if value > 256 {
                value = 256;
            }
        }
        assert(all_digits(next)) by {
            assert forall|k: int| 0 <= k < next.len() implies #[trigger] is_ascii_digit(next[k]) by {
                if k < prev.len() {
                    assert(next[k] == prev[k]);
                }
            }
        }
        i = i + 1;
    }
    assert(s@.subrange(start as int, i as int) == d);
    if value <= 255 {
        Some(value as u8)
    } else {
        None
    }
}

/// The value of the numeral for `n` is `n`, and it is made of digits.
pub proof fn lemma_decimal_digits(n: nat)
    ensures
        all_digits(decimal(n)),
        decimal(n).len() > 0,
        digits_value(decimal(n)) == n,
        decimal(n)[0] != '+',
    decreases n,
{
    assert(digit_char(n % 10) as nat == 48 + n % 10);
    if n < 10 {
        assert(decimal(n).drop_last() =~= Seq::<char>::empty());
        assert(digit_char(n) as nat == 48 + n);
        assert(digits_value(Seq::<char>::empty()) == 0);
        assert(digits_value(decimal(n)) == digits_value(decimal(n).drop_last()) * 10 + n);
    } else {
        lemma_decimal_digits(n / 10);
        let s = decimal(n / 10);
        let t = decimal(n);
        assert(t == s.push(digit_char(n % 10)));
        assert(t.drop_last() =~= s);
        assert(t[0] == s[0]);
        assert forall|k: int| 0 <= k < t.len() implies #[trigger] is_ascii_digit(t[k]) by {
            if k < s.len() {
                assert(t[k] == s[k]);
            }
        }
        assert(n == (n / 10) * 10 + n % 10);
        assert(digits_value(t) == digits_value(s) * 10 + n % 10);
    }
}

/// Reading back the numeral written for a `u8` gives the same `u8`.
pub proof fn lemma_parse_decimal_roundtrip(n: u8)
    ensures
        parse_u8_spec(decimal(n as nat)) == Some(n),
{
    lemma_decimal_digits(n as nat);
    assert(unsigned_digits(decimal(n as nat)) == decimal(n as nat));
}

} // verus!
