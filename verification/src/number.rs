//! Decimal integers in text.

use vstd::prelude::*;

verus! {

/// Whether `c` is one of the ten ASCII digits.
pub open spec fn is_digit(c: char) -> bool {
    '0' <= c <= '9'
}

/// The value of the digit `c`.
pub open spec fn digit_value(c: char) -> int {
    c as u32 as int - 48
}

/// Whether every character of `s` is a digit.
pub open spec fn all_digits(s: Seq<char>) -> bool {
    forall|i: int| 0 <= i < s.len() ==> is_digit(#[trigger] s[i])
}

/// The number that the digits of `s` write in base ten; 0 for no digits.
pub open spec fn digits_value(s: Seq<char>) -> int
    decreases s.len(),
{
    if s.len() == 0 {
        0
    } else {
        digits_value(s.drop_last()) * 10 + digit_value(s.last())
    }
}

/// Whether `s` opens with a sign.
pub open spec fn has_sign(s: Seq<char>) -> bool {
    s.len() > 0 && (s[0] == '-' || s[0] == '+')
}

/// The digits of `s`: all of it but a leading sign.
pub open spec fn digit_part(s: Seq<char>) -> Seq<char> {
    if has_sign(s) {
        s.subrange(1, s.len() as int)
    } else {
        s
    }
}

/// The signed value that `s` writes, whatever its size.
pub open spec fn signed_value(s: Seq<char>) -> int {
    if s.len() > 0 && s[0] == '-' {
        -digits_value(digit_part(s))
    } else {
        digits_value(digit_part(s))
    }
}

/// The 32-bit integer that `s` writes: an optional sign, then one or more
/// digits and nothing else, the value within range. `None` for all other
/// text.
pub open spec fn decimal_i32(s: Seq<char>) -> Option<int> {
    let d = digit_part(s);
    if d.len() > 0 && all_digits(d) && -0x8000_0000 <= signed_value(s) <= 0x7fff_ffff {
        Some(signed_value(s))
    } else {
        None
    }
}

/// Reads `s` as a decimal 32-bit integer.
pub fn parse_i32(s: &str) -> (r: Option<i32>)
    ensures
        match r {
            Some(n) => decimal_i32(s@) == Some(n as int),
            None => decimal_i32(s@).is_none(),
        },
{
    let len: usize = s.unicode_len();
    if len == 0 {
        return None;
    }
    let first = s.get_char(0);
    let negative = first == '-';
    let start: usize = if first == '-' || first == '+' {
        1
    } else {
        0
    };
    if start == len {
        return None;
    }
    let ghost d = digit_part(s@);
    let mut acc: i64 = 0;
    let mut over = false;
    let mut i: usize = start;
    assert(d.subrange(0, 0) =~= Seq::<char>::empty());
    while i < len
        invariant
            start <= i <= len,
            len == s@.len(),
            d == digit_part(s@),
            d == s@.subrange(start as int, len as int),
            all_digits(d.subrange(0, i - start)),
            0 <= digits_value(d.subrange(0, i - start)),
            !over ==> acc as int == digits_value(d.subrange(0, i - start)) && acc <= 0x8000_0000,
            over ==> digits_value(d.subrange(0, i - start)) > 0x8000_0000,
        decreases len - i,
    {
        let c = s.get_char(i);
        let ghost before = d.subrange(0, i - start);
        let ghost after = d.subrange(0, i - start + 1);
        assert(after.drop_last() =~= before);
        assert(after.last() == c);
        if !(c >= '0' && c <= '9') {
            assert(!is_digit(d[i - start]));
            return None;
        }
        let v: i64 = (c as u32 - 48) as i64;
        assert(v as int == digit_value(c));
        if !over {
            acc = acc * 10 + v;
            if acc > 0x8000_0000 {
                over = true;
            }
        }
        i = i + 1;
    }
    assert(d.subrange(0, len - start) =~= d);
    if over {
        return None;
    }
    if negative {
        Some((0 - acc) as i32)
    } else if acc > 0x7fff_ffff {
        None
    } else {
        Some(acc as i32)
    }
}

/// The character that writes the digit `d`.
pub open spec fn digit_char(d: int) -> char {
    if d == 0 {
        '0'
    } else if d == 1 {
        '1'
    } else if d == 2 {
        '2'
    } else if d == 3 {
        '3'
    } else if d == 4 {
        '4'
    } else if d == 5 {
        '5'
    } else if d == 6 {
        '6'
    } else if d == 7 {
        '7'
    } else if d == 8 {
        '8'
    } else {
        '9'
    }
}

/// The digits of `n` in base ten, most significant first, without leading
/// zeros; `0` for zero.
pub open spec fn digits_text(n: nat) -> Seq<char>
    decreases n,
{
    if n < 10 {
        seq![digit_char(n as int)]
    } else {
        digits_text(n / 10).push(digit_char((n % 10) as int))
    }
}

/// The decimal text of `n`: a minus sign where it is negative, then the
/// digits of its magnitude.
pub open spec fn decimal_text(n: int) -> Seq<char> {
    if n < 0 {
        seq!['-'] + digits_text((-n) as nat)
    } else {
        digits_text(n as nat)
    }
}

/// The digits of a number are digits, at least one, and write that
/// number.
pub proof fn lemma_digits_text(n: nat)
    ensures
        digits_text(n).len() > 0,
        all_digits(digits_text(n)),
        digits_value(digits_text(n)) == n,
    decreases n,
{
    let t = digits_text(n);
    if n < 10 {
        assert(t.drop_last() =~= Seq::<char>::empty());
        assert(digits_value(t.drop_last()) == 0);
        assert(digit_value(digit_char(n as int)) == n);
    } else {
        lemma_digits_text(n / 10);
        let d = (n % 10) as int;
        assert(t.drop_last() =~= digits_text(n / 10));
        assert(t.last() == digit_char(d));
        assert(digit_value(digit_char(d)) == d);
        assert(is_digit(digit_char(d)));
        assert forall|i: int| 0 <= i < t.len() implies is_digit(#[trigger] t[i]) by {
            if i < t.len() - 1 {
                assert(t[i] == digits_text(n / 10)[i]);
            }
        }
    }
}

/// Reading gives back what writing wrote: the decimal text of a 32-bit
/// integer reads as that integer.
pub proof fn lemma_decimal_round_trip(n: int)
    requires
        -0x8000_0000 <= n <= 0x7fff_ffff,
    ensures
        decimal_i32(decimal_text(n)) == Some(n),
{
    let s = decimal_text(n);
    if n < 0 {
        let m = (-n) as nat;
        lemma_digits_text(m);
        assert(s[0] == '-');
        assert(digit_part(s) =~= digits_text(m));
    } else {
        lemma_digits_text(n as nat);
        assert(is_digit(s[0]));
        assert(!has_sign(s));
    }
}

/// The one-character text of the digit `d`.
fn digit_str(d: u64) -> (t: &'static str)
    requires
        d < 10,
    ensures
        t@ == seq![digit_char(d as int)],
{
    proof {
        reveal_strlit("0");
        reveal_strlit("1");
        reveal_strlit("2");
        reveal_strlit("3");
        reveal_strlit("4");
        reveal_strlit("5");
        reveal_strlit("6");
        reveal_strlit("7");
        reveal_strlit("8");
        reveal_strlit("9");
    }
    let t = if d == 0 {
        "0"
    } else if d == 1 {
        "1"
    } else if d == 2 {
        "2"
    } else if d == 3 {
        "3"
    } else if d == 4 {
        "4"
    } else if d == 5 {
        "5"
    } else if d == 6 {
        "6"
    } else if d == 7 {
        "7"
    } else if d == 8 {
        "8"
    } else {
        "9"
    };
    assert(t@ =~= seq![digit_char(d as int)]);
    t
}

/// Appends the digits of `n` to `out`.
pub fn push_digits(out: &mut String, n: u64)
    ensures
        final(out)@ == old(out)@ + digits_text(n as nat),
    decreases n,
{
    if n >= 10 {
        push_digits(out, n / 10);
    }
    out.append(digit_str(n % 10));
    assert(final(out)@ =~= old(out)@ + digits_text(n as nat));
}

/// Writes `n` in decimal.
pub fn format_i32(n: i32) -> (t: String)
    ensures
        t@ == decimal_text(n as int),
{
    if n < 0 {
        let mut out = String::from_str("-");
        proof {
            reveal_strlit("-");
        }
        let m: u64 = (0 - (n as i64)) as u64;
        push_digits(&mut out, m);
        assert(out@ =~= decimal_text(n as int));
        out
    } else {
        let mut out = String::new();
        push_digits(&mut out, n as u64);
        assert(out@ =~= decimal_text(n as int));
        out
    }
}

} // verus!
