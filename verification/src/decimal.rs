//! Decimal text of integers: how an integer is written out, how it is read
//! back, and the proof that reading undoes writing.

use vstd::prelude::*;
use vstd::string::*;

verus! {

/// The character that writes the digit `d`.
pub open spec fn digit_char(d: int) -> char {
    if d == 0 {
        '0'
    } else if d == 1 {
        '1'
    } else if d == 2 {
        '2'
    } else if d == 3 {
        '3'
    } else if d == 4 {
        '4'
    } else if d == 5 {
        '5'
    } else if d == 6 {
        '6'
    } else if d == 7 {
        '7'
    } else if d == 8 {
        '8'
    } else {
        '9'
    }
}

/// Whether `c` is one of the ten ASCII digits.
pub open spec fn is_digit(c: char) -> bool {
    c == '0' || c == '1' || c == '2' || c == '3' || c == '4' || c == '5' || c == '6' || c == '7'
        || c == '8' || c == '9'
}

/// The number that the digit `c` stands for (0 for any other character).
pub open spec fn digit_value(c: char) -> nat {
    if c == '1' {
        1
    } else if c == '2' {
        2
    } else if c == '3' {
        3
    } else if c == '4' {
        4
    } else if c == '5' {
        5
    } else if c == '6' {
        6
    } else if c == '7' {
        7
    } else if c == '8' {
        8
    } else if c == '9' {
        9
    } else {
        0
    }
}

/// The digits of `n` in base ten, most significant first, without leading
/// zeros (`0` is written as one digit).
pub open spec fn decimal_digits(n: nat) -> Seq<char>
    decreases n,
{
    if n < 10 {
        seq![digit_char(n as int)]
    } else {
        decimal_digits(n / 10).push(digit_char((n % 10) as int))
    }
}

/// The text of a signed integer: a minus sign for a negative number, then
/// the digits of its magnitude.
pub open spec fn decimal_text(i: int) -> Seq<char> {
    if i < 0 {
        seq!['-'] + decimal_digits((-i) as nat)
    } else {
        decimal_digits(i as nat)
    }
}

/// Every character of `s` is a digit.
pub open spec fn all_digits(s: Seq<char>) -> bool {
    forall|i: int| 0 <= i < s.len() ==> is_digit(#[trigger] s[i])
}

/// The number that a run of digits denotes in base ten.
pub open spec fn digits_value(s: Seq<char>) -> nat
    decreases s.len(),
{
    if s.len() == 0 {
        0
    } else {
        digits_value(s.drop_last()) * 10 + digit_value(s.last())
    }
}

/// What a run of digits denotes, where it is not empty and fits in 64 bits.
pub open spec fn parse_digits_spec(s: Seq<char>) -> Option<u64> {
    if s.len() > 0 && all_digits(s) && digits_value(s) <= u64::MAX {
        Some(digits_value(s) as u64)
    } else {
        None
    }
}

/// What a text denotes as a signed 64-bit integer: an optional minus sign,
/// then at least one digit, the whole within the range of `i64`.
pub open spec fn parse_decimal_spec(s: Seq<char>) -> Option<i64> {
    if s.len() > 0 && s[0] == '-' {
        let d = s.drop_first();
        if d.len() > 0 && all_digits(d) && digits_value(d) <= 0x8000_0000_0000_0000 {
            Some((-(digits_value(d) as int)) as i64)
        } else {
            None
        }
    } else if s.len() > 0 && all_digits(s) && digits_value(s) <= i64::MAX {
        Some(digits_value(s) as i64)
    } else {
        None
    }
}

/// The digits of a number are digits, at least one of them, and denote it.
pub proof fn lemma_decimal_digits_value(n: nat)
    ensures
        decimal_digits(n).len() > 0,
        all_digits(decimal_digits(n)),
        digits_value(decimal_digits(n)) == n,
    decreases n,
{
    let s = decimal_digits(n);
    if n < 10 {
        assert(s.drop_last() =~= Seq::<char>::empty());
        assert(digits_value(s.drop_last()) == 0);
        assert(s.last() == digit_char(n as int));
    } else {
        lemma_decimal_digits_value(n / 10);
        let p = decimal_digits(n / 10);
        assert(s.drop_last() =~= p);
        assert(s.last() == digit_char((n % 10) as int));
        assert forall|i: int| 0 <= i < s.len() implies is_digit(#[trigger] s[i]) by {
            if i < p.len() {
                assert(s[i] == p[i]);
            }
        }
    }
}

/// Reading the text of a 64-bit integer gives the integer back.
pub proof fn lemma_parse_decimal_text(x: i64)
    ensures
        parse_decimal_spec(decimal_text(x as int)) == Some(x),
{
    let t = decimal_text(x as int);
    if x < 0 {
        let m = (-(x as int)) as nat;
        lemma_decimal_digits_value(m);
        assert(t.drop_first() =~= decimal_digits(m));
        assert(t[0] == '-');
    } else {
        lemma_decimal_digits_value(x as nat);
        assert(is_digit(t[0]));
    }
}

/// The text of an integer holds no character but digits and the minus sign.
pub proof fn lemma_decimal_text_chars(i: int, c: char)
    requires
        !is_digit(c),
        c != '-',
    ensures
        !decimal_text(i).contains(c),
{
    let t = decimal_text(i);
    if t.contains(c) {
        let j = choose|j: int| 0 <= j < t.len() && t[j] == c;
        if i < 0 {
            lemma_decimal_digits_value((-i) as nat);
            let d = decimal_digits((-i) as nat);
            if j > 0 {
                assert(t[j] == d[j - 1]);
                assert(is_digit(d[j - 1]));
            }
        } else {
            lemma_decimal_digits_value(i as nat);
            assert(is_digit(t[j]));
        }
    }
}

/// The one-character text of a single digit.
fn digit_str(d: u64) -> (s: &'static str)
    requires
        d < 10,
    ensures
        s@ == seq![digit_char(d as int)],
{
    proof {
        reveal_strlit("0");
        reveal_strlit("1");
        reveal_strlit("2");
        reveal_strlit("3");
        reveal_strlit("4");
        reveal_strlit("5");
        reveal_strlit("6");
        reveal_strlit("7");
        reveal_strlit("8");
        reveal_strlit("9");
    }
    let s = if d == 0 {
        "0"
    } else if d == 1 {
        "1"
    } else if d == 2 {
        "2"
    } else if d == 3 {
        "3"
    } else if d == 4 {
        "4"
    } else if d == 5 {
        "5"
    } else if d == 6 {
        "6"
    } else if d == 7 {
        "7"
    } else if d == 8 {
        "8"
    } else {
        "9"
    };
    assert(s@ =~= seq![digit_char(d as int)]);
    s
}

/// Writes an unsigned number in base ten.
pub fn render_u64(n: u64) -> (r: String)
    ensures
        r@ == decimal_digits(n as nat),
    decreases n,
{
    if n < 10 {
        String::from_str(digit_str(n))
    } else {
        let mut r = render_u64(n / 10);
        r.append(digit_str(n % 10));
        assert(r@ =~= decimal_digits(n as nat));
        r
    }
}

/// Writes a signed number in base ten.
pub fn render_i64(x: i64) -> (r: String)
    ensures
        r@ == decimal_text(x as int),
{
    if x < 0 {
        let m: u64 = if x == i64::MIN {
            0x8000_0000_0000_0000u64
        } else {
            (-x) as u64
        };
        proof {
            reveal_strlit("-");
        }
        let mut r = String::from_str("-");
        let digits = render_u64(m);
        r.append(digits.as_str());
        assert(r@ =~= decimal_text(x as int));
        r
    } else {
        render_u64(x as u64)
    }
}

/// The number a digit character stands for, or `None` for any other
/// character.
fn digit_of(c: char) -> (r: Option<u64>)
    ensures
        r.is_some() == is_digit(c),
        r matches Some(d) ==> d == digit_value(c) && d < 10,
{
    if c == '0' {
        Some(0)
    } else if c == '1' {
        Some(1)
    } else if c == '2' {
        Some(2)
    } else if c == '3' {
        Some(3)
    } else if c == '4' {
        Some(4)
    } else if c == '5' {
        Some(5)
    } else if c == '6' {
        Some(6)
    } else if c == '7' {
        Some(7)
    } else if c == '8' {
        Some(8)
    } else if c == '9' {
        Some(9)
    } else {
        None
    }
}

/// Reads a run of digits as an unsigned 64-bit number. `None` where the
/// text is empty, holds another character, or denotes too large a number.
pub fn parse_digits(s: &str) -> (r: Option<u64>)
    ensures
        r == parse_digits_spec(s@),
{
    let n: usize = s.unicode_len();
    if n == 0 {
        return None;
    }
    let mut acc: u64 = 0;
    let mut over: bool = false;
    let mut i: usize = 0;
    while i < n
        invariant
            i <= n,
            n == s@.len(),
            all_digits(s@.subrange(0, i as int)),
            !over ==> acc == digits_value(s@.subrange(0, i as int)),
            over ==> digits_value(s@.subrange(0, i as int)) > u64::MAX,
        decreases n - i,
    {
        let c = s.get_char(i);
        proof {
            let p = s@.subrange(0, i as int);
            let q = s@.subrange(0, i as int + 1);
            assert(q.drop_last() =~= p);
            assert(q.last() == c);
        }
        match digit_of(c) {
            None => {
                proof {
                    assert(!is_digit(s@[i as int]));
                }
                return None;
            },
            Some(d) => {
                proof {
                    let p = s@.subrange(0, i as int);
                    let q = s@.subrange(0, i as int + 1);
                    assert forall|j: int| 0 <= j < q.len() implies is_digit(#[trigger] q[j]) by {
                        if j < i {
                            assert(q[j] == p[j]);
                        }
                    }
                }
                if !over {
                    if acc > (u64::MAX - d) / 10 {
                        over = true;
                    } else {
                        acc = acc * 10 + d;
                    }
                }
            },
        }
        i = i + 1;
    }
    assert(s@.subrange(0, n as int) =~= s@);
    if over {
        None
    } else {
        Some(acc)
    }
}

/// Reads a signed decimal number: an optional minus sign and digits.
/// `None` where the text is not of that form or is out of range.
pub fn parse_decimal(s: &str) -> (r: Option<i64>)
    ensures
        r == parse_decimal_spec(s@),
{
    let n: usize = s.unicode_len();
    if n == 0 {
        return None;
    }
    if s.get_char(0) == '-' {
        let rest = s.substring_char(1, n);
        assert(rest@ =~= s@.drop_first());
        match parse_digits(rest) {
            None => None,
            Some(m) => {
                if m > 0x8000_0000_0000_0000u64 {
                    None
                } else if m == 0x8000_0000_0000_0000u64 {
                    Some(i64::MIN)
                } else {
                    Some(-(m as i64))
                }
            },
        }
    } else {
        match parse_digits(s) {
            None => None,
            Some(m) => {
                if m > 0x7fff_ffff_ffff_ffffu64 {
                    None
                } else {
                    Some(m as i64)
                }
            },
        }
    }
}

} // verus!
