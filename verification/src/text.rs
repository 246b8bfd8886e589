//! Decimal numerals: reading and writing integers as text.

use vstd::prelude::*;
use vstd::string::*;

verus! {

pub open spec fn is_digit(c: char) -> bool {
    '0' <= c <= '9'
}

pub open spec fn digit_value(c: char) -> int {
    c as int - '0' as int
}

pub open spec fn all_digits(s: Seq<char>) -> bool {
    forall|i: int| 0 <= i < s.len() ==> is_digit(#[trigger] s[i])
}

/// The number that a run of digits stands for, the empty run for zero.
pub open spec fn digits_value(s: Seq<char>) -> int
    decreases s.len(),
{
    if s.len() == 0 {
        0
    } else {
        digits_value(s.drop_last()) * 10 + digit_value(s.last())
    }
}

/// The `i32` that a text stands for: an optional sign, then one digit or
/// more, the value within the range of the type. No blanks, nothing else.
pub open spec fn decimal_i32(s: Seq<char>) -> Option<i32> {
    let signed = s.len() > 0 && (s[0] == '-' || s[0] == '+');
    let digits = if signed {
        s.drop_first()
    } else {
        s
    };
    let value = if s.len() > 0 && s[0] == '-' {
        -digits_value(digits)
    } else {
        digits_value(digits)
    };
    if digits.len() > 0 && all_digits(digits) && i32::MIN <= value <= i32::MAX {
        Some(value as i32)
    } else {
        None
    }
}

/// The digit for a number below ten.
pub open spec fn digit_char(d: int) -> char {
    (d + '0' as int) as u8 as char
}

/// A natural number in decimal, without leading zeros.
pub open spec fn natural(n: int) -> Seq<char>
    decreases n,
{
    if n < 10 {
        seq![digit_char(n)]
    } else {
        natural(n / 10).push(digit_char(n % 10))
    }
}

/// An integer in decimal, with a minus sign where it is negative.
pub open spec fn decimal(n: int) -> Seq<char> {
    if n < 0 {
        seq!['-'] + natural(-n)
    } else {
        natural(n)
    }
}

proof fn lemma_digits_value_grows(s: Seq<char>, k: int)
    requires
        all_digits(s),
        0 <= k <= s.len(),
    ensures
        0 <= digits_value(s.take(k)) <= digits_value(s),
    decreases s.len() - k,
{
    if k == s.len() {
        assert(s.take(k) =~= s);
        lemma_digits_value_is_natural(s);
    } else {
        lemma_digits_value_grows(s, k + 1);
        assert(s.take(k + 1).drop_last() =~= s.take(k));
        assert(is_digit(s[k]));
        lemma_digits_value_is_natural(s.take(k));
    }
}

proof fn lemma_digits_value_is_natural(s: Seq<char>)
    requires
        all_digits(s),
    ensures
        0 <= digits_value(s),
    decreases s.len(),
{
    if s.len() > 0 {
        lemma_digits_value_is_natural(s.drop_last());
        assert(is_digit(s.last()));
    }
}

/// Reads an `i32` as `str::parse` does.
pub fn parse_i32(s: &str) -> (number: Option<i32>)
    ensures
        number == decimal_i32(s@),
{
    let n = s.unicode_len();
    if n == 0 {
        return None;
    }
    let first = s.get_char(0);
    let negative = first == '-';
    let start: usize = if first == '-' || first == '+' {
        1
    } else {
        0
    };
    let ghost digits = if start == 1 {
        s@.drop_first()
    } else {
        s@
    };
    if start == n {
        return None;
    }
    let mut magnitude: u64 = 0;
    let mut i: usize = start;
    while i < n
        invariant
            start <= i <= n,
            start < n == s@.len(),
            start == 1 <==> (s@[0] == '-' || s@[0] == '+'),
            start == 0 || start == 1,
            digits == if start == 1 {
                s@.drop_first()
            } else {
                s@
            },
            all_digits(digits.take(i - start)),
            magnitude == digits_value(digits.take(i - start)),
            magnitude <= 2147483648,
        decreases n - i,
    {
        let c = s.get_char(i);
        assert(digits[i - start] == c);
        if !('0' <= c && c <= '9') {
            assert(!is_digit(digits[i - start]));
            return None;
        }
        let digit: u64 = (c as u64) - ('0' as u64);
        magnitude = magnitude * 10 + digit;
        proof {
            assert(digits.take(i + 1 - start).drop_last() =~= digits.take(i - start));
            assert(digits.take(i + 1 - start).last() == c);
        }
        if magnitude > 2147483648 {
            proof {
                if all_digits(digits) {
                    lemma_digits_value_grows(digits, i + 1 - start);
                }
            }
            return None;
        }
        i += 1;
    }
    assert(digits.take(n - start) =~= digits);
    if negative {
        if magnitude == 2147483648 {
            Some(i32::MIN)
        } else {
            Some(-(magnitude as i32))
        }
    } else if magnitude <= 2147483647 {
        Some(magnitude as i32)
    } else {
        None
    }
}

fn digit_text(d: u64) -> (text: &'static str)
    requires
        d < 10,
    ensures
        text@ == seq![digit_char(d as int)],
{
    proof {
        reveal_strlit("0");
        reveal_strlit("1");
        reveal_strlit("2");
        reveal_strlit("3");
        reveal_strlit("4");
        reveal_strlit("5");
        reveal_strlit("6");
        reveal_strlit("7");
        reveal_strlit("8");
        reveal_strlit("9");
    }
    let text = if d == 0 {
        "0"
    } else if d == 1 {
        "1"
    } else if d == 2 {
        "2"
    } else if d == 3 {
        "3"
    } else if d == 4 {
        "4"
    } else if d == 5 {
        "5"
    } else if d == 6 {
        "6"
    } else if d == 7 {
        "7"
    } else if d == 8 {
        "8"
    } else {
        "9"
    };
    assert(text@ =~= seq![digit_char(d as int)]);
    text
}

/// Writes a natural number in decimal.
pub fn natural_text(n: u64) -> (text: String)
    ensures
        text@ == natural(n as int),
    decreases n,
{
    if n < 10 {
        String::from_str(digit_text(n))
    } else {
        let mut text = natural_text(n / 10);
        text.append(digit_text(n % 10));
        assert(text@ =~= natural(n as int));
        text
    }
}

/// Writes an integer in decimal, as `Display` does.
pub fn decimal_text(n: i32) -> (text: String)
    ensures
        text@ == decimal(n as int),
{
    if n < 0 {
        proof {
            reveal_strlit("-");
        }
        let magnitude: u64 = (-(n as i64)) as u64;
        let text = String::from_str("-").concat(natural_text(magnitude).as_str());
        assert(text@ =~= decimal(n as int));
        text
    } else {
        natural_text(n as u64)
    }
}

/// The texts of a list of lines.
pub open spec fn lines_text(lines: Seq<String>) -> Seq<Seq<char>> {
    lines.map_values(|line: String| line@)
}

/// Adds a line at the end.
pub(crate) fn push_line(lines: &mut Vec<String>, line: String)
    ensures
        lines_text(final(lines)@) == lines_text(old(lines)@).push(line@),
{
    lines.push(line);
    assert(lines_text(lines@) =~= lines_text(old(lines)@).push(line@));
}

/// Writes `true` or `false`, as `Display` does.
pub open spec fn boolean(b: bool) -> Seq<char> {
    if b {
        "true"@
    } else {
        "false"@
    }
}

pub fn boolean_text(b: bool) -> (text: &'static str)
    ensures
        text@ == boolean(b),
{
    if b {
        "true"
    } else {
        "false"
    }
}

/// Copies an optional text.
pub(crate) fn clone_text(text: &Option<String>) -> (copy: Option<String>)
    ensures
        copy == *text,
{
    match text {
        Some(text) => Some(text.clone()),
        None => None,
    }
}

proof fn lemma_natural_is_its_digits(n: int)
    requires
        0 <= n,
    ensures
        natural(n).len() > 0,
        all_digits(natural(n)),
        digits_value(natural(n)) == n,
    decreases n,
{
    if n < 10 {
        assert(natural(n).drop_last() =~= Seq::<char>::empty());
        assert(digits_value(natural(n).drop_last()) == 0);
    } else {
        lemma_natural_is_its_digits(n / 10);
        assert(natural(n).drop_last() =~= natural(n / 10));
        assert(natural(n).last() == digit_char(n % 10));
    }
}

/// An `i32` written in decimal is read back as itself.
pub proof fn lemma_decimal_reads_back(n: i32)
    ensures
        decimal_i32(decimal(n as int)) == Some(n),
{
    if n < 0 {
        lemma_natural_is_its_digits(-(n as int));
        assert(decimal(n as int).drop_first() =~= natural(-(n as int)));
    } else {
        lemma_natural_is_its_digits(n as int);
        assert(is_digit(natural(n as int)[0]));
    }
}

} // verus!
