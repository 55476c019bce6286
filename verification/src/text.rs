//! Decimal numerals and other small pieces of display text.

use vstd::prelude::*;
use vstd::string::*;

verus! {

/// The character that writes the decimal digit `d`.
pub open spec fn digit_char(d: int) -> char {
    if d == 0 {
        '0'
    } else if d == 1 {
        '1'
    } else if d == 2 {
        '2'
    } else if d == 3 {
        '3'
    } else if d == 4 {
        '4'
    } else if d == 5 {
        '5'
    } else if d == 6 {
        '6'
    } else if d == 7 {
        '7'
    } else if d == 8 {
        '8'
    } else {
        '9'
    }
}

/// The decimal numeral of a natural number, without leading zeros.
pub open spec fn digits_text(n: nat) -> Seq<char>
    decreases n,
{
    if n < 10 {
        seq![digit_char(n as int)]
    } else {
        digits_text(n / 10).push(digit_char((n % 10) as int))
    }
}

/// The decimal numeral of an integer: a minus sign for negative numbers, then the digits.
pub open spec fn decimal_text(n: int) -> Seq<char> {
    if n < 0 {
        seq!['-'] + digits_text((-n) as nat)
    } else {
        digits_text(n as nat)
    }
}

/// `count` zeros in a row.
pub open spec fn zeros(count: nat) -> Seq<char> {
    Seq::new(count, |i: int| '0')
}

/// The decimal numeral of `n`, filled with zeros after the sign until it is
/// at least `width` characters wide.
pub open spec fn zero_padded_text(n: int, width: nat) -> Seq<char> {
    let plain = decimal_text(n);
    let fill = if plain.len() < width {
        (width - plain.len()) as nat
    } else {
        0nat
    };
    if n < 0 {
        seq!['-'] + zeros(fill) + digits_text((-n) as nat)
    } else {
        zeros(fill) + digits_text(n as nat)
    }
}

/// The one-character text of a decimal digit.
fn digit_str(d: u8) -> (s: &'static str)
    requires
        d < 10,
    ensures
        s@ == seq![digit_char(d as int)],
{
    proof {
        reveal_strlit("0");
        reveal_strlit("1");
        reveal_strlit("2");
        reveal_strlit("3");
        reveal_strlit("4");
        reveal_strlit("5");
        reveal_strlit("6");
        reveal_strlit("7");
        reveal_strlit("8");
        reveal_strlit("9");
    }
    let s = match d {
        0 => "0",
        1 => "1",
        2 => "2",
        3 => "3",
        4 => "4",
        5 => "5",
        6 => "6",
        7 => "7",
        8 => "8",
        _ => "9",
    };
    assert(s@ =~= seq![digit_char(d as int)]);
    s
}

/// Appends the decimal numeral of `n` to `out`.
pub fn push_digits(out: &mut String, n: u64)
    ensures
        final(out)@ == old(out)@ + digits_text(n as nat),
    decreases n,
{
    if n >= 10 {
        push_digits(out, n / 10);
    }
    let last: u8 = (n % 10) as u8;
    out.append(digit_str(last));
    assert(out@ =~= old(out)@ + digits_text(n as nat));
}

/// The distance of `n` from zero.
pub fn magnitude(n: i64) -> (m: u64)
    ensures
        m == if n < 0 {
            -n
        } else {
            n as int
        },
{
    if n == i64::MIN {
        9_223_372_036_854_775_808u64
    } else if n < 0 {
        (-n) as u64
    } else {
        n as u64
    }
}

/// Appends the decimal numeral of `n` to `out`.
pub fn push_decimal(out: &mut String, n: i64)
    ensures
        final(out)@ == old(out)@ + decimal_text(n as int),
{
    if n < 0 {
        proof {
            reveal_strlit("-");
        }
        out.append("-");
    }
    push_digits(out, magnitude(n));
    assert(out@ =~= old(out)@ + decimal_text(n as int));
}

/// The number of characters in the decimal numeral of `n`.
pub fn digit_count(n: u64) -> (count: usize)
    ensures
        count == digits_text(n as nat).len(),
        1 <= count <= 20,
    decreases n,
{
    if n >= 10 {
        let shorter = digit_count(n / 10);
        proof {
            lemma_digit_count_bound(n as nat);
        }
        shorter + 1
    } else {
        1
    }
}

/// A numeral of a 64-bit number has at most twenty digits.
pub proof fn lemma_digit_count_bound(n: nat)
    requires
        n <= u64::MAX,
    ensures
        1 <= digits_text(n).len() <= 20,
{
    reveal_with_fuel(digits_text, 21);
}

/// Appends `count` zeros to `out`.
pub fn push_zeros(out: &mut String, count: usize)
    ensures
        final(out)@ == old(out)@ + zeros(count as nat),
{
    proof {
        reveal_strlit("0");
    }
    let mut done: usize = 0;
    assert(out@ =~= old(out)@ + zeros(0));
    while done < count
        invariant
            done <= count,
            out@ == old(out)@ + zeros(done as nat),
            "0"@ == seq!['0'],
        decreases count - done,
    {
        out.append("0");
        done = done + 1;
        assert(out@ =~= old(out)@ + zeros(done as nat));
    }
}

/// Appends the decimal numeral of `n` to `out`, filled with zeros after
/// the sign until it is at least `width` characters wide.
pub fn push_zero_padded(out: &mut String, n: i64, width: usize)
    ensures
        final(out)@ == old(out)@ + zero_padded_text(n as int, width as nat),
{
    let size = magnitude(n);
    let plain: usize = digit_count(size) + if n < 0 {
        1
    } else {
        0
    };
    assert(plain == decimal_text(n as int).len());
    let fill: usize = if plain < width {
        width - plain
    } else {
        0
    };
    if n < 0 {
        proof {
            reveal_strlit("-");
        }
        out.append("-");
    }
    push_zeros(out, fill);
    push_digits(out, size);
    assert(out@ =~= old(out)@ + zero_padded_text(n as int, width as nat));
}

/// The decimal numeral of `n`, filled with zeros after the sign until it
/// is at least `width` characters wide.
pub fn zero_padded(n: i64, width: usize) -> (text: String)
    ensures
        text@ == zero_padded_text(n as int, width as nat),
{
    let mut text = String::new();
    push_zero_padded(&mut text, n, width);
    text
}

/// The decimal numeral of `n`.
pub fn decimal(n: i64) -> (text: String)
    ensures
        text@ == decimal_text(n as int),
{
    let mut text = String::new();
    push_decimal(&mut text, n);
    text
}

/// What `str::to_uppercase` makes of a text: each character in its
/// upper case, as Unicode has it.
pub uninterp spec fn uppercase_text(s: Seq<char>) -> Seq<char>;

/// `str::to_uppercase`. The result depends on the text alone.
#[verifier::external_body]
pub(crate) fn to_uppercase(s: &str) -> (upper: String)
    ensures
        upper@ == uppercase_text(s@),
{
    s.to_uppercase()
}

/// Whether two texts hold the same characters.
pub fn text_eq(a: &str, b: &str) -> (same: bool)
    ensures
        same == (a@ == b@),
{
    let a = a.to_owned();
    let b = b.to_owned();
    a == b
}

/// The characters of `s`, in order.
pub fn chars_of(s: &str) -> (chars: Vec<char>)
    ensures
        chars@ == s@,
{
    let mut chars: Vec<char> = Vec::new();
    for c in it: s.chars()
        invariant
            it.seq() == s@,
            chars@ == s@.take(it.index() as int),
    {
        chars.push(c);
        assert(s@.take(it.index() + 1) =~= s@.take(it.index() as int).push(c));
    }
    assert(s@.take(s@.len() as int) =~= s@);
    chars
}

} // verus!
