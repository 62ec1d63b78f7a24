//! Numbers as text.

use vstd::arithmetic::power::pow;
use vstd::prelude::*;

verus! {

/// The digit of a number below sixteen, in lower case.
pub open spec fn digit(d: int) -> char {
    if d < 10 {
        ('0' as int + d) as char
    } else {
        ('a' as int + (d - 10)) as char
    }
}

/// A number in decimal, without leading zeros.
pub open spec fn decimal(n: nat) -> Seq<char>
    decreases n,
{
    if n < 10 {
        seq![digit(n as int)]
    } else {
        decimal(n / 10).push(digit((n % 10) as int))
    }
}

/// The zero digit, a number of times.
pub open spec fn zeros(count: int) -> Seq<char> {
    if count <= 0 {
        Seq::empty()
    } else {
        Seq::new(count as nat, |i: int| '0')
    }
}

/// A number in decimal, filled up with zeros to a width. The sign of a negative
/// number stands before the zeros and counts in the width.
pub open spec fn zero_padded(n: int, width: int) -> Seq<char> {
    if n < 0 {
        seq!['-'] + zeros(width - 1 - decimal((-n) as nat).len()) + decimal((-n) as nat)
    } else {
        zeros(width - decimal(n as nat).len()) + decimal(n as nat)
    }
}

/// The bytes in hexadecimal, two digits each, in lower case.
pub open spec fn hex(bytes: Seq<u8>) -> Seq<char>
    decreases bytes.len(),
{
    if bytes.len() == 0 {
        Seq::empty()
    } else {
        hex(bytes.drop_last()) + seq![
            digit(bytes.last() as int / 16),
            digit(bytes.last() as int % 16),
        ]
    }
}

/// The digit of a number below sixteen, as text.
fn digit_str(d: u8) -> (r: &'static str)
    requires
        d < 16,
    ensures
        r@ == seq![digit(d as int)],
{
    proof {
        reveal_strlit("0");
        reveal_strlit("1");
        reveal_strlit("2");
        reveal_strlit("3");
        reveal_strlit("4");
        reveal_strlit("5");
        reveal_strlit("6");
        reveal_strlit("7");
        reveal_strlit("8");
        reveal_strlit("9");
        reveal_strlit("a");
        reveal_strlit("b");
        reveal_strlit("c");
        reveal_strlit("d");
        reveal_strlit("e");
        reveal_strlit("f");
    }
    match d {
        0 => "0",
        1 => "1",
        2 => "2",
        3 => "3",
        4 => "4",
        5 => "5",
        6 => "6",
        7 => "7",
        8 => "8",
        9 => "9",
        10 => "a",
        11 => "b",
        12 => "c",
        13 => "d",
        14 => "e",
        _ => "f",
    }
}

/// Writes a number in decimal behind the text.
fn append_decimal(text: &mut String, n: u32)
    ensures
        final(text)@ == old(text)@ + decimal(n as nat),
    decreases n,
{
    if n >= 10 {
        append_decimal(text, n / 10);
    }
    text.append(digit_str((n % 10) as u8));
}

/// How many digits a number has in decimal.
fn decimal_len(n: u32) -> (r: u32)
    ensures
        r == decimal(n as nat).len(),
        r <= 10,
    decreases n,
{
    proof {
        reveal_with_fuel(pow, 11);
        lemma_decimal_len(n as nat, 10);
    }
    if n < 10 {
        1
    } else {
        decimal_len(n / 10) + 1
    }
}

/// Writes a number in decimal behind the text, filled up with zeros to a width.
pub fn append_padded(text: &mut String, n: i16, width: u32)
    ensures
        final(text)@ == old(text)@ + zero_padded(n as int, width as int),
{
    proof {
        reveal_strlit("-");
    }
    let magnitude: u32 = if n < 0 { (-(n as i32)) as u32 } else { n as u32 };
    let mut used: u32 = decimal_len(magnitude);
    if n < 0 {
        text.append("-");
        used += 1;
    }
    let ghost start = text@;
    let ghost first: int = used as int;
    while used < width
        invariant
            first <= used,
            used <= width || used == first,
            text@ == start + zeros(used - first),
        decreases width - used,
    {
        proof {
            reveal_strlit("0");
        }
        text.append("0");
        used += 1;
    }
    append_decimal(text, magnitude);
}

/// Writes bytes in hexadecimal behind the text.
pub fn append_hex(text: &mut String, bytes: &[u8])
    ensures
        final(text)@ == old(text)@ + hex(bytes@),
{
    let ghost start = text@;
    for i in 0..bytes.len()
        invariant
            text@ == start + hex(bytes@.take(i as int)),
    {
        let byte: u8 = bytes[i];
        text.append(digit_str(byte / 16));
        text.append(digit_str(byte % 16));
        assert(bytes@.take(i + 1).drop_last() == bytes@.take(i as int));
    }
    assert(bytes@.take(bytes@.len() as int) == bytes@);
}

/// A number below a power of ten has at most as many digits as the exponent says.
pub proof fn lemma_decimal_len(n: nat, digits: nat)
    requires
        digits >= 1,
        n < pow(10, digits),
    ensures
        1 <= decimal(n).len() <= digits,
    decreases n,
{
    reveal(pow);
    if n >= 10 {
        if digits == 1 {
            reveal_with_fuel(pow, 2);
        } else {
            lemma_decimal_len(n / 10, (digits - 1) as nat);
        }
    }
}

/// Whether the text consists of decimal digits.
pub open spec fn all_digits(text: Seq<char>) -> bool {
    forall|i: int|
        0 <= i < text.len() ==> '0' as int <= (#[trigger] text[i]) as int && text[i] as int
            <= '9' as int
}

/// The number that decimal digits stand for, read from left to right.
pub open spec fn value_of(text: Seq<char>) -> int
    decreases text.len(),
{
    if text.len() == 0 {
        0
    } else {
        10 * value_of(text.drop_last()) + (text.last() as int - '0' as int)
    }
}

/// Whether the text is the number in decimal digits, at least as many as the
/// width says; if there are more, the first one is not zero.
pub open spec fn unsigned_numeral(text: Seq<char>, n: int, width: int) -> bool {
    &&& all_digits(text)
    &&& value_of(text) == n
    &&& text.len() >= 1
    &&& text.len() >= width
    &&& text.len() > width && text.len() > 1 ==> text[0] != '0'
}

/// Whether the text is the number in decimal, filled up to the width: its digits,
/// after a minus sign if it is negative.
pub open spec fn numeral(text: Seq<char>, n: int, width: int) -> bool {
    if n < 0 {
        text.len() > 0 && text[0] == '-' && unsigned_numeral(text.skip(1), -n, width - 1)
    } else {
        unsigned_numeral(text, n, width)
    }
}

proof fn lemma_decimal_is_numeral(n: nat)
    ensures
        all_digits(decimal(n)),
        value_of(decimal(n)) == n,
        decimal(n).len() >= 1,
        decimal(n).len() > 1 ==> decimal(n)[0] != '0',
        n > 0 ==> decimal(n)[0] != '0',
    decreases n,
{
    if n < 10 {
        reveal_with_fuel(value_of, 2);
    } else {
        lemma_decimal_is_numeral(n / 10);
        let text = decimal(n);
        assert(text.drop_last() == decimal(n / 10));
        assert(text[0] == decimal(n / 10)[0]);
    }
}

proof fn lemma_value_after_zeros(count: int, text: Seq<char>)
    ensures
        value_of(zeros(count) + text) == value_of(text),
    decreases text.len(), if count > 0 { count } else { 0 },
{
    if text.len() > 0 {
        lemma_value_after_zeros(count, text.drop_last());
        assert((zeros(count) + text).drop_last() == zeros(count) + text.drop_last());
    } else if count > 0 {
        lemma_value_after_zeros(count - 1, text);
        assert(zeros(count) + text == zeros(count));
        assert(zeros(count - 1) + text == zeros(count - 1));
        assert(zeros(count).drop_last() == zeros(count - 1));
    } else {
        assert(zeros(count) + text == text);
    }
}

/// Reading a number back from its text gives the number: the text is its digits,
/// filled up with zeros to the width and no further, after the sign if there is one.
pub proof fn law_padded_text_is_the_number(n: int, width: int)
    requires
        width >= 2,
    ensures
        numeral(zero_padded(n, width), n, width),
{
    let magnitude: nat = if n < 0 { (-n) as nat } else { n as nat };
    let wide = if n < 0 { width - 1 } else { width };
    let digits = decimal(magnitude);
    let fill = wide - digits.len();
    let text = zeros(fill) + digits;
    lemma_decimal_is_numeral(magnitude);
    lemma_value_after_zeros(fill, digits);
    assert(all_digits(text));
    if text.len() > wide {
        assert(text == digits);
    }
    assert(unsigned_numeral(text, magnitude as int, wide));
    if n < 0 {
        assert(zero_padded(n, width).skip(1) == text);
    }
}

/// The number that a hexadecimal digit in lower case stands for; -1 for any other character.
pub open spec fn hex_value(c: char) -> int {
    if '0' as int <= c as int <= '9' as int {
        c as int - '0' as int
    } else if 'a' as int <= c as int <= 'f' as int {
        c as int - 'a' as int + 10
    } else {
        -1
    }
}

/// Reading bytes back from their hexadecimal text gives the bytes: each takes two
/// digits, the higher one first.
pub proof fn law_hex_text_is_the_bytes(bytes: Seq<u8>, i: int)
    requires
        0 <= i < bytes.len(),
    ensures
        hex(bytes).len() == 2 * bytes.len(),
        hex_value(hex(bytes)[2 * i]) >= 0,
        hex_value(hex(bytes)[2 * i + 1]) >= 0,
        16 * hex_value(hex(bytes)[2 * i]) + hex_value(hex(bytes)[2 * i + 1]) == bytes[i],
    decreases bytes.len(),
{
    let before = bytes.drop_last();
    if before.len() == 0 {
        reveal_with_fuel(hex, 2);
    } else if i < before.len() {
        law_hex_text_is_the_bytes(before, i);
    } else {
        law_hex_text_is_the_bytes(before, 0);
    }
}

} // verus!
