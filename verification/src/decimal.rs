//! Unsigned decimal numbers written in ASCII.

use vstd::prelude::*;
use vstd::string::StringExecFns;

verus! {

/// Whether `byte` is one of the ASCII digits `0` to `9`.
pub open spec fn is_digit(byte: u8) -> bool {
    0x30 <= byte <= 0x39
}

/// Whether every byte of `text` is an ASCII digit.
pub open spec fn all_digits(text: Seq<u8>) -> bool {
    forall|i: int| 0 <= i < text.len() ==> is_digit(#[trigger] text[i])
}

/// The number that a run of ASCII digits denotes in base ten. The empty run
/// denotes zero.
pub open spec fn digits_value(digits: Seq<u8>) -> nat
    decreases digits.len(),
{
    if digits.len() == 0 {
        0
    } else {
        10 * digits_value(digits.drop_last()) + (digits.last() - 0x30) as nat
    }
}

/// `text` without one leading plus sign, if it has one.
pub open spec fn without_sign(text: Seq<u8>) -> Seq<u8> {
    if text.len() > 0 && text[0] == 0x2B {
        text.drop_first()
    } else {
        text
    }
}

/// The `u32` that `text` denotes: an optional plus sign, then one or more
/// ASCII digits and nothing else, with a value of at most `u32::MAX`. Leading
/// zeros are allowed. Any other text denotes no number.
pub open spec fn decimal_u32(text: Seq<u8>) -> Option<u32> {
    let digits = without_sign(text);
    if digits.len() > 0 && all_digits(digits) && digits_value(digits) <= u32::MAX {
        Some(digits_value(digits) as u32)
    } else {
        None
    }
}

/// The ASCII digit that stands for `digit`, a number below ten.
pub open spec fn digit_char(digit: nat) -> char {
    if digit == 0 {
        '0'
    } else if digit == 1 {
        '1'
    } else if digit == 2 {
        '2'
    } else if digit == 3 {
        '3'
    } else if digit == 4 {
        '4'
    } else if digit == 5 {
        '5'
    } else if digit == 6 {
        '6'
    } else if digit == 7 {
        '7'
    } else if digit == 8 {
        '8'
    } else {
        '9'
    }
}

/// `number` written in base ten: its digits from the most significant to
/// the least, without a sign and without leading zeros. Zero is written `0`.
pub open spec fn decimal_text(number: nat) -> Seq<char>
    decreases number,
{
    if number < 10 {
        seq![digit_char(number)]
    } else {
        decimal_text(number / 10).push(digit_char(number % 10))
    }
}

/// The bytes of `text`, which holds ASCII characters only.
pub open spec fn ascii_bytes(text: Seq<char>) -> Seq<u8> {
    Seq::new(text.len(), |i: int| text[i] as u8)
}

/// A run of bytes denotes at least as much as any of its prefixes.
pub proof fn lemma_digits_value_grows(digits: Seq<u8>, n: int)
    requires
        0 <= n <= digits.len(),
    ensures
        digits_value(digits.take(n)) <= digits_value(digits),
    decreases digits.len(),
{
    if n == digits.len() {
        assert(digits.take(n) =~= digits);
    } else {
        lemma_digits_value_grows(digits.drop_last(), n);
        assert(digits.drop_last().take(n) =~= digits.take(n));
    }
}

/// Reads `text` as an unsigned decimal number.
pub fn parse_decimal_u32(text: &[u8]) -> (value: Option<u32>)
    ensures
        value == decimal_u32(text@),
{
    let n: usize = text.len();
    let start: usize = if n > 0 && text[0] == 0x2B {
        1
    } else {
        0
    };
    let ghost digits = text@.subrange(start as int, n as int);
    assert(digits =~= without_sign(text@));
    if start == n {
        return None;
    }
    let mut acc: u64 = 0;
    let mut i: usize = start;
    while i < n
        invariant
            start <= i <= n,
            n == text@.len(),
            digits == text@.subrange(start as int, n as int),
            digits == without_sign(text@),
            all_digits(digits.take(i - start)),
            acc == digits_value(digits.take(i - start)),
            acc <= u32::MAX,
        decreases n - i,
    {
        let byte: u8 = text[i];
        if byte < 0x30 || byte > 0x39 {
            assert(!is_digit(digits[i - start]));
            return None;
        }
        let next: u64 = acc * 10 + (byte - 0x30) as u64;
        proof {
            let grown = digits.take(i + 1 - start);
            assert(grown.drop_last() =~= digits.take(i - start));
            assert(grown.last() == byte);
            assert(next == digits_value(grown));
        }
        if next > 0xFFFF_FFFF {
            proof {
                lemma_digits_value_grows(digits, i + 1 - start);
            }
            return None;
        }
        acc = next;
        i += 1;
    }
    assert(digits.take(n - start) =~= digits);
    Some(acc as u32)
}

/// What is written in base ten is made of ASCII digits, and denotes the
/// number that was written.
pub proof fn lemma_decimal_text_denotes(number: nat)
    ensures
        decimal_text(number).len() > 0,
        forall|i: int|
            0 <= i < decimal_text(number).len() ==> '0' <= #[trigger] decimal_text(number)[i]
                <= '9',
        all_digits(ascii_bytes(decimal_text(number))),
        digits_value(ascii_bytes(decimal_text(number))) == number,
    decreases number,
{
    let text = decimal_text(number);
    let bytes = ascii_bytes(text);
    if number < 10 {
        assert(bytes.drop_last() =~= Seq::<u8>::empty());
        assert(digits_value(bytes.drop_last()) == 0);
    } else {
        let shorter = ascii_bytes(decimal_text(number / 10));
        lemma_decimal_text_denotes(number / 10);
        assert(bytes.drop_last() =~= shorter);
        assert(bytes.last() == digit_char(number % 10) as u8);
        assert forall|i: int| 0 <= i < text.len() implies '0' <= #[trigger] text[i] <= '9' by {
            if i < shorter.len() {
                assert(text[i] == decimal_text(number / 10)[i]);
            }
        }
        assert forall|i: int| 0 <= i < bytes.len() implies is_digit(#[trigger] bytes[i]) by {
            if i < shorter.len() {
                assert(bytes[i] == shorter[i]);
            }
        }
    }
}

/// Reading what was written gives the number back: the decimal text of a
/// `u32` denotes that `u32`.
pub proof fn lemma_decimal_text_reads_back(number: u32)
    ensures
        decimal_u32(ascii_bytes(decimal_text(number as nat))) == Some(number),
{
    let bytes = ascii_bytes(decimal_text(number as nat));
    lemma_decimal_text_denotes(number as nat);
    assert(is_digit(bytes[0]));
    assert(without_sign(bytes) == bytes);
}

/// The text of one digit.
fn digit_text(digit: u32) -> (text: &'static str)
    requires
        digit < 10,
    ensures
        text@ == seq![digit_char(digit as nat)],
{
    proof {
        reveal_strlit("0");
        reveal_strlit("1");
        reveal_strlit("2");
        reveal_strlit("3");
        reveal_strlit("4");
        reveal_strlit("5");
        reveal_strlit("6");
        reveal_strlit("7");
        reveal_strlit("8");
        reveal_strlit("9");
    }
    let text = if digit == 0 {
        "0"
    } else if digit == 1 {
        "1"
    } else if digit == 2 {
        "2"
    } else if digit == 3 {
        "3"
    } else if digit == 4 {
        "4"
    } else if digit == 5 {
        "5"
    } else if digit == 6 {
        "6"
    } else if digit == 7 {
        "7"
    } else if digit == 8 {
        "8"
    } else {
        "9"
    };
    assert(text@ =~= seq![digit_char(digit as nat)]);
    text
}

/// Writes `number` in base ten.
pub fn render_decimal_u32(number: u32) -> (text: String)
    ensures
        text@ == decimal_text(number as nat),
    decreases number,
{
    if number < 10 {
        digit_text(number).to_owned()
    } else {
        let mut text = render_decimal_u32(number / 10);
        text.append(digit_text(number % 10));
        assert(text@ =~= decimal_text(number as nat));
        text
    }
}

} // verus!
