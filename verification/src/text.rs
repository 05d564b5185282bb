//! Decimal text: writing an integer and reading a port number.

use vstd::prelude::*;
use vstd::string::StringSliceAdditionalSpecFns;
use vstd::string::StringExecFns;

verus! {

/// The character that stands for the digit `d`.
pub open spec fn digit_char(d: nat) -> char
    recommends
        d < 10,
{
    if d == 0 {
        '0'
    } else if d == 1 {
        '1'
    } else if d == 2 {
        '2'
    } else if d == 3 {
        '3'
    } else if d == 4 {
        '4'
    } else if d == 5 {
        '5'
    } else if d == 6 {
        '6'
    } else if d == 7 {
        '7'
    } else if d == 8 {
        '8'
    } else {
        '9'
    }
}

/// The decimal text of `n`, without sign or leading zeros.
pub open spec fn decimal_text(n: nat) -> Seq<char>
    decreases n,
{
    if n < 10 {
        seq![digit_char(n)]
    } else {
        decimal_text(n / 10).push(digit_char(n % 10))
    }
}

/// Whether `c` is one of `0` to `9`.
pub open spec fn is_digit(c: char) -> bool {
    '0' <= c <= '9'
}

/// The number that the digit `c` stands for.
pub open spec fn digit_value(c: char) -> nat
    recommends
        is_digit(c),
{
    (c as nat - '0' as nat) as nat
}

/// Whether `text` is made of decimal digits only.
pub open spec fn all_digits(text: Seq<char>) -> bool {
    forall|i: int| 0 <= i < text.len() ==> is_digit(#[trigger] text[i])
}

/// The number that the digits of `text` denote, most significant first.
pub open spec fn decimal_value(text: Seq<char>) -> nat
    recommends
        all_digits(text),
    decreases text.len(),
{
    if text.len() == 0 {
        0
    } else {
        decimal_value(text.drop_last()) * 10 + digit_value(text.last())
    }
}

/// `text` without one leading plus sign.
pub open spec fn unsigned_part(text: Seq<char>) -> Seq<char> {
    if text.len() > 0 && text[0] == '+' {
        text.drop_first()
    } else {
        text
    }
}

/// The port number that `text` denotes: an optional plus sign followed by
/// at least one decimal digit and nothing else, with a value that fits in 16
/// bits.  Any other text denotes no port.
pub open spec fn port_of_text(text: Seq<char>) -> Option<u16> {
    let digits = unsigned_part(text);
    if digits.len() > 0 && all_digits(digits) && decimal_value(digits) <= u16::MAX {
        Some(decimal_value(digits) as u16)
    } else {
        None
    }
}

/// One decimal digit as text.
fn digit_str(d: u32) -> (text: &'static str)
    requires
        d < 10,
    ensures
        text@ == seq![digit_char(d as nat)],
{
    proof {
        reveal_strlit("0");
        reveal_strlit("1");
        reveal_strlit("2");
        reveal_strlit("3");
        reveal_strlit("4");
        reveal_strlit("5");
        reveal_strlit("6");
        reveal_strlit("7");
        reveal_strlit("8");
        reveal_strlit("9");
    }
    let text = if d == 0 {
        "0"
    } else if d == 1 {
        "1"
    } else if d == 2 {
        "2"
    } else if d == 3 {
        "3"
    } else if d == 4 {
        "4"
    } else if d == 5 {
        "5"
    } else if d == 6 {
        "6"
    } else if d == 7 {
        "7"
    } else if d == 8 {
        "8"
    } else {
        "9"
    };
    assert(text@ =~= seq![digit_char(d as nat)]);
    text
}

/// Writes `n` in decimal.
pub fn decimal_string(n: u32) -> (text: String)
    ensures
        text@ == decimal_text(n as nat),
    decreases n,
{
    if n < 10 {
        String::from_str(digit_str(n))
    } else {
        let mut text = decimal_string(n / 10);
        text.append(digit_str(n % 10));
        text
    }
}

/// Adding a digit at the end of a text multiplies its value by ten and adds
/// the digit.
proof fn lemma_decimal_value_push(text: Seq<char>, from: int, to: int)
    requires
        0 <= from <= to < text.len(),
    ensures
        decimal_value(text.subrange(from, to + 1)) == decimal_value(text.subrange(from, to)) * 10
            + digit_value(text[to]),
{
    assert(text.subrange(from, to + 1).drop_last() == text.subrange(from, to));
}

/// Reads a port number from `text`.
pub fn parse_port(text: &str) -> (port: Option<u16>)
    ensures
        port == port_of_text(text@),
{
    broadcast use vstd::string::is_ascii_spec_bytes;

    if !text.is_ascii() {
        proof {
            let i = choose|i: int|
                0 <= i < text@.len() && !('\0' <= #[trigger] text@[i] && text@[i] <= '\u{7f}');
            if text@[0] == '+' {
                assert(unsigned_part(text@)[i - 1] == text@[i]);
            }
        }
        return None;
    }
    let bytes = text.as_bytes();
    let len: usize = bytes.len();
    let start: usize = if len > 0 && bytes[0] == 43u8 {
        1
    } else {
        0
    };
    assert(unsigned_part(text@) == text@.subrange(start as int, len as int));
    if start == len {
        return None;
    }
    let mut value: u32 = 0;
    let mut i: usize = start;
    while i < len
        invariant
            start <= i <= len,
            len == text@.len(),
            text.is_ascii(),
            bytes@ == text.spec_bytes(),
            unsigned_part(text@) == text@.subrange(start as int, len as int),
            all_digits(text@.subrange(start as int, i as int)),
            value == decimal_value(text@.subrange(start as int, i as int)),
            value <= u16::MAX,
        decreases len - i,
    {
        let byte: u8 = bytes[i];
        if byte < 48u8 || byte > 57u8 {
            proof {
                let digits = text@.subrange(start as int, len as int);
                assert(!is_digit(digits[i - start]));
            }
            return None;
        }
        proof {
            lemma_decimal_value_push(text@, start as int, i as int);
            assert forall|k: int| 0 <= k < i + 1 - start implies is_digit(
                #[trigger] text@.subrange(start as int, i + 1)[k],
            ) by {
                if k < i - start {
                    assert(text@.subrange(start as int, i as int)[k] == text@[start + k]);
                }
            }
        }
        let next: u32 = value * 10 + (byte - 48u8) as u32;
        if next > 65535 {
            proof {
                lemma_decimal_value_grows(text@, start as int, i + 1, len as int);
            }
            return None;
        }
        value = next;
        i = i + 1;
    }
    assert(text@.subrange(start as int, i as int) == unsigned_part(text@));
    Some(value as u16)
}

/// Further digits never make the value of a text smaller.
proof fn lemma_decimal_value_grows(text: Seq<char>, from: int, mid: int, to: int)
    requires
        0 <= from <= mid <= to <= text.len(),
    ensures
        decimal_value(text.subrange(from, mid)) <= decimal_value(text.subrange(from, to)),
    decreases to - mid,
{
    if mid < to {
        lemma_decimal_value_grows(text, from, mid, to - 1);
        lemma_decimal_value_push(text, from, to - 1);
    }
}

} // verus!
