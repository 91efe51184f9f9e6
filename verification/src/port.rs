//! Port numbers: the text that names the local port, and the port of a
//! container as the tunnel addresses it.

use crate::error::KubeErr;
use vstd::prelude::*;
use vstd::string::*;
use vstd::utf8::is_ascii_chars;

verus! {

/// Whether `c` is one of the ten decimal digits.
pub open spec fn is_digit(c: char) -> bool {
    '0' <= c && c <= '9'
}

/// The number that the digit `c` writes.
pub open spec fn digit_value(c: char) -> int {
    c as int - 48
}

/// The number that a sequence of decimal digits writes.
pub open spec fn decimal(digits: Seq<char>) -> int
    decreases digits.len(),
{
    if digits.len() == 0 {
        0
    } else {
        decimal(digits.drop_last()) * 10 + digit_value(digits.last())
    }
}

/// The text without the plus sign that may stand before the digits.
pub open spec fn unsigned_part(text: Seq<char>) -> Seq<char> {
    if text.len() > 0 && text[0] == '+' {
        text.drop_first()
    } else {
        text
    }
}

/// Whether the text holds decimal digits and nothing else.
pub open spec fn all_digits(digits: Seq<char>) -> bool {
    forall|i: int| 0 <= i < digits.len() ==> is_digit(#[trigger] digits[i])
}

/// The port that a text names: an optional plus sign, then one or more decimal
/// digits and nothing else, writing a number of at most 65535. Any other text
/// names no port.
pub open spec fn port_of(text: Seq<char>) -> Option<u16> {
    let digits = unsigned_part(text);
    if digits.len() > 0 && all_digits(digits) && decimal(digits) <= 65535 {
        Some(decimal(digits) as u16)
    } else {
        None
    }
}

/// The port of a container as the tunnel addresses it: the low 16 bits of the
/// declared number.
pub open spec fn wire_port(declared: i32) -> u16 {
    (declared as int % 65536) as u16
}

/// Among digits, what a longer text writes is no less than what its beginning
/// writes.
proof fn lemma_decimal_grows(digits: Seq<char>, k: int)
    requires
        all_digits(digits),
        0 <= k <= digits.len(),
    ensures
        0 <= decimal(digits.take(k)) <= decimal(digits),
    decreases digits.len(),
{
    if k == digits.len() {
        assert(digits.take(k) =~= digits);
        if k > 0 {
            lemma_decimal_grows(digits.drop_last(), k - 1);
        }
    } else {
        let front = digits.drop_last();
        assert(front.take(k) =~= digits.take(k));
        lemma_decimal_grows(front, k);
        lemma_decimal_grows(front, front.len() as int);
    }
}

/// Reads the local port from the text that the user typed.
pub fn parse_port(text: &str) -> (port: Result<u16, KubeErr>)
    ensures
        match port {
            Ok(p) => port_of(text@) == Some(p),
            Err(e) => port_of(text@) is None && e is WrongPort,
        },
{
    broadcast use is_ascii_spec_bytes;

    if !text.is_ascii() {
        proof {
            let i = choose|i: int|
                0 <= i < text@.len() && !('\0' <= #[trigger] text@[i] <= '\u{7f}');
            let digits = unsigned_part(text@);
            if i > 0 && text@[0] == '+' {
                assert(digits[i - 1] == text@[i]);
            } else {
                assert(digits[i] == text@[i]);
            }
        }
        return Err(KubeErr::WrongPort);
    }
    let bytes = text.as_bytes();
    let len = bytes.len();
    let mut start: usize = 0;
    if len > 0 && bytes[0] == 43u8 {
        start = 1;
    }
    let ghost digits = unsigned_part(text@);
    assert(forall|i: int|
        0 <= i < digits.len() ==> #[trigger] digits[i] as u8 == bytes@[i + start]);
    if start == len {
        return Err(KubeErr::WrongPort);
    }
    let mut value: u32 = 0;
    let mut i: usize = start;
    while i < len
        invariant
            start <= i <= len,
            len == bytes@.len(),
            len == text@.len(),
            digits.len() == len - start,
            is_ascii_chars(text@),
            digits == unsigned_part(text@),
            forall|k: int|
                0 <= k < digits.len() ==> #[trigger] digits[k] as u8 == bytes@[k + start],
            all_digits(digits.take(i - start)),
            value == decimal(digits.take(i - start)),
            value <= 65535,
        decreases len - i,
    {
        let b = bytes[i];
        let ghost c = digits[i - start];
        assert('\0' <= c <= '\u{7f}') by {
            assert(c == text@[i as int]);
        }
        if b < 48u8 || b > 57u8 {
            return Err(KubeErr::WrongPort);
        }
        let next: u32 = value * 10 + (b - 48u8) as u32;
        proof {
            let wider = digits.take(i - start + 1);
            assert(wider.drop_last() =~= digits.take(i - start));
            assert(all_digits(wider)) by {
                assert forall|k: int| 0 <= k < wider.len() implies is_digit(
                    #[trigger] wider[k],
                ) by {
                    if k < wider.len() - 1 {
                        assert(wider[k] == digits.take(i - start)[k]);
                    }
                }
            }
        }
        if next > 65535 {
            proof {
                if all_digits(digits) {
                    lemma_decimal_grows(digits, i - start + 1);
                }
            }
            return Err(KubeErr::WrongPort);
        }
        value = next;
        i += 1;
    }
    assert(digits.take(len - start) =~= digits);
    Ok(value as u16)
}

/// The port of a container as the tunnel addresses it.
pub fn remote_port(declared: i32) -> (port: u16)
    ensures
        port == wire_port(declared),
{
    let low: i32 = declared % 65536;
    if low < 0 {
        (low + 65536) as u16
    } else {
        low as u16
    }
}

} // verus!
