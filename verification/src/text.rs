//! Numbers as text: decimal and hexadecimal digits, lists of bytes.

use crate::bytes::read_u16;
use crate::bytes::u16_le;
use vstd::prelude::*;
use vstd::string::StringExecFns;

verus! {

/// The character of the digit `d`: `0` to `9`, then `A` to `F`, or `a` to
/// `f` where `upper` is false.
pub open spec fn digit_char(d: int, upper: bool) -> char {
    if d < 10 {
        (48 + d) as char
    } else if upper {
        (55 + d) as char
    } else {
        (87 + d) as char
    }
}

/// The digits of `n`, the highest first, with no leading zero; `0` is one
/// digit.  The base is sixteen where `hex` is true, ten otherwise.
pub open spec fn digits(n: nat, hex: bool, upper: bool) -> Seq<char>
    decreases n,
{
    if hex {
        if n < 16 {
            seq![digit_char(n as int, upper)]
        } else {
            digits(n / 16, hex, upper).push(digit_char((n % 16) as int, upper))
        }
    } else {
        if n < 10 {
            seq![digit_char(n as int, upper)]
        } else {
            digits(n / 10, hex, upper).push(digit_char((n % 10) as int, upper))
        }
    }
}

/// `n` in decimal.
pub open spec fn decimal(n: int) -> Seq<char> {
    if n < 0 {
        seq!['-'] + digits((-n) as nat, false, true)
    } else {
        digits(n as nat, false, true)
    }
}

/// `count` zeros.
pub open spec fn zeros(count: int) -> Seq<char> {
    Seq::new(
        if count > 0 {
            count as nat
        } else {
            0
        },
        |i: int| '0',
    )
}

/// `n` in hexadecimal, with zeros in front up to `width` digits.
pub open spec fn hex(n: nat, width: nat, upper: bool) -> Seq<char> {
    let text = digits(n, true, upper);
    zeros(width - text.len()) + text
}

/// The elements of `bytes` in decimal, with `, ` between them.
pub open spec fn joined(bytes: Seq<u8>) -> Seq<char>
    decreases bytes.len(),
{
    if bytes.len() == 0 {
        Seq::empty()
    } else if bytes.len() == 1 {
        decimal(bytes[0] as int)
    } else {
        joined(bytes.drop_last()) + seq![',', ' '] + decimal(bytes.last() as int)
    }
}

/// `bytes` as a list: its elements in decimal, between square brackets.
pub open spec fn byte_list(bytes: Seq<u8>) -> Seq<char> {
    seq!['['] + joined(bytes) + seq![']']
}

/// Whether `unit` is one half of a surrogate pair.
pub open spec fn is_surrogate(unit: u16) -> bool {
    0xD800 <= unit <= 0xDFFF
}

/// Whether `first` and `second` make a surrogate pair.
pub open spec fn is_pair(first: u16, second: u16) -> bool {
    0xD800 <= first <= 0xDBFF && 0xDC00 <= second <= 0xDFFF
}

/// The code point that a surrogate pair stands for.
pub open spec fn pair_code(first: u16, second: u16) -> int {
    0x1_0000 + (first - 0xD800) * 0x400 + (second - 0xDC00)
}

/// `first`, then what `rest` holds, if that is a text.
pub open spec fn text_after(first: char, rest: Option<Seq<char>>) -> Option<Seq<char>> {
    match rest {
        Some(more) => Some(seq![first] + more),
        None => None,
    }
}

/// The text that the UTF-16 code units `units` stand for: a unit that is
/// no surrogate is a character, a high surrogate and the low surrogate
/// behind it are one character, and a surrogate that stands otherwise
/// makes the units ill-formed.
pub open spec fn utf16_text(units: Seq<u16>) -> Option<Seq<char>>
    decreases units.len(),
{
    if units.len() == 0 {
        Some(Seq::empty())
    } else if !is_surrogate(units[0]) {
        text_after(units[0] as char, utf16_text(units.skip(1)))
    } else if units.len() >= 2 && is_pair(units[0], units[1]) {
        text_after(pair_code(units[0], units[1]) as char, utf16_text(units.skip(2)))
    } else {
        None
    }
}

/// The first `count` little-endian 16-bit units of `bytes`.
pub open spec fn units_of(bytes: Seq<u8>, count: nat) -> Seq<u16> {
    Seq::new(count, |i: int| u16_le(bytes, 2 * i) as u16)
}

/// `text`, then what `rest` holds, if that is a text.
pub open spec fn text_before(text: Seq<char>, rest: Option<Seq<char>>) -> Option<Seq<char>> {
    match rest {
        Some(more) => Some(text + more),
        None => None,
    }
}

/// `char::from_u32`: the character with the code `code`, where there is
/// one: every code up to `0x10FFFF` but those of the surrogates.
#[verifier::external_body]
pub(crate) fn char_from_u32(code: u32) -> (c: Option<char>)
    ensures
        code < 0xD800 || 0xE000 <= code <= 0x10_FFFF ==> c == Some(code as char),
        !(code < 0xD800 || 0xE000 <= code <= 0x10_FFFF) ==> c.is_none(),
{
    char::from_u32(code)
}

/// `String::push`: the string grows by the one character.
#[verifier::external_body]
pub(crate) fn push_char(text: &mut String, c: char)
    ensures
        final(text)@ == old(text)@.push(c),
{
    text.push(c)
}

/// The character of one digit.
fn digit(d: u8, upper: bool) -> (c: char)
    requires
        d < 16,
    ensures
        c == digit_char(d as int, upper),
{
    if d < 10 {
        (48 + d) as char
    } else if upper {
        (55 + d) as char
    } else {
        (87 + d) as char
    }
}

/// Appends the digits of `n`, to the base sixteen or ten.
fn push_digits(text: &mut String, n: u64, hex: bool, upper: bool)
    ensures
        final(text)@ == old(text)@ + digits(n as nat, hex, upper),
{
    let base: u64 = if hex {
        16
    } else {
        10
    };
    let mut low_first: Vec<char> = Vec::new();
    let mut rest: u64 = n;
    assert(digits(rest as nat, hex, upper) + low_first@.reverse() =~= digits(
        n as nat,
        hex,
        upper,
    ));
    while rest >= base
        invariant
            base == if hex { 16u64 } else { 10u64 },
            digits(n as nat, hex, upper) == digits(rest as nat, hex, upper) + low_first@.reverse(),
        decreases rest,
    {
        let c: char = digit((rest % base) as u8, upper);
        let ghost before = low_first@;
        low_first.push(c);
        assert(low_first@.reverse() =~= seq![c] + before.reverse());
        assert(digits(rest as nat, hex, upper) + before.reverse() =~= digits(
            (rest / base) as nat,
            hex,
            upper,
        ) + low_first@.reverse());
        rest = rest / base;
    }
    let c: char = digit(rest as u8, upper);
    let ghost before = low_first@;
    low_first.push(c);
    assert(low_first@.reverse() =~= seq![c] + before.reverse());
    let ghost wanted = digits(n as nat, hex, upper);
    assert(wanted =~= low_first@.reverse());
    let mut i: usize = low_first.len();
    assert(text@ =~= old(text)@ + wanted.take(0));
    while i > 0
        invariant
            i <= low_first.len(),
            wanted == low_first@.reverse(),
            text@ == old(text)@ + wanted.take(low_first.len() - i),
        decreases i,
    {
        i -= 1;
        let ghost k = low_first.len() - i - 1;
        push_char(text, low_first[i]);
        assert(wanted.take(k).push(wanted[k]) =~= wanted.take(k + 1));
        assert(text@ =~= old(text)@ + wanted.take(k + 1));
    }
    assert(wanted.take(low_first.len() as int) =~= wanted);
}

/// `n` in decimal.
pub fn decimal_unsigned(n: u64) -> (text: String)
    ensures
        text@ == decimal(n as int),
{
    let mut text: String = String::new();
    push_digits(&mut text, n, false, true);
    assert(Seq::<char>::empty() + decimal(n as int) =~= decimal(n as int));
    text
}

/// `n` in decimal, with a minus sign where it is negative.
pub fn decimal_signed(n: i64) -> (text: String)
    ensures
        text@ == decimal(n as int),
{
    let mut text: String = String::new();
    if n < 0 {
        push_char(&mut text, '-');
        let size: u64 = if n == i64::MIN {
            0x8000_0000_0000_0000
        } else {
            (-n) as u64
        };
        push_digits(&mut text, size, false, true);
        assert(text@ =~= decimal(n as int));
    } else {
        push_digits(&mut text, n as u64, false, true);
        assert(text@ =~= decimal(n as int));
    }
    text
}

/// Appends `n` in hexadecimal, with zeros in front up to `width` digits.
pub fn push_hex(text: &mut String, n: u64, width: usize, upper: bool)
    ensures
        final(text)@ == old(text)@ + hex(n as nat, width as nat, upper),
{
    let mut body: String = String::new();
    push_digits(&mut body, n, true, upper);
    assert(body@ =~= digits(n as nat, true, upper));
    let len: usize = body.as_str().unicode_len();
    let mut i: usize = len;
    assert(text@ =~= old(text)@ + zeros(0));
    while i < width
        invariant
            len <= i,
            i <= width || i == len,
            text@ == old(text)@ + zeros(i - len),
        decreases width - i,
    {
        push_char(text, '0');
        i += 1;
        assert(text@ =~= old(text)@ + zeros(i - len));
    }
    text.append(body.as_str());
    assert(text@ =~= old(text)@ + hex(n as nat, width as nat, upper));
}

/// The bytes of `bytes` as a list in decimal: `[1, 2, 3]`.
pub fn format_byte_list(bytes: &[u8]) -> (text: String)
    ensures
        text@ == byte_list(bytes@),
{
    let mut text: String = String::new();
    push_char(&mut text, '[');
    let mut i: usize = 0;
    assert(bytes@.take(0) =~= Seq::<u8>::empty());
    assert(text@ =~= seq!['['] + joined(bytes@.take(0)));
    while i < bytes.len()
        invariant
            i <= bytes.len(),
            text@ == seq!['['] + joined(bytes@.take(i as int)),
        decreases bytes.len() - i,
    {
        let ghost before = text@;
        if i > 0 {
            push_char(&mut text, ',');
            push_char(&mut text, ' ');
        }
        push_digits(&mut text, bytes[i] as u64, false, true);
        proof {
            let now = bytes@.take(i + 1);
            assert(now.drop_last() =~= bytes@.take(i as int));
            assert(now.last() == bytes@[i as int]);
            assert(text@ =~= seq!['['] + joined(now));
        }
        i += 1;
    }
    assert(bytes@.take(bytes@.len() as int) =~= bytes@);
    push_char(&mut text, ']');
    text
}

/// Decodes the `count` little-endian UTF-16 units at the start of `bytes`.
pub fn decode_utf16(bytes: &[u8], count: usize) -> (text: Option<String>)
    requires
        2 * count <= bytes.len(),
    ensures
        match utf16_text(units_of(bytes@, count as nat)) {
            Some(wanted) => text.is_some() && text.unwrap()@ == wanted,
            None => text.is_none(),
        },
{
    let ghost units = units_of(bytes@, count as nat);
    let mut text: String = String::new();
    let mut i: usize = 0;
    assert(units.skip(0) =~= units);
    assert(utf16_text(units) == text_before(text@, utf16_text(units.skip(0)))) by {
        if let Some(more) = utf16_text(units) {
            assert(text@ + more =~= more);
        }
    }
    while i < count
        invariant
            i <= count,
            2 * count <= bytes.len(),
            units == units_of(bytes@, count as nat),
            utf16_text(units) == text_before(text@, utf16_text(units.skip(i as int))),
        decreases count - i,
    {
        let ghost rest = units.skip(i as int);
        let ghost before = text@;
        let first: u16 = read_u16(bytes, 2 * i);
        assert(rest[0] == first);
        if first < 0xD800 || first > 0xDFFF {
            let c: char = match char_from_u32(first as u32) {
                Some(c) => c,
                None => {
                    return None;
                },
            };
            push_char(&mut text, c);
            proof {
                assert(rest.skip(1) =~= units.skip(i + 1));
                if let Some(more) = utf16_text(units.skip(i + 1)) {
                    assert(before + (seq![c] + more) =~= text@ + more);
                }
            }
            i += 1;
        } else {
            if first > 0xDBFF || count - i < 2 {
                return None;
            }
            let second: u16 = read_u16(bytes, 2 * i + 2);
            assert(rest[1] == second);
            if second < 0xDC00 || second > 0xDFFF {
                return None;
            }
            let code: u32 = 0x1_0000 + (first as u32 - 0xD800) * 0x400 + (second as u32 - 0xDC00);
            let c: char = match char_from_u32(code) {
                Some(c) => c,
                None => {
                    return None;
                },
            };
            push_char(&mut text, c);
            proof {
                assert(rest.skip(2) =~= units.skip(i + 2));
                if let Some(more) = utf16_text(units.skip(i + 2)) {
                    assert(before + (seq![c] + more) =~= text@ + more);
                }
            }
            i += 2;
        }
    }
    assert(text@ + Seq::<char>::empty() =~= text@);
    Some(text)
}

} // verus!
