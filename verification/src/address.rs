//! Ethereum account addresses and their hexadecimal text form.
use std::str::FromStr;
use vstd::prelude::*;

verus! {

/// A 20-byte Ethereum address.
#[derive(Clone, Copy, Debug)]
pub struct Address {
    pub bytes: [u8; 20],
}

impl View for Address {
    type V = Seq<u8>;

    open spec fn view(&self) -> Seq<u8> {
        self.bytes@
    }
}

/// The value of a hexadecimal digit, either case; `None` for any other character.
pub open spec fn hex_digit_value(c: char) -> Option<nat> {
    if '0' <= c && c <= '9' {
        Some((c as u32 - '0' as u32) as nat)
    } else if 'a' <= c && c <= 'f' {
        Some((c as u32 - 'a' as u32 + 10) as nat)
    } else if 'A' <= c && c <= 'F' {
        Some((c as u32 - 'A' as u32 + 10) as nat)
    } else {
        None
    }
}

/// The text with a leading `0x` or `0X` taken off, if it has one.
pub open spec fn strip_hex_prefix(s: Seq<char>) -> Seq<char> {
    if s.len() >= 2 && s[0] == '0' && (s[1] == 'x' || s[1] == 'X') {
        s.subrange(2, s.len() as int)
    } else {
        s
    }
}

/// The byte whose two hexadecimal digits stand at `2 * i` and `2 * i + 1`.
pub open spec fn hex_pair_byte(h: Seq<char>, i: int) -> u8 {
    (hex_digit_value(h[2 * i]).unwrap() * 16 + hex_digit_value(h[2 * i + 1]).unwrap()) as u8
}

/// What an address written in hex decodes to: after an optional `0x`/`0X`,
/// exactly forty hex digits, two per byte, most significant digit first.
pub open spec fn decode_hex_address(s: Seq<char>) -> Option<Seq<u8>> {
    let h = strip_hex_prefix(s);
    if h.len() == 40 && (forall|i: int| 0 <= i < 40 ==> (#[trigger] hex_digit_value(h[i])) is Some) {
        Some(Seq::new(20, |i: int| hex_pair_byte(h, i)))
    } else {
        None
    }
}

/// The message of alloy's error for a text that is not a hex address (which
/// character was wrong and where, an odd number of digits, or a wrong length).
pub uninterp spec fn hex_address_error_text(s: Seq<char>) -> Seq<char>;

/// Calls alloy's `Address::from_str` (hex decoding by `const_hex::decode_to_array`):
/// it strips one `0x`/`0X` prefix and accepts exactly forty hex digits of either
/// case. On failure it hands back the text of alloy's error, which is named,
/// not spelt out.
#[verifier::external_body]
pub(crate) fn parse_hex_address(s: &str) -> (r: Result<Address, String>)
    ensures
        match decode_hex_address(s@) {
            Some(b) => r matches Ok(a) && a@ == b,
            None => r matches Err(m) && m@ == hex_address_error_text(s@),
        },
{
    match alloy::primitives::Address::from_str(s) {
        Ok(a) => Ok(Address { bytes: a.into_array() }),
        Err(e) => Err(e.to_string()),
    }
}

/// Hex digits read as their values in either case, nothing else reads as a
/// digit, and a `0x` or `0X` in front of forty digits changes nothing.
pub proof fn law_hex_digits_and_prefix(c: char, h: Seq<char>)
    ensures
        '0' <= c <= '9' ==> hex_digit_value(c) == Some((c as u32 - '0' as u32) as nat),
        'a' <= c <= 'f' ==> hex_digit_value(c) == Some((c as u32 - 'a' as u32 + 10) as nat),
        'A' <= c <= 'F' ==> hex_digit_value(c) == Some((c as u32 - 'A' as u32 + 10) as nat),
        !('0' <= c <= '9' || 'a' <= c <= 'f' || 'A' <= c <= 'F') ==> hex_digit_value(c) is None,
        hex_digit_value(c) is Some ==> hex_digit_value(c)->0 < 16,
        h.len() == 40 ==> decode_hex_address(seq!['0', 'x'] + h) == decode_hex_address(h),
        h.len() == 40 ==> decode_hex_address(seq!['0', 'X'] + h) == decode_hex_address(h),
        h.len() != 40 && !(h.len() == 42 && h[0] == '0' && (h[1] == 'x' || h[1] == 'X')) ==> decode_hex_address(h) is None,
{
    if h.len() == 40 {
        assert((seq!['0', 'x'] + h).subrange(2, 42) =~= h);
        assert((seq!['0', 'X'] + h).subrange(2, 42) =~= h);
        if h[0] == '0' && (h[1] == 'x' || h[1] == 'X') {
            assert(hex_digit_value(h[1]) is None);
        }
    }
}

} // verus!
