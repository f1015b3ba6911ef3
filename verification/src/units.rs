//! Ether amounts written in decimal: parsing into wei and formatting back,
//! as alloy's `parse_ether` and `format_ether` do.
use crate::u256::{u256_modulus, U256};
use vstd::prelude::*;
use vstd::string::*;

verus! {

/// Wei per ether is ten to this power.
pub open spec fn ether_decimals() -> nat {
    18
}

/// Ten to the power `k`.
pub open spec fn pow10(k: nat) -> nat
    decreases k,
{
    if k == 0 {
        1
    } else {
        10 * pow10((k - 1) as nat)
    }
}

/// Whether a character is an ASCII decimal digit.
pub open spec fn is_digit(c: char) -> bool {
    '0' <= c && c <= '9'
}

/// Whether every character is a decimal digit.
pub open spec fn all_digits(s: Seq<char>) -> bool {
    forall|i: int| 0 <= i < s.len() ==> is_digit(#[trigger] s[i])
}

/// The value of a decimal digit.
pub open spec fn digit_value(c: char) -> nat {
    (c as u32 - '0' as u32) as nat
}

/// The number that a string of decimal digits stands for (0 for the empty string).
pub open spec fn digits_value(s: Seq<char>) -> nat
    decreases s.len(),
{
    if s.len() == 0 {
        0
    } else {
        10 * digits_value(s.drop_last()) + digit_value(s.last())
    }
}

/// `s` is a plain ether amount whose integer part ends at `p`: at least one
/// digit before `p`, and at `p` either the end of the text or a point followed
/// by at most eighteen digits.
pub open spec fn plain_ether_split(s: Seq<char>, p: int) -> bool {
    &&& 0 < p <= s.len()
    &&& all_digits(s.subrange(0, p))
    &&& p == s.len() || (s[p] == '.' && all_digits(s.subrange(p + 1, s.len() as int)) && s.len()
        - p - 1 <= ether_decimals())
}

/// The wei that a plain ether amount split at `p` stands for.
pub open spec fn plain_ether_wei(s: Seq<char>, p: int) -> nat {
    if p == s.len() {
        digits_value(s) * pow10(ether_decimals())
    } else {
        let f = s.subrange(p + 1, s.len() as int);
        digits_value(s.subrange(0, p)) * pow10(ether_decimals()) + digits_value(f) * pow10(
            (ether_decimals() - f.len()) as nat,
        )
    }
}

/// The wei that a plain ether amount stands for; `None` when the text is not one.
pub open spec fn plain_ether_value(s: Seq<char>) -> Option<nat> {
    if exists|p: int| plain_ether_split(s, p) {
        Some(plain_ether_wei(s, choose|p: int| plain_ether_split(s, p)))
    } else {
        None
    }
}

/// What alloy's `parse_ether` gives for a text, by value (`None` on error). Its
/// rules for signs, underscores and long fractions are alloy's; the one fact
/// relied on here is the plain-amount clause of `parse_ether_wei`.
pub uninterp spec fn parsed_ether(s: Seq<char>) -> Option<nat>;

/// Whether `parse_ether` would cut a character in two, given the text's
/// UTF-8 bytes: it drops the first point and keeps eighteen bytes after it,
/// slicing by byte count, and the slice panics when that cut, nineteen bytes
/// after the point, falls inside a character.
pub open spec fn ether_cut_splits_char(b: Seq<u8>) -> bool {
    exists|di: int|
        #![trigger b[di]]
        0 <= di < b.len() && b[di] == 46u8 && (forall|j: int| 0 <= j < di ==> b[j] != 46u8) && b.len() - 1
            - di > 18 && !vstd::utf8::is_char_boundary(b, di + 19)
}

/// ASCII text is never cut inside a character: each of its bytes is a
/// character of its own.
pub proof fn lemma_ascii_text_is_never_cut(s: Seq<char>)
    requires
        vstd::utf8::is_ascii_chars(s),
    ensures
        !ether_cut_splits_char(vstd::utf8::encode_utf8(s)),
{
    let b = vstd::utf8::encode_utf8(s);
    vstd::utf8::is_ascii_chars_encode_utf8(s);
    vstd::utf8::encode_utf8_valid_utf8(s);
    vstd::utf8::is_ascii_chars_nat_bound(s);
    assert forall|k: int| 0 <= k < b.len() implies vstd::utf8::is_char_boundary(b, k) by {
        vstd::utf8::is_char_boundary_iff_not_is_continuation_byte(b, k);
        assert((s[k] as nat) < 128);
        assert(b[k] == s[k] as u8);
    }
}

/// `p` is the position of the first point of `s`.
pub open spec fn first_point(s: Seq<char>, p: int) -> bool {
    0 <= p < s.len() && s[p] == '.' && forall|j: int| 0 <= j < p ==> s[j] != '.'
}

/// Whether `parse_ether` reads the whole text: it has no point, or at most
/// eighteen bytes of UTF-8 after its first one, so nothing is cut off.
pub open spec fn ether_text_kept_whole(s: Seq<char>) -> bool {
    forall|p: int| #[trigger] first_point(s, p) ==> vstd::utf8::encode_utf8(s.subrange(p + 1, s.len() as int)).len() <= 18
}

/// The characters `parse_ether` can read at position `i`: a digit, an
/// underscore, a minus sign in front, or the first point.
pub open spec fn ether_char_allowed(s: Seq<char>, i: int) -> bool {
    is_digit(s[i]) || s[i] == '_' || (s[i] == '-' && i == 0) || first_point(s, i)
}

/// Whether the text holds a character that `parse_ether` cannot read.
pub open spec fn ether_text_has_stray_char(s: Seq<char>) -> bool {
    exists|i: int| 0 <= i < s.len() && !#[trigger] ether_char_allowed(s, i)
}

/// Tells, before calling `parse_ether`, whether it would cut a character in two.
pub fn parse_ether_splits_char(s: &str) -> (r: bool)
    ensures
        r == ether_cut_splits_char(s.spec_bytes()),
{
    let b = s.as_bytes();
    let ghost bs = s.spec_bytes();
    let mut i: usize = 0;
    while i < b.len()
        invariant
            b@ == bs,
            bs == s.spec_bytes(),
            i <= b.len(),
            forall|j: int| 0 <= j < i ==> bs[j] != 46u8,
        decreases b.len() - i,
    {
        if b[i] == 46u8 {
            if b.len() - 1 - i > 18 {
                let r = !s.is_char_boundary(i + 19);
                proof {
                    assert(r == !vstd::utf8::is_char_boundary(bs, i + 19));
                    if r {
                        assert(bs[i as int] == 46u8);
                    } else {
                        assert forall|di: int|
                            0 <= di < bs.len() && bs[di] == 46u8 && (forall|j: int| 0 <= j < di ==> bs[j] != 46u8)
                            implies !(bs.len() - 1 - di > 18 && !vstd::utf8::is_char_boundary(bs, di + 19)) by {
                            if di < i {
                            } else if di > i {
                                assert(bs[i as int] != 46u8);
                            }
                        }
                    }
                }
                return r;
            } else {
                proof {
                    assert forall|di: int|
                        0 <= di < bs.len() && bs[di] == 46u8 && (forall|j: int| 0 <= j < di ==> bs[j] != 46u8)
                        implies !(bs.len() - 1 - di > 18 && !vstd::utf8::is_char_boundary(bs, di + 19)) by {
                        if di > i {
                            assert(bs[i as int] != 46u8);
                        }
                    }
                }
                return false;
            }
        }
        i = i + 1;
    }
    false
}

/// Calls alloy's `parse_ether`. Of its result this states, besides naming it,
/// that a plain amount (digits, optionally a point and at most eighteen
/// digits) that fits in 256 bits parses to its value in wei, and that a text
/// read whole is refused when it holds a character other than digits,
/// underscores, a leading minus and the first point (ruint's decimal reader
/// takes only digits and underscores, after alloy removed the sign and the
/// point). Text on which alloy's byte slicing would panic is left out.
#[verifier::external_body]
pub(crate) fn parse_ether_wei(s: &str) -> (r: Option<U256>)
    requires
        !ether_cut_splits_char(s.spec_bytes()),
    ensures
        match parsed_ether(s@) {
            Some(v) => r matches Some(x) && x@ == v,
            None => r is None,
        },
        plain_ether_value(s@) is Some && plain_ether_value(s@)->0 < u256_modulus() ==> r is Some
            && r->0@ == plain_ether_value(s@)->0,
        ether_text_kept_whole(s@) && ether_text_has_stray_char(s@) ==> r is None,
{
    match alloy::primitives::utils::parse_ether(s) {
        Ok(v) => Some(U256 { l0: v.as_limbs()[0], l1: v.as_limbs()[1], l2: v.as_limbs()[2], l3: v.as_limbs()[3] }),
        Err(_) => None,
    }
}

/// The decimal digits of a number, without leading zeros ("0" for zero).
pub open spec fn decimal_text(n: nat) -> Seq<char>
    decreases n,
{
    if n < 10 {
        seq![digit_char(n)]
    } else {
        decimal_text(n / 10).push(digit_char(n % 10))
    }
}

/// The character of a digit below ten.
pub open spec fn digit_char(d: nat) -> char {
    ('0' as u32 + d) as char
}

/// Text padded on the left with zeros to `width` characters.
pub open spec fn zero_pad_left(s: Seq<char>, width: nat) -> Seq<char> {
    if s.len() >= width {
        s
    } else {
        Seq::new((width - s.len()) as nat, |i: int| '0') + s
    }
}

/// An amount of wei written in ether: whole ether, a point, and the wei
/// remainder as eighteen digits.
pub open spec fn ether_text(wei: nat) -> Seq<char> {
    decimal_text(wei / pow10(ether_decimals())) + seq!['.'] + zero_pad_left(
        decimal_text(wei % pow10(ether_decimals())),
        ether_decimals(),
    )
}

/// Calls alloy's `format_ether`, which writes `amount / 10^18`, a point, and
/// `amount % 10^18` zero-padded to eighteen digits.
#[verifier::external_body]
pub(crate) fn format_ether(amount: &U256) -> (r: String)
    ensures
        r@ == ether_text(amount@),
{
    alloy::primitives::utils::format_ether(alloy::primitives::U256::from_limbs(
        [amount.l0, amount.l1, amount.l2, amount.l3],
    ))
}

/// Text with every trailing `c` taken off.
pub open spec fn trim_end_char(s: Seq<char>, c: char) -> Seq<char>
    decreases s.len(),
{
    if s.len() > 0 && s.last() == c {
        trim_end_char(s.drop_last(), c)
    } else {
        s
    }
}

/// An amount in ether the way people write it: trailing zeros of the fraction
/// dropped, and the point too when nothing follows it.
pub open spec fn ether_short_text(wei: nat) -> Seq<char> {
    trim_end_char(trim_end_char(ether_text(wei), '0'), '.')
}

/// The length of `s` once every trailing `c` is taken off.
fn trimmed_len(s: &str, c: char) -> (r: usize)
    ensures
        r <= s@.len(),
        s@.subrange(0, r as int) == trim_end_char(s@, c),
{
    let mut n = s.unicode_len();
    proof {
        assert(s@.subrange(0, n as int) =~= s@);
    }
    while n > 0 && s.get_char(n - 1) == c
        invariant
            n <= s@.len(),
            trim_end_char(s@.subrange(0, n as int), c) == trim_end_char(s@, c),
        decreases n,
    {
        proof {
            assert(s@.subrange(0, n as int).drop_last() =~= s@.subrange(0, n - 1));
        }
        n = n - 1;
    }
    n
}

/// Text with every trailing `c` taken off.
pub fn trim_end_matches_char(s: &str, c: char) -> (r: String)
    ensures
        r@ == trim_end_char(s@, c),
{
    let n = trimmed_len(s, c);
    String::from_str(s.substring_char(0, n))
}

/// An amount of wei written in ether with trailing zeros (and a bare point) dropped,
/// e.g. "0.001" for 10^15 wei and "1" for 10^18 wei.
pub fn format_ether_short(amount: &U256) -> (r: String)
    ensures
        r@ == ether_short_text(amount@),
{
    let full = format_ether(amount);
    let no_zeros = trim_end_matches_char(full.as_str(), '0');
    trim_end_matches_char(no_zeros.as_str(), '.')
}

/// What a base-10 text stands for as a 256-bit number: digits with any
/// underscores ignored (the empty text is 0); `None` for any other character
/// or a value of 2^256 or more.
pub open spec fn decimal_u256_value(s: Seq<char>) -> Option<nat> {
    let digits = s.filter(|c: char| c != '_');
    if (forall|i: int| 0 <= i < s.len() ==> is_digit(#[trigger] s[i]) || s[i] == '_') && digits_value(
        digits,
    ) < u256_modulus() {
        Some(digits_value(digits))
    } else {
        None
    }
}

/// The message of ruint's error for a text that is not a base-10 number
/// below 2^256 (which character was wrong, or that the value overflowed).
pub uninterp spec fn decimal_parse_error_text(s: Seq<char>) -> Seq<char>;

/// Calls ruint's `U256::from_str_radix(s, 10)`, which reads ASCII digits,
/// skips underscores and fails on anything else or on overflow. On failure
/// it hands back the text of ruint's error, which is named, not spelt out.
#[verifier::external_body]
pub(crate) fn parse_decimal_u256(s: &str) -> (r: Result<U256, String>)
    ensures
        match decimal_u256_value(s@) {
            Some(v) => r matches Ok(x) && x@ == v,
            None => r matches Err(m) && m@ == decimal_parse_error_text(s@),
        },
{
    match alloy::primitives::U256::from_str_radix(s, 10) {
        Ok(v) => Ok(U256 { l0: v.as_limbs()[0], l1: v.as_limbs()[1], l2: v.as_limbs()[2], l3: v.as_limbs()[3] }),
        Err(e) => Err(e.to_string()),
    }
}

} // verus!
