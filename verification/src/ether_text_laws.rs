//! How the short ether text of an amount reads back: the text that
//! `format_ether_short` writes is a plain ether amount worth exactly the
//! amount it was written for.
use crate::u256::u256_modulus;
use crate::units::{
    all_digits, decimal_text, digit_char, digit_value, digits_value, ether_decimals, ether_short_text,
    ether_cut_splits_char, ether_text, is_digit, lemma_ascii_text_is_never_cut, plain_ether_split, plain_ether_value, plain_ether_wei, pow10, trim_end_char,
    zero_pad_left,
};
use vstd::arithmetic::div_mod::lemma_fundamental_div_mod;
use vstd::arithmetic::mul::lemma_mul_is_associative;
use vstd::prelude::*;
use vstd::utf8::{encode_utf8, is_ascii_chars};

verus! {

proof fn lemma_digit_char(d: nat)
    requires
        d < 10,
    ensures
        is_digit(digit_char(d)),
        digit_value(digit_char(d)) == d,
{
    assert(('0' as u32 + d) as char as u32 == '0' as u32 + d);
}

proof fn lemma_pow10_positive(k: nat)
    ensures
        pow10(k) >= 1,
    decreases k,
{
    if k > 0 {
        lemma_pow10_positive((k - 1) as nat);
    }
}

/// The decimal text of a number is made of digits, is not empty, and reads
/// back as the number.
proof fn lemma_decimal_text(n: nat)
    ensures
        all_digits(decimal_text(n)),
        decimal_text(n).len() >= 1,
        digits_value(decimal_text(n)) == n,
    decreases n,
{
    if n < 10 {
        lemma_digit_char(n);
        let s = decimal_text(n);
        assert(s.drop_last() =~= Seq::<char>::empty());
        assert(digits_value(s) == 10 * digits_value(s.drop_last()) + digit_value(s.last()));
        assert(digits_value(Seq::<char>::empty()) == 0);
    } else {
        lemma_fundamental_div_mod(n as int, 10);
        lemma_decimal_text(n / 10);
        lemma_digit_char(n % 10);
        let t = decimal_text(n / 10);
        let s = decimal_text(n);
        assert(s == t.push(digit_char(n % 10)));
        assert(s.drop_last() =~= t);
        assert(s.last() == digit_char(n % 10));
        assert(digits_value(s) == 10 * digits_value(t) + digit_value(digit_char(n % 10)));
        assert(digits_value(s) == 10 * (n / 10) + n % 10);
        assert forall|i: int| 0 <= i < s.len() implies is_digit(#[trigger] s[i]) by {
            if i < t.len() {
                assert(s[i] == t[i]);
            }
        }
    }
}

/// A number below 10^k has at most k decimal digits.
proof fn lemma_decimal_text_len(n: nat, k: nat)
    requires
        k >= 1,
        n < pow10(k),
    ensures
        decimal_text(n).len() <= k,
    decreases n,
{
    if n >= 10 {
        lemma_fundamental_div_mod(n as int, 10);
        assert(pow10(k) == 10 * pow10((k - 1) as nat));
        if k == 1 {
            assert(pow10(0) == 1);
        } else {
            lemma_decimal_text_len(n / 10, (k - 1) as nat);
        }
    }
}

/// Reading a concatenation: the first part shifted left by the second's length.
proof fn lemma_digits_value_concat(a: Seq<char>, b: Seq<char>)
    ensures
        digits_value(a + b) == digits_value(a) * pow10(b.len()) + digits_value(b),
    decreases b.len(),
{
    if b.len() == 0 {
        assert(a + b =~= a);
        assert(pow10(0) == 1);
        assert(digits_value(b) == 0);
        assert(digits_value(a) * pow10(b.len()) == digits_value(a));
    } else {
        let b1 = b.drop_last();
        lemma_digits_value_concat(a, b1);
        assert((a + b).drop_last() =~= a + b1);
        assert((a + b).last() == b.last());
        lemma_mul_is_associative(10, digits_value(a) as int, pow10(b1.len()) as int);
        assert(pow10(b.len()) == 10 * pow10(b1.len()));
        assert(digits_value(a) * pow10(b.len()) == 10 * (digits_value(a) * pow10(b1.len()))) by (nonlinear_arith)
            requires
                pow10(b.len()) == 10 * pow10(b1.len()),
        ;
        assert(digits_value(a + b) == 10 * digits_value(a + b1) + digit_value(b.last()));
        assert(digits_value(b) == 10 * digits_value(b1) + digit_value(b.last()));
    }
}

/// A run of zeros reads as 0.
proof fn lemma_zeros_value(k: nat)
    ensures
        digits_value(Seq::new(k, |i: int| '0')) == 0,
    decreases k,
{
    if k > 0 {
        lemma_zeros_value((k - 1) as nat);
        assert(Seq::new(k, |i: int| '0').drop_last() =~= Seq::new((k - 1) as nat, |i: int| '0'));
    }
}

/// A text is its trimmed part followed by the trimmed characters, and the
/// trimmed part does not end in the trimmed character.
proof fn lemma_trim_split(s: Seq<char>, c: char)
    ensures
        s =~= trim_end_char(s, c) + Seq::new((s.len() - trim_end_char(s, c).len()) as nat, |i: int| c),
        trim_end_char(s, c).len() <= s.len(),
        trim_end_char(s, c).len() == 0 || trim_end_char(s, c).last() != c,
    decreases s.len(),
{
    if s.len() > 0 && s.last() == c {
        lemma_trim_split(s.drop_last(), c);
        let t = trim_end_char(s, c);
        assert(t == trim_end_char(s.drop_last(), c));
        let k = (s.drop_last().len() - t.len()) as nat;
        assert(Seq::new(k, |i: int| c).push(c) =~= Seq::new(k + 1, |i: int| c));
        assert(s =~= s.drop_last().push(s.last()));
    }
}

/// Trimming a concatenation trims into the first part only when the second
/// part trims away entirely.
proof fn lemma_trim_concat(a: Seq<char>, b: Seq<char>, c: char)
    ensures
        trim_end_char(b, c).len() > 0 ==> trim_end_char(a + b, c) == a + trim_end_char(b, c),
        trim_end_char(b, c).len() == 0 ==> trim_end_char(a + b, c) == trim_end_char(a, c),
    decreases b.len(),
{
    if b.len() == 0 {
        assert(a + b =~= a);
    } else {
        assert((a + b).drop_last() =~= a + b.drop_last());
        assert((a + b).last() == b.last());
        lemma_trim_concat(a, b.drop_last(), c);
    }
}

/// A run of zeros trims away entirely.
proof fn lemma_trim_all(k: nat)
    ensures
        trim_end_char(Seq::new(k, |i: int| '0'), '0').len() == 0,
    decreases k,
{
    if k > 0 {
        lemma_trim_all((k - 1) as nat);
        assert(Seq::new(k, |i: int| '0').drop_last() =~= Seq::new((k - 1) as nat, |i: int| '0'));
    }
}

/// Every character of a prefix of a digit string is a digit.
proof fn lemma_all_digits_prefix(s: Seq<char>, n: int)
    requires
        all_digits(s),
        0 <= n <= s.len(),
    ensures
        all_digits(s.subrange(0, n)),
{
    assert forall|i: int| 0 <= i < n implies is_digit(#[trigger] s.subrange(0, n)[i]) by {
        assert(s.subrange(0, n)[i] == s[i]);
    }
}

/// The only way to split `d` or `d . f` (digits `d`, `f`) as a plain amount is after `d`.
proof fn lemma_split_is_unique(t: Seq<char>, d: Seq<char>)
    requires
        all_digits(d),
        d.len() >= 1,
        d.len() <= t.len(),
        t.subrange(0, d.len() as int) == d,
        d.len() < t.len() ==> t[d.len() as int] == '.',
    ensures
        forall|p: int| plain_ether_split(t, p) ==> p == d.len(),
{
    assert forall|p: int| plain_ether_split(t, p) implies p == d.len() by {
        if p > d.len() {
            assert(t.subrange(0, p)[d.len() as int] == t[d.len() as int]);
        } else if p < d.len() {
            assert(t[p] == d[p]);
        }
    }
}

/// What `format_ether_short` writes reads back as a plain ether amount worth
/// the amount it was written for: shown fees and amounts are exact. The text
/// is ASCII, so alloy's parser never cuts it inside a character.
pub proof fn law_short_ether_text_reads_back(v: nat)
    requires
        v < u256_modulus(),
    ensures
        plain_ether_value(ether_short_text(v)) == Some(v),
        is_ascii_chars(ether_short_text(v)),
        !ether_cut_splits_char(encode_utf8(ether_short_text(v))),
        ether_short_text(v).len() > 0,
        ether_short_text(v).last() != '.',
        (exists|i: int| 0 <= i < ether_short_text(v).len() && #[trigger] ether_short_text(v)[i] == '.')
            ==> ether_short_text(v).last() != '0',
        v % pow10(ether_decimals()) == 0 ==> forall|i: int|
            0 <= i < ether_short_text(v).len() ==> #[trigger] ether_short_text(v)[i] != '.',
{
    let n = pow10(ether_decimals());
    lemma_pow10_positive(ether_decimals());
    lemma_fundamental_div_mod(v as int, n as int);
    let q = v / n;
    let m = v % n;
    let d = decimal_text(q);
    let mt = decimal_text(m);
    lemma_decimal_text(q);
    lemma_decimal_text(m);
    lemma_decimal_text_len(m, ether_decimals());
    let z = Seq::new((ether_decimals() - mt.len()) as nat, |i: int| '0');
    let p = zero_pad_left(mt, ether_decimals());
    assert(p =~= z + mt);
    lemma_digits_value_concat(z, mt);
    lemma_zeros_value((ether_decimals() - mt.len()) as nat);
    assert(digits_value(p) == m);
    assert(p.len() == ether_decimals());
    assert(all_digits(p)) by {
        assert forall|i: int| 0 <= i < p.len() implies is_digit(#[trigger] p[i]) by {
            if i >= z.len() {
                assert(p[i] == mt[i - z.len()]);
            }
        }
    }
    let dot = seq!['.'];
    let t = ether_text(v);
    assert(t == d + dot + p);
    let pt = trim_end_char(p, '0');
    lemma_trim_split(p, '0');
    let k = (p.len() - pt.len()) as nat;
    lemma_digits_value_concat(pt, Seq::new(k, |i: int| '0'));
    lemma_zeros_value(k);
    lemma_all_digits_prefix(p, pt.len() as int);
    assert(p.subrange(0, pt.len() as int) =~= pt);
    lemma_trim_concat(d + dot, p, '0');
    if pt.len() > 0 {
        let t1 = d + dot + pt;
        assert(trim_end_char(t, '0') == t1);
        assert(pt.last() != '0');
        assert(is_digit(pt.last())) by {
            assert(pt.last() == pt[pt.len() - 1]);
        }
        assert(t1.last() == pt.last());
        assert(trim_end_char(t1, '.') == t1);
        assert(ether_short_text(v) == t1);
        let dl = d.len() as int;
        assert(t1.subrange(0, dl) =~= d);
        assert(t1[dl] == '.');
        assert(t1.subrange(dl + 1, t1.len() as int) =~= pt);
        assert(plain_ether_split(t1, dl));
        lemma_split_is_unique(t1, d);
        let c = choose|p: int| plain_ether_split(t1, p);
        assert(c == dl);
        assert(digits_value(p) == digits_value(pt) * pow10(k));
        assert(pow10((ether_decimals() - pt.len()) as nat) == pow10(k));
        assert(plain_ether_wei(t1, dl) == q * n + m);
        assert(all_digits(pt));
        assert forall|i: int| 0 <= i < t1.len() implies '\0' <= #[trigger] t1[i] <= '\u{7f}' by {
            if i < dl {
                assert(t1[i] == d[i]);
                assert(is_digit(d[i]));
            } else if i > dl {
                assert(t1[i] == pt[i - dl - 1]);
                assert(is_digit(pt[i - dl - 1]));
            }
        }
        lemma_ascii_text_is_never_cut(t1);
        assert(m != 0) by {
            if m == 0 {
                lemma_zeros_value(p.len());
                assert(p =~= Seq::new(p.len(), |i: int| '0')) by {
                    assert forall|i: int| 0 <= i < p.len() implies p[i] == '0' by {
                        if i < z.len() {
                        } else {
                            assert(mt == decimal_text(0));
                        }
                    }
                }
                assert(trim_end_char(p, '0').len() == 0) by {
                    lemma_trim_all(p.len());
                }
            }
        }
    } else {
        assert(trim_end_char(t, '0') == trim_end_char(d + dot, '0'));
        assert((d + dot).last() == '.');
        assert(trim_end_char(d + dot, '0') == d + dot);
        assert((d + dot).drop_last() =~= d);
        assert(trim_end_char(d + dot, '.') == trim_end_char(d, '.'));
        assert(d.last() != '.') by {
            assert(is_digit(d[d.len() - 1]));
        }
        assert(trim_end_char(d, '.') == d);
        assert(ether_short_text(v) == d);
        assert(digits_value(p) == 0);
        assert(m == 0);
        assert(d.subrange(0, d.len() as int) =~= d);
        assert(plain_ether_split(d, d.len() as int));
        lemma_split_is_unique(d, d);
        let c = choose|p: int| plain_ether_split(d, p);
        assert(c == d.len());
        assert(plain_ether_wei(d, d.len() as int) == q * n);
        assert forall|i: int| 0 <= i < d.len() implies '\0' <= #[trigger] d[i] <= '\u{7f}' by {
            assert(is_digit(d[i]));
        }
        lemma_ascii_text_is_never_cut(d);
        assert(d.last() == d[d.len() - 1]);
        assert(is_digit(d[d.len() - 1]));
    }
}

/// What a plain ether amount is worth: whole ether `d` is `d * 10^18` wei;
/// `d.f` with at most eighteen fraction digits adds `f` scaled to the
/// eighteenth decimal; with more fraction digits the text is no plain amount.
pub proof fn law_plain_amount_values(d: Seq<char>, f: Seq<char>)
    requires
        all_digits(d),
        d.len() >= 1,
        all_digits(f),
    ensures
        pow10(ether_decimals()) == 1_000_000_000_000_000_000,
        plain_ether_value(d) == Some(digits_value(d) * 1_000_000_000_000_000_000),
        f.len() <= 18 ==> plain_ether_value(d + seq!['.'] + f) == Some(
            digits_value(d) * 1_000_000_000_000_000_000 + digits_value(f) * pow10((18 - f.len()) as nat),
        ),
        f.len() > 18 ==> plain_ether_value(d + seq!['.'] + f) is None,
{
    reveal_with_fuel(pow10, 19);
    assert(pow10(18) == 1_000_000_000_000_000_000);
    let dl = d.len() as int;
    assert(d.subrange(0, dl) =~= d);
    lemma_split_is_unique(d, d);
    assert(plain_ether_split(d, dl));
    let c = choose|p: int| plain_ether_split(d, p);
    assert(c == dl);
    let t = d + seq!['.'] + f;
    assert(t.subrange(0, dl) =~= d);
    assert(t[dl] == '.');
    assert(t.subrange(dl + 1, t.len() as int) =~= f);
    lemma_split_is_unique(t, d);
    if f.len() <= 18 {
        assert(plain_ether_split(t, dl));
        let c2 = choose|p: int| plain_ether_split(t, p);
        assert(c2 == dl);
    } else {
        assert(!plain_ether_split(t, dl));
        assert(!exists|p: int| plain_ether_split(t, p));
    }
}

} // verus!
