//! Hex numerals over ASCII bytes: what hex encoding and decoding produce,
//! the value a numeral denotes, and the uppercase numeral of a number.

use vstd::prelude::*;

verus! {

/// ASCII codes of the hex digits' end points.
pub const DIGIT_0: u8 = 48;
pub const DIGIT_9: u8 = 57;
pub const LOWER_A: u8 = 97;
pub const LOWER_F: u8 = 102;
pub const UPPER_A: u8 = 65;
pub const UPPER_F: u8 = 70;

/// The ASCII lowercase hex digit of a value below 16.
pub open spec fn hex_digit(v: u8) -> u8 {
    if v < 10 {
        (48 + v) as u8
    } else {
        (87 + v) as u8
    }
}

/// Lowercase hex encoding: two digits per byte, high half first.
pub open spec fn hex_lower(s: Seq<u8>) -> Seq<u8>
    decreases s.len(),
{
    if s.len() == 0 {
        seq![]
    } else {
        hex_lower(s.drop_last()) + seq![hex_digit(s.last() / 16), hex_digit(s.last() % 16)]
    }
}

/// Whether `c` is an ASCII hex digit of either case.
pub open spec fn is_hex_digit(c: u8) -> bool {
    (DIGIT_0 <= c <= DIGIT_9) || (LOWER_A <= c <= LOWER_F) || (UPPER_A <= c <= UPPER_F)
}

/// The value of an ASCII hex digit.
pub open spec fn hex_digit_value(c: u8) -> int {
    if DIGIT_0 <= c <= DIGIT_9 {
        c - DIGIT_0
    } else if LOWER_A <= c <= LOWER_F {
        c - LOWER_A + 10
    } else {
        c - UPPER_A + 10
    }
}

/// The number a string of hex digits denotes, most significant digit first.
pub open spec fn hex_value(s: Seq<u8>) -> int
    decreases s.len(),
{
    if s.len() == 0 {
        0
    } else {
        hex_value(s.drop_last()) * 16 + hex_digit_value(s.last())
    }
}

/// Relies on hex::encode: each byte becomes two lowercase hex digits, high
/// half first.
#[verifier::external_body]
pub(crate) fn hex_encode(data: &[u8]) -> (r: Vec<u8>)
    ensures
        r@ == hex_lower(data@),
{
    hex::encode(data).into_bytes()
}

/// The number a string of at most four hex digits denotes.
pub(crate) fn parse_hex(digits: &Vec<u8>) -> (r: u32)
    requires
        digits@.len() <= 4,
        all_hex_digits(digits@),
    ensures
        r == hex_value(digits@),
{
    let mut acc: u32 = 0;
    let mut i: usize = 0;
    while i < digits.len()
        invariant
            i <= digits@.len() <= 4,
            forall|j: int| 0 <= j < digits@.len() ==> is_hex_digit(#[trigger] digits@[j]),
            acc == hex_value(digits@.take(i as int)),
            acc < pow16(i as nat),
        decreases digits@.len() - i,
    {
        let c = digits[i];
        let d: u32 = if DIGIT_0 <= c && c <= DIGIT_9 {
            (c - DIGIT_0) as u32
        } else if LOWER_A <= c && c <= LOWER_F {
            (c - LOWER_A + 10) as u32
        } else {
            (c - UPPER_A + 10) as u32
        };
        assert(digits@.take(i + 1).drop_last() =~= digits@.take(i as int));
        assert(pow16((i + 1) as nat) == 16 * pow16(i as nat));
        assert(pow16(i as nat) <= 4096) by {
            assert(pow16(0) == 1);
            assert(pow16(1) == 16);
            assert(pow16(2) == 256);
            assert(pow16(3) == 4096);
        }
        acc = acc * 16 + d;
        i = i + 1;
    }
    assert(digits@.take(digits@.len() as int) =~= digits@);
    acc
}

/// Sixteen to the power `n`.
pub open spec fn pow16(n: nat) -> nat
    decreases n,
{
    if n == 0 {
        1
    } else {
        16 * pow16((n - 1) as nat)
    }
}

/// A lowercase digit is a hex digit that reads back as its value.
pub(crate) proof fn lemma_digit_round_trip(v: u8)
    requires
        0 <= v < 16,
    ensures
        is_hex_digit(hex_digit(v)),
        hex_digit_value(hex_digit(v)) == v,
{
}

/// The encoding of two bytes is four hex digits that denote the two bytes
/// read as a big-endian number.
pub(crate) proof fn lemma_hex_of_pair(s: Seq<u8>)
    requires
        s.len() == 2,
    ensures
        hex_lower(s).len() == 4,
        all_hex_digits(hex_lower(s)),
        hex_value(hex_lower(s)) == s[0] * 256 + s[1],
{
    let b0 = s[0];
    let b1 = s[1];
    let h = seq![hex_digit(b0 / 16), hex_digit(b0 % 16), hex_digit(b1 / 16), hex_digit(b1 % 16)];
    assert(s.drop_last() =~= seq![b0]);
    assert(s.last() == b1);
    assert(seq![b0].drop_last() =~= Seq::<u8>::empty());
    assert(hex_lower(Seq::<u8>::empty()) =~= Seq::<u8>::empty());
    assert(hex_lower(seq![b0]) =~= seq![hex_digit(b0 / 16), hex_digit(b0 % 16)]);
    assert(hex_lower(s) =~= h);
    lemma_digit_round_trip(b0 / 16);
    lemma_digit_round_trip(b0 % 16);
    lemma_digit_round_trip(b1 / 16);
    lemma_digit_round_trip(b1 % 16);
    assert(h.drop_last() =~= seq![h[0], h[1], h[2]]);
    assert(seq![h[0], h[1], h[2]].drop_last() =~= seq![h[0], h[1]]);
    assert(seq![h[0], h[1]].drop_last() =~= seq![h[0]]);
    assert(seq![h[0]].drop_last() =~= Seq::<u8>::empty());
    let v0 = hex_value(seq![h[0]]);
    let v1 = hex_value(seq![h[0], h[1]]);
    let v2 = hex_value(seq![h[0], h[1], h[2]]);
    assert(hex_value(Seq::<u8>::empty()) == 0);
    assert(v0 == b0 / 16);
    assert(v1 == v0 * 16 + b0 % 16);
    assert(v2 == v1 * 16 + b1 / 16);
    assert(hex_value(h) == v2 * 16 + b1 % 16);
}

/// The ASCII uppercase hex digit of a value below 16.
pub open spec fn upper_digit(v: nat) -> u8 {
    if v < 10 {
        (48 + v) as u8
    } else {
        (55 + v) as u8
    }
}

/// The uppercase hex numeral of `n`, without leading zeros.
pub open spec fn upper_hex(n: nat) -> Seq<u8>
    decreases n,
{
    if n < 16 {
        seq![upper_digit(n)]
    } else {
        upper_hex(n / 16) + seq![upper_digit(n % 16)]
    }
}

/// Appends the uppercase hex numeral of `n` to `out`.
pub(crate) fn append_upper_hex(out: &mut Vec<u8>, n: u32)
    ensures
        final(out)@ == old(out)@ + upper_hex(n as nat),
    decreases n,
{
    if n >= 16 {
        append_upper_hex(out, n / 16);
    }
    let d = (n % 16) as u8;
    let c: u8 = if d < 10 {
        DIGIT_0 + d
    } else {
        UPPER_A + (d - 10)
    };
    out.push(c);
    assert(final(out)@ =~= old(out)@ + upper_hex(n as nat));
}

/// An uppercase digit is a hex digit that reads back as its value.
pub(crate) proof fn lemma_upper_digit(v: nat)
    requires
        v < 16,
    ensures
        is_hex_digit(upper_digit(v)),
        hex_digit_value(upper_digit(v)) == v,
{
}

/// The uppercase numeral of `n` is made of hex digits, denotes `n`, and has
/// as many digits as `n` needs.
pub(crate) proof fn lemma_upper_hex(n: nat)
    ensures
        all_hex_digits(upper_hex(n)),
        hex_value(upper_hex(n)) == n,
        n < 16 ==> upper_hex(n).len() == 1,
        16 <= n < 256 ==> upper_hex(n).len() == 2,
        256 <= n < 4096 ==> upper_hex(n).len() == 3,
        4096 <= n < 65536 ==> upper_hex(n).len() == 4,
        65536 <= n ==> upper_hex(n).len() >= 5,
    decreases n,
{
    lemma_upper_digit(n % 16);
    if n < 16 {
        assert(upper_hex(n).drop_last() =~= Seq::<u8>::empty());
        assert(hex_value(Seq::<u8>::empty()) == 0);
        assert(n % 16 == n);
        assert(hex_value(upper_hex(n)) == n);
    } else {
        lemma_upper_hex(n / 16);
        let s = upper_hex(n);
        assert(s.drop_last() =~= upper_hex(n / 16));
        assert(s.last() == upper_digit(n % 16));
        assert(hex_value(s) == hex_value(upper_hex(n / 16)) * 16 + hex_digit_value(upper_digit(n % 16)));
        assert(hex_value(s) == (n / 16) * 16 + n % 16);
        assert(hex_value(s) == n);
        assert(forall|i: int| 0 <= i < s.len() ==> is_hex_digit(#[trigger] s[i])) by {
            assert forall|i: int| 0 <= i < s.len() implies is_hex_digit(#[trigger] s[i]) by {
                if i < s.len() - 1 {
                    assert(s[i] == upper_hex(n / 16)[i]);
                }
            }
        }
    }
}

/// Whether every byte of `s` is an ASCII hex digit.
pub open spec fn all_hex_digits(s: Seq<u8>) -> bool {
    forall|i: int| 0 <= i < s.len() ==> is_hex_digit(#[trigger] s[i])
}

/// Hex decoding: each pair of digits, high half first, becomes one byte.
pub open spec fn hex_pairs(s: Seq<u8>) -> Seq<u8>
    decreases s.len(),
{
    if s.len() < 2 {
        seq![]
    } else {
        hex_pairs(s.subrange(0, s.len() - 2)) + seq![
            (hex_digit_value(s[s.len() - 2]) * 16 + hex_digit_value(s[s.len() - 1])) as u8,
        ]
    }
}

/// Relies on hex::decode: it fails on an odd number of digits or on a byte
/// that is no hex digit of either case, and otherwise turns each pair of
/// digits into one byte, high half first.
#[verifier::external_body]
pub(crate) fn hex_decode(digits: &Vec<u8>) -> (r: Option<Vec<u8>>)
    ensures
        r.is_some() == (digits@.len() % 2 == 0 && all_hex_digits(digits@)),
        r matches Some(v) ==> v@ == hex_pairs(digits@),
{
    hex::decode(digits).ok()
}

/// Decoding halves the number of digits, rounding down.
pub(crate) proof fn lemma_hex_pairs_len(s: Seq<u8>)
    ensures
        hex_pairs(s).len() == s.len() / 2,
    decreases s.len(),
{
    if s.len() >= 2 {
        lemma_hex_pairs_len(s.subrange(0, s.len() - 2));
    }
}

/// Four hex digits decode to two bytes that, read as a big-endian number,
/// are the number the digits denote.
pub(crate) proof fn lemma_four_digits(s: Seq<u8>)
    requires
        s.len() == 4,
        all_hex_digits(s),
    ensures
        hex_pairs(s).len() == 2,
        hex_value(s) == hex_pairs(s)[0] * 256 + hex_pairs(s)[1],
{
    let v0 = hex_digit_value(s[0]);
    let v1 = hex_digit_value(s[1]);
    let v2 = hex_digit_value(s[2]);
    let v3 = hex_digit_value(s[3]);
    assert(is_hex_digit(s[0]) && is_hex_digit(s[1]) && is_hex_digit(s[2]) && is_hex_digit(s[3]));
    let t = s.subrange(0, 2);
    assert(t[0] == s[0] && t[1] == s[1]);
    assert(t.subrange(0, 0) =~= Seq::<u8>::empty());
    assert(hex_pairs(Seq::<u8>::empty()) =~= Seq::<u8>::empty());
    assert(hex_pairs(s.subrange(0, 2)) =~= seq![(v0 * 16 + v1) as u8]);
    assert(hex_pairs(s) =~= seq![(v0 * 16 + v1) as u8, (v2 * 16 + v3) as u8]);
    assert(s.drop_last() =~= seq![s[0], s[1], s[2]]);
    assert(seq![s[0], s[1], s[2]].drop_last() =~= seq![s[0], s[1]]);
    assert(seq![s[0], s[1]].drop_last() =~= seq![s[0]]);
    assert(seq![s[0]].drop_last() =~= Seq::<u8>::empty());
    let w0 = hex_value(seq![s[0]]);
    let w1 = hex_value(seq![s[0], s[1]]);
    let w2 = hex_value(seq![s[0], s[1], s[2]]);
    assert(hex_value(Seq::<u8>::empty()) == 0);
    assert(w0 == v0);
    assert(w1 == w0 * 16 + v1);
    assert(w2 == w1 * 16 + v2);
    assert(hex_value(s) == w2 * 16 + v3);
}

} // verus!
