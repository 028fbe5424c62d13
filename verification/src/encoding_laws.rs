//! What the encodings keep: each text determines the value that it was written from.
use vstd::prelude::*;

use crate::encoding;

verus! {

/// The digits of a number denote that number.
proof fn lemma_numeral_of_digits(base: nat, n: nat)
    requires
        base >= 2,
    ensures
        encoding::numeral(base, encoding::digits(base, n)) == n,
    decreases n,
{
    if n > 0 {
        vstd::arithmetic::div_mod::lemma_div_decreases(n as int, base as int);
        lemma_numeral_of_digits(base, n / base);
        let s = encoding::digits(base, n);
        assert(s.drop_last() =~= encoding::digits(base, n / base));
        vstd::arithmetic::div_mod::lemma_fundamental_div_mod(n as int, base as int);
        vstd::arithmetic::mul::lemma_mul_is_commutative((n / base) as int, base as int);
    }
}

/// Every digit is below the base.
proof fn lemma_digits_below_base(base: nat, n: nat)
    requires
        base >= 2,
    ensures
        forall|i: int|
            0 <= i < encoding::digits(base, n).len() ==> #[trigger] encoding::digits(base, n)[i]
                < base,
    decreases n,
{
    if n > 0 {
        vstd::arithmetic::div_mod::lemma_div_decreases(n as int, base as int);
        lemma_digits_below_base(base, n / base);
        vstd::arithmetic::div_mod::lemma_mod_bound(n as int, base as int);
        let high = encoding::digits(base, n / base);
        let all = encoding::digits(base, n);
        assert(all =~= high.push(n % base));
        assert forall|i: int| 0 <= i < all.len() implies #[trigger] all[i] < base by {
            if i < high.len() {
                assert(high[i] < base);
            }
        }
    }
}

/// Zeros in front of a numeral do not change its value.
proof fn lemma_numeral_ignores_leading_zeros(base: nat, zeros: nat, s: Seq<nat>)
    ensures
        encoding::numeral(base, Seq::new(zeros, |i: int| 0nat) + s) == encoding::numeral(base, s),
    decreases zeros + s.len(),
{
    let padded = Seq::new(zeros, |i: int| 0nat) + s;
    if s.len() > 0 {
        lemma_numeral_ignores_leading_zeros(base, zeros, s.drop_last());
        assert(padded.drop_last() =~= Seq::new(zeros, |i: int| 0nat) + s.drop_last());
    } else if zeros > 0 {
        let fewer = (zeros - 1) as nat;
        lemma_numeral_ignores_leading_zeros(base, fewer, s);
        assert(padded.drop_last() =~= Seq::new(fewer, |i: int| 0nat) + s);
        assert(encoding::numeral(base, padded.drop_last()) == 0);
        assert(0 * base == 0) by (nonlinear_arith);
    } else {
        assert(padded =~= s);
    }
}

/// Numerals of one length with digits below the base denote different numbers if they differ.
proof fn lemma_numeral_injective(base: nat, a: Seq<nat>, b: Seq<nat>)
    requires
        a.len() == b.len(),
        forall|i: int| 0 <= i < a.len() ==> #[trigger] a[i] < base,
        forall|i: int| 0 <= i < b.len() ==> #[trigger] b[i] < base,
        encoding::numeral(base, a) == encoding::numeral(base, b),
    ensures
        a == b,
    decreases a.len(),
{
    if a.len() > 0 {
        let n = encoding::numeral(base, a);
        let high_a = encoding::numeral(base, a.drop_last());
        let high_b = encoding::numeral(base, b.drop_last());
        assert(a.last() < base && b.last() < base);
        vstd::arithmetic::div_mod::lemma_fundamental_div_mod_converse(
            n as int,
            base as int,
            high_a as int,
            a.last() as int,
        );
        vstd::arithmetic::div_mod::lemma_fundamental_div_mod_converse(
            n as int,
            base as int,
            high_b as int,
            b.last() as int,
        );
        assert forall|i: int| 0 <= i < a.drop_last().len() implies #[trigger] a.drop_last()[i]
            < base by {
            assert(a.drop_last()[i] == a[i]);
        }
        assert forall|i: int| 0 <= i < b.drop_last().len() implies #[trigger] b.drop_last()[i]
            < base by {
            assert(b.drop_last()[i] == b[i]);
        }
        lemma_numeral_injective(base, a.drop_last(), b.drop_last());
        assert(a =~= a.drop_last().push(a.last()));
        assert(b =~= b.drop_last().push(b.last()));
    } else {
        assert(a =~= b);
    }
}

/// Byte strings of one length with the same big-endian value are equal.
proof fn lemma_big_endian_injective(a: Seq<u8>, b: Seq<u8>)
    requires
        a.len() == b.len(),
        encoding::big_endian(a) == encoding::big_endian(b),
    ensures
        a == b,
{
    let da = encoding::byte_digits(a);
    let db = encoding::byte_digits(b);
    lemma_numeral_injective(256, da, db);
    assert forall|i: int| 0 <= i < a.len() implies a[i] == b[i] by {
        assert(da[i] == a[i] as nat);
        assert(db[i] == b[i] as nat);
    }
    assert(a =~= b);
}

/// Base58 digits have different characters, none of them a colon.
proof fn lemma_base58_char(c: nat, d: nat)
    requires
        c < 58,
        d < 58,
    ensures
        encoding::base58_char(c) == encoding::base58_char(d) ==> c == d,
        encoding::base58_char(c) != ':',
{
}

/// The base58 digits of a byte string are below 58 and denote its big-endian value.
proof fn lemma_base58_digits(bytes: Seq<u8>)
    ensures
        encoding::numeral(58, encoding::base58_digits(bytes)) == encoding::big_endian(bytes),
        forall|i: int|
            0 <= i < encoding::base58_digits(bytes).len()
                ==> #[trigger] encoding::base58_digits(bytes)[i] < 58,
{
    let n = encoding::big_endian(bytes);
    lemma_numeral_ignores_leading_zeros(
        58,
        encoding::leading_zeros(bytes),
        encoding::digits(58, n),
    );
    lemma_numeral_of_digits(58, n);
    lemma_digits_below_base(58, n);
}

/// Byte strings of one length with the same base58 text are equal.
pub proof fn base58_injective(a: Seq<u8>, b: Seq<u8>)
    requires
        a.len() == b.len(),
        encoding::base58(a) == encoding::base58(b),
    ensures
        a == b,
{
    let da = encoding::base58_digits(a);
    let db = encoding::base58_digits(b);
    lemma_base58_digits(a);
    lemma_base58_digits(b);
    assert(encoding::base58(a).len() == da.len() && encoding::base58(b).len() == db.len());
    assert forall|i: int| 0 <= i < da.len() implies da[i] == db[i] by {
        assert(encoding::base58(a)[i] == encoding::base58_char(da[i]));
        assert(encoding::base58(b)[i] == encoding::base58_char(db[i]));
        lemma_base58_char(da[i], db[i]);
    }
    assert(da =~= db);
    lemma_big_endian_injective(a, b);
}

/// No base58 text holds a colon.
pub proof fn base58_has_no_colon(bytes: Seq<u8>)
    ensures
        !encoding::base58(bytes).contains(':'),
{
    lemma_base58_digits(bytes);
    let d = encoding::base58_digits(bytes);
    assert forall|i: int| 0 <= i < d.len() implies encoding::base58(bytes)[i] != ':' by {
        lemma_base58_char(d[i], d[i]);
    }
}

/// The decimal digits of a number are below ten and denote it.
proof fn lemma_decimal_digits(n: nat)
    ensures
        encoding::numeral(10, encoding::decimal_digits(n)) == n,
        forall|i: int|
            0 <= i < encoding::decimal_digits(n).len()
                ==> #[trigger] encoding::decimal_digits(n)[i] < 10,
{
    if n == 0 {
        let d = seq![0nat];
        assert(d.drop_last() =~= Seq::<nat>::empty());
        assert(encoding::numeral(10, d.drop_last()) == 0);
        assert(encoding::numeral(10, d) == 0);
    } else {
        lemma_numeral_of_digits(10, n);
        lemma_digits_below_base(10, n);
    }
}

/// Different numbers have different decimal texts.
pub proof fn decimal_injective(m: nat, n: nat)
    requires
        encoding::decimal(m) == encoding::decimal(n),
    ensures
        m == n,
{
    let dm = encoding::decimal_digits(m);
    let dn = encoding::decimal_digits(n);
    lemma_decimal_digits(m);
    lemma_decimal_digits(n);
    assert(encoding::decimal(m).len() == dm.len() && encoding::decimal(n).len() == dn.len());
    assert forall|i: int| 0 <= i < dm.len() implies dm[i] == dn[i] by {
        assert(encoding::decimal(m)[i] == encoding::decimal_char(dm[i]));
        assert(encoding::decimal(n)[i] == encoding::decimal_char(dn[i]));
    }
    assert(dm =~= dn);
}

/// A lower-case hexadecimal character is an ASCII byte that has the value of its digit.
proof fn lemma_hex_char(d: int)
    requires
        0 <= d < 16,
    ensures
        (encoding::hex_char(d) as nat) < 128,
        encoding::hex_value(encoding::hex_char(d) as u8) == Some(d),
{
}

/// If every byte from `from` on is a hexadecimal digit, none is found that is not.
proof fn lemma_all_hex(text: Seq<u8>, from: int)
    requires
        0 <= from <= text.len(),
        forall|i: int| from <= i < text.len() ==> encoding::hex_value(#[trigger] text[i]) is Some,
    ensures
        encoding::first_non_hex(text, from) == text.len(),
    decreases text.len() - from,
{
    if from < text.len() {
        lemma_all_hex(text, from + 1);
    }
}

/// Decoding the hexadecimal text of a byte string gives that byte string back.
pub proof fn hex_round_trip(bytes: Seq<u8>)
    ensures
        encoding::hex_decoded(encoding::hex_text(bytes)) == Ok::<Seq<u8>, encoding::HexError>(bytes),
{
    let text = encoding::hex_text(bytes);
    assert forall|i: int| 0 <= i < text.len() implies {
        &&& (#[trigger] text[i] as nat) < 128
        &&& encoding::hex_value(text[i] as u8) == Some(
            if i % 2 == 0 {
                bytes[i / 2] as int / 16
            } else {
                bytes[i / 2] as int % 16
            },
        )
    } by {
        let d = if i % 2 == 0 {
            bytes[i / 2] as int / 16
        } else {
            bytes[i / 2] as int % 16
        };
        lemma_hex_char(d);
    }
    assert(vstd::utf8::is_ascii_chars(text));
    let t = vstd::utf8::encode_utf8(text);
    vstd::utf8::is_ascii_chars_encode_utf8(text);
    assert(t =~= Seq::new(text.len(), |i: int| text[i] as u8));
    lemma_all_hex(t, 0);
    let decoded = encoding::hex_decoded(text)->Ok_0;
    assert forall|i: int| 0 <= i < bytes.len() implies decoded[i] == bytes[i] by {
        assert(t[2 * i] == text[2 * i] as u8);
        assert(t[2 * i + 1] == text[2 * i + 1] as u8);
        assert((2 * i) % 2 == 0 && (2 * i) / 2 == i);
        assert((2 * i + 1) % 2 == 1 && (2 * i + 1) / 2 == i);
    }
    assert(decoded =~= bytes);
}

/// The first digit of a positive number is not zero.
proof fn lemma_no_leading_zero(n: nat)
    requires
        n > 0,
    ensures
        encoding::digits(10, n).len() > 0,
        encoding::digits(10, n)[0] != 0,
    decreases n,
{
    if n >= 10 {
        lemma_no_leading_zero(n / 10);
        assert(encoding::digits(10, n)[0] == encoding::digits(10, n / 10)[0]);
    } else {
        assert(encoding::digits(10, n / 10) =~= Seq::<nat>::empty());
        assert(encoding::digits(10, n)[0] == n);
    }
}

/// A text of decimal digits is read as the number that the digits denote.
proof fn lemma_decimal_value(s: Seq<nat>)
    requires
        forall|i: int| 0 <= i < s.len() ==> #[trigger] s[i] < 10,
    ensures
        encoding::decimal_value(s.map_values(|d: nat| encoding::decimal_char(d)))
            == encoding::numeral(10, s),
    decreases s.len(),
{
    let text = s.map_values(|d: nat| encoding::decimal_char(d));
    if s.len() > 0 {
        let high = s.drop_last();
        assert forall|i: int| 0 <= i < high.len() implies #[trigger] high[i] < 10 by {
            assert(high[i] == s[i]);
        }
        lemma_decimal_value(high);
        assert(text.drop_last() =~= high.map_values(|d: nat| encoding::decimal_char(d)));
        assert(s.last() < 10);
        assert(text.last() as int == 48 + s.last());
    }
}

/// The decimal text of a number is read as that number. It consists of digits, at least one, and
/// does not begin with a zero unless it is the text of zero, which is a single one.
pub proof fn decimal_is_read_back(n: nat)
    ensures
        encoding::decimal_value(encoding::decimal(n)) == n,
        encoding::decimal(n).len() > 0,
        forall|i: int|
            0 <= i < encoding::decimal(n).len() ==> '0' <= #[trigger] encoding::decimal(n)[i]
                <= '9',
        n > 0 ==> encoding::decimal(n)[0] != '0',
        n == 0 ==> encoding::decimal(n).len() == 1,
{
    lemma_decimal_digits(n);
    let d = encoding::decimal_digits(n);
    lemma_decimal_value(d);
    assert forall|i: int| 0 <= i < encoding::decimal(n).len() implies '0'
        <= #[trigger] encoding::decimal(n)[i] <= '9' by {
        assert(d[i] < 10);
    }
    if n > 0 {
        lemma_no_leading_zero(n);
        assert(d[0] < 10);
    }
}

} // verus!
