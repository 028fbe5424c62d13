//! Textual encodings: positional numerals, base58, hexadecimal, decimal.
use vstd::prelude::*;
use vstd::string::*;

verus! {

/// The digits of `n` in `base`, most significant first, without leading zeros (none for zero).
pub open spec fn digits(base: nat, n: nat) -> Seq<nat>
    decreases n,
{
    if n == 0 || base < 2 {
        Seq::empty()
    } else {
        proof {
            vstd::arithmetic::div_mod::lemma_div_decreases(n as int, base as int);
        }
        digits(base, n / base).push(n % base)
    }
}

/// The number that a sequence of digits denotes in `base`, most significant digit first.
pub open spec fn numeral(base: nat, s: Seq<nat>) -> nat
    decreases s.len(),
{
    if s.len() == 0 {
        0
    } else {
        numeral(base, s.drop_last()) * base + s.last()
    }
}

/// The bytes of `bytes` as digits in base 256.
pub open spec fn byte_digits(bytes: Seq<u8>) -> Seq<nat> {
    bytes.map_values(|b: u8| b as nat)
}

/// The number that `bytes` denotes in big-endian order.
pub open spec fn big_endian(bytes: Seq<u8>) -> nat {
    numeral(256, byte_digits(bytes))
}

/// How many of the first bytes are zero.
pub open spec fn leading_zeros(bytes: Seq<u8>) -> nat
    decreases bytes.len(),
{
    if bytes.len() == 0 || bytes[0] != 0 {
        0
    } else {
        1 + leading_zeros(bytes.drop_first())
    }
}

/// The character of a base58 digit: `1` to `9`, then the capitals without `I` and `O`, then the
/// small letters without `l`.
pub open spec fn base58_char(d: nat) -> char {
    if d < 9 {
        (49 + d) as char
    } else if d < 17 {
        (65 + (d - 9)) as char
    } else if d < 22 {
        (74 + (d - 17)) as char
    } else if d < 33 {
        (80 + (d - 22)) as char
    } else if d < 44 {
        (97 + (d - 33)) as char
    } else {
        (109 + (d - 44)) as char
    }
}

/// The base58 digits of a byte string: a zero for each leading zero byte, then the digits of the
/// big-endian number.
pub open spec fn base58_digits(bytes: Seq<u8>) -> Seq<nat> {
    Seq::new(leading_zeros(bytes), |i: int| 0nat) + digits(58, big_endian(bytes))
}

/// The base58 text of a byte string.
pub open spec fn base58(bytes: Seq<u8>) -> Seq<char> {
    base58_digits(bytes).map_values(|d: nat| base58_char(d))
}

/// The character of a decimal digit.
pub open spec fn decimal_char(d: nat) -> char {
    (48 + d) as char
}

/// The decimal digits of a number, a single zero for zero.
pub open spec fn decimal_digits(n: nat) -> Seq<nat> {
    if n == 0 {
        seq![0nat]
    } else {
        digits(10, n)
    }
}

/// The decimal text of a number.
pub open spec fn decimal(n: nat) -> Seq<char> {
    decimal_digits(n).map_values(|d: nat| decimal_char(d))
}

/// The number that a text of decimal digits is read as.
pub open spec fn decimal_value(text: Seq<char>) -> int
    decreases text.len(),
{
    if text.len() == 0 {
        0
    } else {
        10 * decimal_value(text.drop_last()) + (text.last() as int - '0' as int)
    }
}

/// The character of a hexadecimal digit, in lower case.
pub open spec fn hex_char(d: int) -> char {
    if d < 10 {
        (48 + d) as char
    } else {
        (97 + (d - 10)) as char
    }
}

/// The hexadecimal text of a byte string: two lower-case digits for each byte, the high one first.
pub open spec fn hex_text(bytes: Seq<u8>) -> Seq<char> {
    Seq::new(
        2 * bytes.len(),
        |i: int|
            if i % 2 == 0 {
                hex_char(bytes[i / 2] as int / 16)
            } else {
                hex_char(bytes[i / 2] as int % 16)
            },
    )
}

/// The value of a hexadecimal digit in either case, given as an ASCII byte.
pub open spec fn hex_value(c: u8) -> Option<int> {
    if 48 <= c <= 57 {
        Some(c - 48)
    } else if 65 <= c <= 70 {
        Some(c - 65 + 10)
    } else if 97 <= c <= 102 {
        Some(c - 97 + 10)
    } else {
        None
    }
}

/// Why a text is not hexadecimal.
#[derive(Clone, Copy, Debug, PartialEq, Eq, Structural)]
pub enum HexError {
    /// The byte at `index` of the text, read as the character `c`, is no hexadecimal digit.
    InvalidHexCharacter { c: char, index: usize },
    /// The text holds an odd number of bytes.
    OddLength,
    /// The text does not fill a buffer of fixed size.
    InvalidStringLength,
}

/// The first position from `from` on at which `text` holds no hexadecimal digit, or its length.
pub open spec fn first_non_hex(text: Seq<u8>, from: int) -> int
    decreases text.len() - from,
{
    if from >= text.len() || hex_value(text[from]) is None {
        from
    } else {
        first_non_hex(text, from + 1)
    }
}

/// What a text means as hexadecimal: the bytes that its digits denote, or why it denotes none.
pub open spec fn hex_decoded(text: Seq<char>) -> Result<Seq<u8>, HexError> {
    let t = vstd::utf8::encode_utf8(text);
    let bad = first_non_hex(t, 0);
    if t.len() % 2 != 0 {
        Err(HexError::OddLength)
    } else if bad < t.len() {
        Err(HexError::InvalidHexCharacter { c: t[bad] as char, index: bad as usize })
    } else {
        Ok(
            Seq::new(
                (t.len() / 2) as nat,
                |i: int| (hex_value(t[2 * i])->0 * 16 + hex_value(t[2 * i + 1])->0) as u8,
            ),
        )
    }
}

/// Calls `hex::encode`, which writes each byte as two lower-case hexadecimal digits.
#[verifier::external_body]
pub(crate) fn hex_encode(bytes: &[u8]) -> (text: String)
    ensures
        text@ == hex_text(bytes@),
{
    hex::encode(bytes)
}

/// Calls `hex::decode`, which reads two hexadecimal digits of either case as one byte. It looks
/// for an odd length first and then reports the first byte of the text that is no digit.
#[verifier::external_body]
pub(crate) fn hex_decode(text: &str) -> (res: Result<Vec<u8>, HexError>)
    ensures
        match res {
            Ok(bytes) => hex_decoded(text@) == Ok::<Seq<u8>, HexError>(bytes@),
            Err(e) => hex_decoded(text@) == Err::<Seq<u8>, HexError>(e),
        },
{
    match hex::decode(text) {
        Ok(bytes) => Ok(bytes),
        Err(hex::FromHexError::InvalidHexCharacter { c, index }) => {
            Err(HexError::InvalidHexCharacter { c, index })
        },
        Err(hex::FromHexError::OddLength) => Err(HexError::OddLength),
        Err(hex::FromHexError::InvalidStringLength) => Err(HexError::InvalidStringLength),
    }
}

/// Calls the `Display` of `solana_sdk::signature::Signature`, which writes the 64 bytes in base58.
#[verifier::external_body]
pub(crate) fn signature_text(signature: &[u8; 64]) -> (text: String)
    ensures
        text@ == base58(signature@),
{
    solana_sdk::signature::Signature::from(*signature).to_string()
}

/// The decimal digit of a number below ten.
fn decimal_digit(d: usize) -> (text: &'static str)
    requires
        d < 10,
    ensures
        text@ == seq![decimal_char(d as nat)],
{
    proof {
        reveal_strlit("0");
        reveal_strlit("1");
        reveal_strlit("2");
        reveal_strlit("3");
        reveal_strlit("4");
        reveal_strlit("5");
        reveal_strlit("6");
        reveal_strlit("7");
        reveal_strlit("8");
        reveal_strlit("9");
    }
    match d {
        0 => "0",
        1 => "1",
        2 => "2",
        3 => "3",
        4 => "4",
        5 => "5",
        6 => "6",
        7 => "7",
        8 => "8",
        _ => "9",
    }
}

/// Writes a number in decimal.
pub fn decimal_text(n: usize) -> (text: String)
    ensures
        text@ == decimal(n as nat),
        decimal_value(text@) == n,
        forall|i: int| 0 <= i < text@.len() ==> '0' <= #[trigger] text@[i] <= '9',
        text@.len() > 0,
        n > 0 ==> text@[0] != '0',
        n == 0 ==> text@.len() == 1,
    decreases n,
{
    proof {
        reveal_with_fuel(digits, 2);
        crate::encoding_laws::decimal_is_read_back(n as nat);
    }
    if n < 10 {
        let text = decimal_digit(n).to_owned();
        assert(decimal_digits(n as nat) =~= seq![n as nat]);
        assert(text@ =~= decimal(n as nat));
        text
    } else {
        let mut text = decimal_text(n / 10);
        assert(decimal_digits(n as nat) == decimal_digits(n as nat / 10).push(n as nat % 10));
        text.append(decimal_digit(n % 10));
        assert(text@ =~= decimal(n as nat));
        text
    }
}

/// What `Debug` of `char` writes: the character between single quotes, escaped where it would not
/// show.
pub uninterp spec fn char_debug(c: char) -> Seq<char>;

/// The text of a [`HexError`].
pub open spec fn hex_error_message(error: HexError) -> Seq<char> {
    match error {
        HexError::InvalidHexCharacter { c, index } => "Invalid character "@ + char_debug(c)
            + " at position "@ + decimal(index as nat),
        HexError::OddLength => "Odd number of digits"@,
        HexError::InvalidStringLength => "Invalid string length"@,
    }
}

/// Calls the `Display` of `hex::FromHexError`, which has a sentence for each error and writes the
/// refused character as `Debug` of `char` does and its position in decimal.
#[verifier::external_body]
pub(crate) fn hex_error_text(error: HexError) -> (text: String)
    ensures
        error matches HexError::InvalidHexCharacter { c, index } ==> text@
            == "Invalid character "@ + char_debug(c) + " at position "@ + decimal(index as nat),
        error is OddLength ==> text@ == "Odd number of digits"@,
        error is InvalidStringLength ==> text@ == "Invalid string length"@,
{
    let error = match error {
        HexError::InvalidHexCharacter { c, index } => {
            hex::FromHexError::InvalidHexCharacter { c, index }
        },
        HexError::OddLength => hex::FromHexError::OddLength,
        HexError::InvalidStringLength => hex::FromHexError::InvalidStringLength,
    };
    error.to_string()
}

/// The error of `String::from_utf8`, which holds the bytes that were refused.
#[verifier::external_type_specification]
#[verifier::external_body]
pub struct ExFromUtf8Error(std::string::FromUtf8Error);

/// `String::from_utf8` gives the text that the bytes encode if they are UTF-8, and fails if they
/// are not.
pub assume_specification[ String::from_utf8 ](vec: Vec<u8>) -> (res: Result<
    String,
    std::string::FromUtf8Error,
>)
    ensures
        match res {
            Ok(text) => vstd::utf8::valid_utf8(vec@) && text@ == vstd::utf8::decode_utf8(vec@),
            Err(_) => !vstd::utf8::valid_utf8(vec@),
        },
;

} // verus!
