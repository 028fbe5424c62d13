//! Private keys of the Axelar chain.
use vstd::prelude::*;
use vstd::string::*;

use crate::encoding;

verus! {

/// The order of the group of the curve secp256k1.
pub open spec fn secp256k1_order() -> int {
    0xFFFFFFFFFFFFFFFFFFFFFFFFFFFFFFFEBAAEDCE6AF48A03BBFD25E8CD0364141int
}

/// Whether a byte string encodes a private key: it holds 24 to 32 bytes, and the number that they
/// denote in big-endian order is positive and below the order of the group.
pub open spec fn is_private_key(bytes: Seq<u8>) -> bool {
    &&& 24 <= bytes.len() <= 32
    &&& 0 < encoding::big_endian(bytes) < secp256k1_order()
}

/// The key that bytes encode, as `cosmrs::crypto::secp256k1::SigningKey::from_slice` makes it.
pub uninterp spec fn signing_key_of(bytes: Seq<u8>) -> cosmrs::crypto::secp256k1::SigningKey;

/// Calls `cosmrs::crypto::secp256k1::SigningKey::from_slice`, which takes a scalar in big-endian
/// order and depends on nothing else. It fills up with zeros in front what has 24 to 31 bytes, and
/// refuses any other length than these and 32, zero, and what is not below the order of the group.
#[verifier::external_body]
pub(crate) fn from_slice(bytes: &[u8]) -> (res: Result<
    cosmrs::crypto::secp256k1::SigningKey,
    eyre::Report,
>)
    ensures
        match res {
            Ok(key) => is_private_key(bytes@) && key == signing_key_of(bytes@),
            Err(_) => !is_private_key(bytes@),
        },
{
    cosmrs::crypto::secp256k1::SigningKey::from_slice(bytes)
}

/// Why a text is no private key.
#[derive(Debug)]
pub enum KeyError {
    /// The text is not hexadecimal.
    Hex(encoding::HexError),
    /// The bytes that it denotes are no private key, for this cause.
    InvalidPrivateKey(eyre::Report),
}

/// What a [`KeyError`] says about the text.
pub enum KeyErrorView {
    Hex(encoding::HexError),
    InvalidPrivateKey,
}

impl View for KeyError {
    type V = KeyErrorView;

    open spec fn view(&self) -> KeyErrorView {
        match *self {
            KeyError::Hex(error) => KeyErrorView::Hex(error),
            KeyError::InvalidPrivateKey(_) => KeyErrorView::InvalidPrivateKey,
        }
    }
}

/// The text of a [`KeyError`].
pub open spec fn key_error_message(error: KeyErrorView) -> Seq<char> {
    match error {
        KeyErrorView::Hex(error) => encoding::hex_error_message(error),
        KeyErrorView::InvalidPrivateKey => "invalid secp256k1 private key"@,
    }
}

impl KeyError {
    /// The text of the error, without its cause.
    pub fn text(&self) -> (text: String)
        ensures
            text@ == key_error_message(self@),
            self is InvalidPrivateKey ==> text@ == "invalid secp256k1 private key"@,
            self matches KeyError::Hex(error) ==> text@ == encoding::hex_error_message(*error),
    {
        match self {
            KeyError::Hex(error) => encoding::hex_error_text(*error),
            KeyError::InvalidPrivateKey(_) => "invalid secp256k1 private key".to_owned(),
        }
    }
}

/// Which key a hexadecimal text denotes, given as the bytes that encode it, or why it denotes none.
pub open spec fn private_key(text: Seq<char>) -> Result<Seq<u8>, KeyErrorView> {
    match encoding::hex_decoded(text) {
        Err(error) => Err(KeyErrorView::Hex(error)),
        Ok(bytes) => if is_private_key(bytes) {
            Ok(bytes)
        } else {
            Err(KeyErrorView::InvalidPrivateKey)
        },
    }
}

/// Reads a private key from its hexadecimal text.
pub fn parse_private_key(private_key_hex: &str) -> (res: Result<
    cosmrs::crypto::secp256k1::SigningKey,
    KeyError,
>)
    ensures
        match private_key(private_key_hex@) {
            Ok(bytes) => res matches Ok(key) && key == signing_key_of(bytes),
            Err(why) => res matches Err(error) && error@ == why,
        },
        match encoding::hex_decoded(private_key_hex@) {
            Ok(bytes) => {
                &&& res is Ok <==> is_private_key(bytes)
                &&& res matches Ok(key) ==> key == signing_key_of(bytes)
                &&& res matches Err(error) ==> error is InvalidPrivateKey
            },
            Err(why) => res matches Err(KeyError::Hex(error)) && error == why,
        },
{
    match encoding::hex_decode(private_key_hex) {
        Err(error) => Err(KeyError::Hex(error)),
        Ok(bytes) => match from_slice(bytes.as_slice()) {
            Ok(key) => Ok(key),
            Err(cause) => Err(KeyError::InvalidPrivateKey(cause)),
        },
    }
}

/// Every private key can be read back from the hexadecimal text of its bytes.
pub proof fn private_keys_can_be_read_back(bytes: Seq<u8>)
    requires
        is_private_key(bytes),
    ensures
        private_key(encoding::hex_text(bytes)) == Ok::<Seq<u8>, KeyErrorView>(bytes),
{
    crate::encoding_laws::hex_round_trip(bytes);
}

/// A text denotes a private key exactly if it is hexadecimal and the bytes that it denotes encode
/// one, and it is those bytes that count. What is not hexadecimal is refused as such.
pub proof fn private_keys_are_the_decoded_bytes(text: Seq<char>)
    ensures
        private_key(text) matches Ok(key) ==> encoding::hex_decoded(text) == Ok::<
            Seq<u8>,
            encoding::HexError,
        >(key) && is_private_key(key),
        encoding::hex_decoded(text) matches Ok(bytes) ==> (private_key(text) is Ok
            <==> is_private_key(bytes)),
        encoding::hex_decoded(text) matches Err(error) ==> private_key(text) == Err::<
            Seq<u8>,
            KeyErrorView,
        >(KeyErrorView::Hex(error)),
        private_key(text) == Err::<Seq<u8>, KeyErrorView>(KeyErrorView::InvalidPrivateKey)
            <==> encoding::hex_decoded(text) is Ok && private_key(text) is Err,
{
}

} // verus!
