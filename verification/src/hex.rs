//! Hexadecimal text for byte strings and node identifiers.

use bitcoin::hashes::hex::ToHex;
use bitcoin::secp256k1::PublicKey;
use std::str::FromStr;
use vstd::prelude::*;

verus! {

/// The lower-case hexadecimal digit of a value below sixteen.
pub open spec fn hex_digit(nibble: int) -> char {
    if nibble == 0 {
        '0'
    } else if nibble == 1 {
        '1'
    } else if nibble == 2 {
        '2'
    } else if nibble == 3 {
        '3'
    } else if nibble == 4 {
        '4'
    } else if nibble == 5 {
        '5'
    } else if nibble == 6 {
        '6'
    } else if nibble == 7 {
        '7'
    } else if nibble == 8 {
        '8'
    } else if nibble == 9 {
        '9'
    } else if nibble == 10 {
        'a'
    } else if nibble == 11 {
        'b'
    } else if nibble == 12 {
        'c'
    } else if nibble == 13 {
        'd'
    } else if nibble == 14 {
        'e'
    } else {
        'f'
    }
}

/// Two digits for every byte, the high nibble first.
pub open spec fn hex_text(bytes: Seq<u8>) -> Seq<char> {
    Seq::new(
        2 * bytes.len(),
        |i: int|
            if i % 2 == 0 {
                hex_digit(bytes[i / 2] as int / 16)
            } else {
                hex_digit(bytes[i / 2] as int % 16)
            },
    )
}

/// The compressed serialisation of the secp256k1 public key that `text`
/// spells in hexadecimal, where it spells one.
pub uninterp spec fn parsed_public_key(text: Seq<char>) -> Option<Seq<u8>>;

/// Calls `bitcoin::hashes::hex::ToHex::to_hex` on a byte slice. Its source
/// reserves two bytes of text for every byte, which must not be more than a
/// string can hold, and writes every byte with `{:02x}`, in order: that is
/// `hex_text`.
#[verifier::external_body]
pub(crate) fn bytes_to_hex(bytes: &[u8]) -> (text: String)
    requires
        2 * bytes@.len() <= isize::MAX,
    ensures
        text@ == hex_text(bytes@),
{
    bytes.to_hex()
}

/// Calls `bitcoin::secp256k1::PublicKey::from_str`, which decodes the text as
/// hexadecimal and accepts it only if the bytes are a point of the curve. A
/// key that was accepted is handed on as the 33 bytes of
/// `PublicKey::serialize`. Nothing is claimed of which texts are keys: the
/// answer is only given a name.
#[verifier::external_body]
pub(crate) fn parse_public_key(text: &str) -> (key: Option<[u8; 33]>)
    ensures
        parsed_public_key(text@) == match key {
            Some(bytes) => Some(bytes@),
            None => None,
        },
{
    match PublicKey::from_str(text) {
        Ok(key) => Some(key.serialize()),
        Err(_) => None,
    }
}

} // verus!
