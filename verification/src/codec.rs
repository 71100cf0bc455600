//! Payload encoding: the integers that requests and replies carry, in the
//! wire format of bincode's standard configuration (little endian,
//! variable-length integers).

use vstd::prelude::*;

verus! {

#[verifier::external_type_specification]
#[verifier::external_body]
pub struct ExEncodeError(bincode::error::EncodeError);

#[verifier::external_type_specification]
#[verifier::external_body]
pub struct ExDecodeError(bincode::error::DecodeError);

/// Largest value that the variable-length format holds in a single byte.
pub const SINGLE_BYTE_MAX: u8 = 250;

/// Marker byte that announces a two-byte little-endian value.
pub const U16_BYTE: u8 = 251;

/// The encoding of a 16-bit value: values up to 250 are their own single
/// byte, larger ones follow the marker 251 with the low byte first.
pub open spec fn u16_encoding(value: u16) -> Seq<u8> {
    if value <= SINGLE_BYTE_MAX {
        seq![value as u8]
    } else {
        seq![U16_BYTE, (value % 256) as u8, (value / 256) as u8]
    }
}

/// The 16-bit value at the start of `bytes` and the number of bytes it
/// takes, or `None` where `bytes` does not start with one: where it is
/// empty, where the first byte is a marker other than 251, or where fewer
/// than two bytes follow the marker 251. Bytes after the value are not
/// looked at.
pub open spec fn u16_decoding(bytes: Seq<u8>) -> Option<(u16, nat)> {
    if bytes.len() == 0 {
        None
    } else if bytes[0] <= SINGLE_BYTE_MAX {
        Some((bytes[0] as u16, 1nat))
    } else if bytes[0] == U16_BYTE && bytes.len() >= 3 {
        Some(((bytes[1] as nat + 256 * bytes[2] as nat) as u16, 3nat))
    } else {
        None
    }
}

/// The byte at the start of `bytes`, which takes one byte, or `None` where
/// `bytes` is empty.
pub open spec fn u8_decoding(bytes: Seq<u8>) -> Option<(u8, nat)> {
    if bytes.len() == 0 {
        None
    } else {
        Some((bytes[0], 1nat))
    }
}

/// Decoding what was encoded gives the value back, and takes every byte.
pub proof fn lemma_u16_round_trip(value: u16)
    ensures
        u16_decoding(u16_encoding(value)) == Some((value, u16_encoding(value).len())),
{
    if value > SINGLE_BYTE_MAX {
        let bytes = u16_encoding(value);
        assert(bytes[1] as nat + 256 * bytes[2] as nat == value);
    }
}

/// Bytes that follow an encoded value do not change what is decoded.
pub proof fn lemma_u16_round_trip_with_rest(value: u16, rest: Seq<u8>)
    ensures
        u16_decoding(u16_encoding(value) + rest) == Some((value, u16_encoding(value).len())),
{
    let bytes = u16_encoding(value);
    let all = bytes + rest;
    lemma_u16_round_trip(value);
    assert(all[0] == bytes[0]);
    if value > SINGLE_BYTE_MAX {
        assert(all[1] == bytes[1]);
        assert(all[2] == bytes[2]);
    }
}

/// Calls `bincode::encode_to_vec` on a `u16` with the standard
/// configuration. Writing into a vector cannot fail, and the bytes are
/// those of the variable-length format.
#[verifier::external_body]
pub(crate) fn encode_u16(value: u16) -> (encoded: Result<Vec<u8>, bincode::error::EncodeError>)
    ensures
        encoded is Ok,
        encoded matches Ok(bytes) ==> bytes@ == u16_encoding(value),
{
    bincode::encode_to_vec(value, bincode::config::standard())
}

/// Calls `bincode::decode_from_slice` for a `u16` with the standard
/// configuration. It succeeds exactly where `src` starts with an encoded
/// value, and returns the value with the number of bytes read.
#[verifier::external_body]
pub(crate) fn decode_u16(src: &[u8]) -> (decoded: Result<(u16, usize), bincode::error::DecodeError>)
    ensures
        match u16_decoding(src@) {
            Some((value, taken)) => decoded matches Ok(pair) && pair.0 == value && pair.1
                == taken,
            None => decoded is Err,
        },
{
    bincode::decode_from_slice(src, bincode::config::standard())
}

/// Calls `bincode::decode_from_slice` for a `u8` with the standard
/// configuration. It succeeds exactly where `src` is not empty, and returns
/// the first byte with the count of one byte read.
#[verifier::external_body]
pub(crate) fn decode_u8(src: &[u8]) -> (decoded: Result<(u8, usize), bincode::error::DecodeError>)
    ensures
        match u8_decoding(src@) {
            Some((value, taken)) => decoded matches Ok(pair) && pair.0 == value && pair.1
                == taken,
            None => decoded is Err,
        },
{
    bincode::decode_from_slice(src, bincode::config::standard())
}

/// Calls the `Display` implementation of `bincode::error::EncodeError`.
#[verifier::external_body]
pub(crate) fn encode_error_text(err: &bincode::error::EncodeError) -> (text: String) {
    format!("{}", err)
}

/// Calls the `Display` implementation of `bincode::error::DecodeError`.
#[verifier::external_body]
pub(crate) fn decode_error_text(err: &bincode::error::DecodeError) -> (text: String) {
    format!("{}", err)
}

} // verus!
