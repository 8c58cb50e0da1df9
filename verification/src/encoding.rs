use vstd::prelude::*;

verus! {

#[verifier::external_type_specification]
#[verifier::external_body]
pub struct ExBase64DecodeError(base64::DecodeError);

#[verifier::external_type_specification]
#[verifier::external_body]
pub struct ExFromHexError(hex::FromHexError);

/// The bytes that a text stands for in standard base64 with padding, or
/// `None` where the text is not such an encoding.
pub uninterp spec fn base64_decoding(text: Seq<char>) -> Option<Seq<u8>>;

/// The standard base64 text, with padding, of a sequence of bytes.
pub uninterp spec fn base64_encoding(data: Seq<u8>) -> Seq<char>;

/// Whether the base64 text of `len` bytes has a length that fits the
/// machine's address space.
pub open spec fn base64_encodable(len: nat) -> bool {
    (len / 3) * 4 + 4 <= usize::MAX
}

/// Calls `decode` of the `base64` crate's `STANDARD` engine. Trusted: the
/// call succeeds exactly on the texts that `base64_decoding` accepts, and
/// then returns the bytes it names.
#[verifier::external_body]
pub(crate) fn base64_decode(text: &str) -> (decoded: Result<Vec<u8>, base64::DecodeError>)
    ensures
        match decoded {
            Ok(bytes) => base64_decoding(text@) == Some(bytes@),
            Err(_) => base64_decoding(text@) is None,
        },
{
    base64::Engine::decode(&base64::engine::general_purpose::STANDARD, text)
}

/// Calls `encode` of the `base64` crate's `STANDARD` engine. Trusted: the
/// call returns the text that `base64_encoding` names. The crate panics
/// where the length of that text overflows, which `requires` leaves out.
#[verifier::external_body]
pub(crate) fn base64_encode(data: &[u8]) -> (text: String)
    requires
        base64_encodable(data@.len()),
    ensures
        text@ == base64_encoding(data@),
{
    base64::Engine::encode(&base64::engine::general_purpose::STANDARD, data)
}

/// The value of a hexadecimal digit in either case, or `None` for any other
/// byte.
pub open spec fn hex_digit(byte: u8) -> Option<u8> {
    if 0x30 <= byte <= 0x39 {
        Some((byte - 0x30) as u8)
    } else if 0x41 <= byte <= 0x46 {
        Some((byte - 0x41 + 10) as u8)
    } else if 0x61 <= byte <= 0x66 {
        Some((byte - 0x61 + 10) as u8)
    } else {
        None
    }
}

/// Whether a text is hexadecimal: an even number of hexadecimal digits.
pub open spec fn is_hex(text: Seq<u8>) -> bool {
    &&& text.len() % 2 == 0
    &&& forall|i: int| 0 <= i < text.len() ==> hex_digit(#[trigger] text[i]) is Some
}

/// The bytes that a hexadecimal text stands for: each pair of digits is one
/// byte, the first digit its high half.
pub open spec fn hex_decoding(text: Seq<u8>) -> Seq<u8> {
    Seq::new(
        text.len() / 2,
        |i: int| (hex_digit(text[2 * i])->0 * 16 + hex_digit(text[2 * i + 1])->0) as u8,
    )
}

/// Calls `hex::decode`. Trusted: the call succeeds exactly on hexadecimal
/// texts, and then returns the bytes that the pairs of digits stand for.
#[verifier::external_body]
pub(crate) fn hex_decode(text: &[u8]) -> (decoded: Result<Vec<u8>, hex::FromHexError>)
    ensures
        match decoded {
            Ok(bytes) => is_hex(text@) && bytes@ == hex_decoding(text@),
            Err(_) => !is_hex(text@),
        },
{
    hex::decode(text)
}

} // verus!
