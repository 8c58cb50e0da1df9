use vstd::prelude::*;
use crate::encoding::{hex_decode, hex_decoding, is_hex};
use crate::error::Error;
use crate::text::{is_header_text, is_readable};

verus! {

#[verifier::external_type_specification]
#[verifier::external_body]
pub struct ExSignatureError(ed25519_dalek::SignatureError);

/// The header that carries the signature of a signed request, in
/// hexadecimal.
pub const SIGNATURE_HEADER_NAME: &'static str = "X-Ed25519-Signature";

/// The header that carries the timestamp of a signed request.
pub const TIMESTAMP_HEADER_NAME: &'static str = "X-Ed25519-Timestamp";

/// The largest body that is read for verification, in bytes: 100 MiB.
pub const MAX_BODY: usize = 104857600;

/// What was extracted from a request that passed the check of its
/// signature, or that needed none.
#[derive(Debug, PartialEq, Eq)]
pub struct RequireValidSignature<T>(pub T);

/// The UTF-8 encoding of the text that a sequence of bytes is read as when
/// every ill-formed part of it is replaced by U+FFFD.
pub uninterp spec fn utf8_lossy(bytes: Seq<u8>) -> Seq<u8>;

/// Whether the first argument is the encoding of an Ed25519 public key
/// with which strict verification accepts the signature for the message.
pub uninterp spec fn ed25519_strict(public_key: Seq<u8>, message: Seq<u8>, signature: Seq<u8>) -> bool;

/// Calls `String::from_utf8_lossy` and hands out the bytes of the text.
/// Trusted: they are what `utf8_lossy` names.
#[verifier::external_body]
fn lossy_text(bytes: &[u8]) -> (text: Vec<u8>)
    ensures
        text@ == utf8_lossy(bytes@),
{
    String::from_utf8_lossy(bytes).into_owned().into_bytes()
}

/// Calls `try_from` of `ed25519_dalek::Signature` on a slice and hands out
/// the bytes of the signature. Trusted: the call succeeds exactly on 64
/// bytes, and the signature holds them unchanged.
#[verifier::external_body]
fn parse_signature(bytes: &[u8]) -> (parsed: Result<[u8; 64], ed25519_dalek::SignatureError>)
    ensures
        match parsed {
            Ok(signature) => bytes@.len() == 64 && signature@ == bytes@,
            Err(_) => bytes@.len() != 64,
        },
{
    ed25519_dalek::Signature::try_from(bytes).map(|signature| signature.to_bytes())
}

/// Calls `ed25519_dalek::VerifyingKey::from_bytes` and, with the key,
/// `verify_strict`. Trusted: the answer is what `ed25519_strict` names;
/// bytes that are no public key verify nothing.
#[verifier::external_body]
fn verify_strict(public_key: &[u8; 32], message: &[u8], signature: &[u8; 64]) -> (valid: bool)
    ensures
        valid == ed25519_strict(public_key@, message@, signature@),
{
    match ed25519_dalek::VerifyingKey::from_bytes(public_key) {
        Ok(key) => key.verify_strict(
            message,
            &ed25519_dalek::Signature::from_bytes(signature),
        ).is_ok(),
        Err(_) => false,
    }
}

/// The ASCII digit of a number below ten.
pub open spec fn digit(n: nat) -> u8 {
    (48 + n % 10) as u8
}

/// A number in decimal, as ASCII digits without leading zeros.
pub open spec fn decimal(n: nat) -> Seq<u8>
    decreases n,
{
    if n < 10 {
        seq![digit(n)]
    } else {
        decimal(n / 10).push(digit(n))
    }
}

/// The byte `.`, which separates the parts of a signed message.
pub const SEPARATOR: u8 = 46;

/// The message that the signature of a request is made for: the
/// timestamp, the length of the body in decimal, and the body as text,
/// separated by `.`.
pub open spec fn signed_message(timestamp: Seq<u8>, length: nat, text: Seq<u8>) -> Seq<u8> {
    timestamp + seq![SEPARATOR] + decimal(length) + seq![SEPARATOR] + text
}

proof fn lemma_decimal_shape(n: nat)
    ensures
        decimal(n).len() >= 1,
        decimal(n).len() == 1 <==> n < 10,
        decimal(n).last() == digit(n),
        forall|i: int| 0 <= i < decimal(n).len() ==> 48 <= #[trigger] decimal(n)[i] <= 57,
    decreases n,
{
    if n >= 10 {
        lemma_decimal_shape(n / 10);
    }
}

/// No two numbers are written alike in decimal.
pub proof fn lemma_decimal_injective(a: nat, b: nat)
    requires
        decimal(a) == decimal(b),
    ensures
        a == b,
    decreases a,
{
    lemma_decimal_shape(a);
    lemma_decimal_shape(b);
    if a >= 10 {
        assert(decimal(a).drop_last() =~= decimal(a / 10));
        assert(decimal(b).drop_last() =~= decimal(b / 10));
        lemma_decimal_injective(a / 10, b / 10);
    }
}

proof fn lemma_split_at_separator(a1: Seq<u8>, b1: Seq<u8>, a2: Seq<u8>, b2: Seq<u8>)
    requires
        a1 + seq![SEPARATOR] + b1 == a2 + seq![SEPARATOR] + b2,
        forall|i: int| 0 <= i < a1.len() ==> a1[i] != SEPARATOR,
        forall|i: int| 0 <= i < a2.len() ==> a2[i] != SEPARATOR,
    ensures
        a1 == a2,
        b1 == b2,
{
    let whole1 = a1 + seq![SEPARATOR] + b1;
    let whole2 = a2 + seq![SEPARATOR] + b2;
    assert(whole1[a1.len() as int] == SEPARATOR);
    assert(whole2[a2.len() as int] == SEPARATOR);
    if a1.len() < a2.len() {
        assert(whole2[a1.len() as int] == a2[a1.len() as int]);
    }
    if a2.len() < a1.len() {
        assert(whole1[a2.len() as int] == a1[a2.len() as int]);
    }
    assert(a1.len() == a2.len());
    assert forall|i: int| 0 <= i < a1.len() implies a1[i] == a2[i] by {
        assert(whole1[i] == a1[i]);
        assert(whole2[i] == a2[i]);
    }
    assert(a1 =~= a2);
    assert(whole1.len() == whole2.len());
    assert forall|i: int| 0 <= i < b1.len() implies b1[i] == b2[i] by {
        assert(whole1[a1.len() + 1 + i] == b1[i]);
        assert(whole2[a2.len() + 1 + i] == b2[i]);
    }
    assert(b1 =~= b2);
}

/// The signed message binds each of its parts: where the timestamps hold
/// no `.`, two messages are the same only if they are made of the same
/// timestamp, the same length and the same text. To change any of the
/// three is to change the message that the signature is checked against.
pub proof fn lemma_signed_message_binds_its_parts(
    timestamp1: Seq<u8>,
    length1: nat,
    text1: Seq<u8>,
    timestamp2: Seq<u8>,
    length2: nat,
    text2: Seq<u8>,
)
    requires
        !timestamp1.contains(SEPARATOR),
        !timestamp2.contains(SEPARATOR),
        signed_message(timestamp1, length1, text1) == signed_message(timestamp2, length2, text2),
    ensures
        timestamp1 == timestamp2,
        length1 == length2,
        text1 == text2,
{
    let rest1 = decimal(length1) + seq![SEPARATOR] + text1;
    let rest2 = decimal(length2) + seq![SEPARATOR] + text2;
    assert(signed_message(timestamp1, length1, text1) =~= timestamp1 + seq![SEPARATOR] + rest1);
    assert(signed_message(timestamp2, length2, text2) =~= timestamp2 + seq![SEPARATOR] + rest2);
    lemma_split_at_separator(timestamp1, rest1, timestamp2, rest2);
    lemma_decimal_shape(length1);
    lemma_decimal_shape(length2);
    lemma_split_at_separator(decimal(length1), text1, decimal(length2), text2);
    lemma_decimal_injective(length1, length2);
}

/// The signed message binds its timestamp: two messages of the same
/// length and text are the same only if their timestamps are the same,
/// whatever the timestamps hold.
pub proof fn lemma_signed_message_binds_timestamp(
    timestamp1: Seq<u8>,
    timestamp2: Seq<u8>,
    length: nat,
    text: Seq<u8>,
)
    requires
        signed_message(timestamp1, length, text) == signed_message(timestamp2, length, text),
    ensures
        timestamp1 == timestamp2,
{
    let whole1 = signed_message(timestamp1, length, text);
    let whole2 = signed_message(timestamp2, length, text);
    assert(whole1.len() == timestamp1.len() + decimal(length).len() + text.len() + 2);
    assert(whole2.len() == timestamp2.len() + decimal(length).len() + text.len() + 2);
    assert forall|i: int| 0 <= i < timestamp1.len() implies timestamp1[i] == timestamp2[i] by {
        assert(whole1[i] == timestamp1[i]);
        assert(whole2[i] == timestamp2[i]);
    }
    assert(timestamp1 =~= timestamp2);
}

/// The signed message binds its length and its text: two messages with
/// the same timestamp are the same only if they declare the same length
/// and hold the same text, whatever the timestamp holds.
pub proof fn lemma_signed_message_binds_length_and_text(
    timestamp: Seq<u8>,
    length1: nat,
    text1: Seq<u8>,
    length2: nat,
    text2: Seq<u8>,
)
    requires
        signed_message(timestamp, length1, text1) == signed_message(timestamp, length2, text2),
    ensures
        length1 == length2,
        text1 == text2,
{
    let head = timestamp + seq![SEPARATOR];
    let rest1 = decimal(length1) + seq![SEPARATOR] + text1;
    let rest2 = decimal(length2) + seq![SEPARATOR] + text2;
    assert(signed_message(timestamp, length1, text1) =~= head + rest1);
    assert(signed_message(timestamp, length2, text2) =~= head + rest2);
    assert(rest1 =~= (head + rest1).skip(head.len() as int));
    assert(rest2 =~= (head + rest2).skip(head.len() as int));
    lemma_decimal_shape(length1);
    lemma_decimal_shape(length2);
    lemma_split_at_separator(decimal(length1), text1, decimal(length2), text2);
    lemma_decimal_injective(length1, length2);
}

/// A number in decimal.
pub fn decimal_digits(n: usize) -> (digits: Vec<u8>)
    ensures
        digits@ == decimal(n as nat),
    decreases n,
{
    if n < 10 {
        let mut digits: Vec<u8> = Vec::new();
        digits.push(48 + n as u8);
        assert(digits@ =~= seq![digit(n as nat)]);
        digits
    } else {
        let mut digits = decimal_digits(n / 10);
        digits.push(48 + (n % 10) as u8);
        digits
    }
}

fn append(target: &mut Vec<u8>, bytes: &[u8])
    ensures
        final(target)@ == old(target)@ + bytes@,
{
    let mut i: usize = 0;
    while i < bytes.len()
        invariant
            i <= bytes@.len(),
            target@ == old(target)@ + bytes@.subrange(0, i as int),
        decreases bytes@.len() - i,
    {
        target.push(bytes[i]);
        assert(bytes@.subrange(0, i + 1) =~= bytes@.subrange(0, i as int).push(bytes@[i as int]));
        i += 1;
    }
    assert(bytes@.subrange(0, i as int) =~= bytes@);
}

/// Puts together the message that the signature of a request is made for.
pub fn canonical_message(timestamp: &[u8], length: usize, text: &[u8]) -> (message: Vec<u8>)
    ensures
        message@ == signed_message(timestamp@, length as nat, text@),
{
    let mut message: Vec<u8> = Vec::new();
    append(&mut message, timestamp);
    message.push(SEPARATOR);
    let digits = decimal_digits(length);
    append(&mut message, digits.as_slice());
    message.push(SEPARATOR);
    append(&mut message, text);
    assert(message@ =~= signed_message(timestamp@, length as nat, text@));
    message
}

/// The message that a request with this timestamp and body is signed as:
/// the length is that of the body as it was received, the text is the
/// body read as UTF-8 with every ill-formed part replaced.
pub open spec fn request_message(timestamp: Seq<u8>, body: Seq<u8>) -> Seq<u8> {
    signed_message(timestamp, body.len(), utf8_lossy(body))
}

/// What the check of a signature comes to: a signature that is not
/// hexadecimal is `Hex`, one that does not decode to 64 bytes is
/// `Signature`, and any other is valid or not as strict Ed25519
/// verification of the request's message under the key says.
pub open spec fn signature_verdict(
    signature: Seq<u8>,
    timestamp: Seq<u8>,
    body: Seq<u8>,
    public_key: Seq<u8>,
) -> Result<bool, Error> {
    if !is_hex(signature) {
        Err(Error::Hex)
    } else if hex_decoding(signature).len() != 64 {
        Err(Error::Signature)
    } else {
        Ok(ed25519_strict(public_key, request_message(timestamp, body), hex_decoding(signature)))
    }
}

/// Whether a signature is valid under a key for one message at most.
pub open spec fn signs_one_message(public_key: Seq<u8>, signature: Seq<u8>) -> bool {
    forall|first: Seq<u8>, second: Seq<u8>|
        #[trigger] ed25519_strict(public_key, first, signature) && #[trigger] ed25519_strict(
            public_key,
            second,
            signature,
        ) ==> first == second
}

/// Whether a request differs from what was signed in a way that the
/// signed message shows: in the timestamp alone, or, with the timestamp
/// as signed, in the declared length or the text. Where neither timestamp
/// holds a `.`, every difference shows.
pub open spec fn differs_from_signed(
    signed_timestamp: Seq<u8>,
    signed_length: nat,
    signed_text: Seq<u8>,
    timestamp: Seq<u8>,
    length: nat,
    text: Seq<u8>,
) -> bool {
    ||| timestamp != signed_timestamp && length == signed_length && text == signed_text
    ||| timestamp == signed_timestamp && (length != signed_length || text != signed_text)
    ||| {
        &&& !signed_timestamp.contains(SEPARATOR)
        &&& !timestamp.contains(SEPARATOR)
        &&& (timestamp != signed_timestamp || length != signed_length || text != signed_text)
    }
}

/// A signature that was made for one message does not pass for a request
/// with another timestamp, another length or another text: where the
/// signature is valid for what was signed, and for that alone, a request
/// that differs from what was signed is found not valid. In particular a
/// message that was signed with a declared length other than the length
/// of the body never verifies.
pub proof fn lemma_changed_request_is_not_valid(
    signature: Seq<u8>,
    public_key: Seq<u8>,
    signed_timestamp: Seq<u8>,
    signed_length: nat,
    signed_text: Seq<u8>,
    timestamp: Seq<u8>,
    body: Seq<u8>,
)
    requires
        is_hex(signature),
        hex_decoding(signature).len() == 64,
        ed25519_strict(
            public_key,
            signed_message(signed_timestamp, signed_length, signed_text),
            hex_decoding(signature),
        ),
        signs_one_message(public_key, hex_decoding(signature)),
        differs_from_signed(
            signed_timestamp,
            signed_length,
            signed_text,
            timestamp,
            body.len(),
            utf8_lossy(body),
        ),
    ensures
        signature_verdict(signature, timestamp, body, public_key) == Ok::<bool, Error>(false),
{
    let signed = signed_message(signed_timestamp, signed_length, signed_text);
    let checked = request_message(timestamp, body);
    if signed == checked {
        if timestamp == signed_timestamp {
            lemma_signed_message_binds_length_and_text(
                timestamp,
                signed_length,
                signed_text,
                body.len(),
                utf8_lossy(body),
            );
        } else if body.len() == signed_length && utf8_lossy(body) == signed_text {
            lemma_signed_message_binds_timestamp(
                signed_timestamp,
                timestamp,
                signed_length,
                signed_text,
            );
        } else {
            lemma_signed_message_binds_its_parts(
                signed_timestamp,
                signed_length,
                signed_text,
                timestamp,
                body.len(),
                utf8_lossy(body),
            );
        }
    }
    assert(signed != checked);
    if ed25519_strict(public_key, checked, hex_decoding(signature)) {
        assert(signed == checked);
    }
}

/// Whether the signature of a request is valid for its timestamp and body
/// under a public key. The answer is settled by these four alone.
pub fn signature_is_valid(
    signature: &[u8],
    timestamp: &[u8],
    body: &[u8],
    public_key: &[u8; 32],
) -> (result: Result<bool, Error>)
    ensures
        result == signature_verdict(signature@, timestamp@, body@, public_key@),
{
    let text = lossy_text(body);
    let sig_body = canonical_message(timestamp, body.len(), text.as_slice());
    let sig_bytes = match hex_decode(signature) {
        Ok(bytes) => bytes,
        Err(_) => {
            return Err(Error::Hex);
        },
    };
    let sig = match parse_signature(sig_bytes.as_slice()) {
        Ok(sig) => sig,
        Err(_) => {
            return Err(Error::Signature);
        },
    };
    Ok(verify_strict(public_key, sig_body.as_slice(), &sig))
}

/// A header as far as it counts: one that cannot be read as text counts as
/// missing.
pub open spec fn readable(header: Option<&[u8]>) -> Option<Seq<u8>> {
    match header {
        Some(value) if is_header_text(value@) => Some(value@),
        _ => None,
    }
}

fn readable_header<'a>(header: Option<&'a [u8]>) -> (value: Option<&'a [u8]>)
    ensures
        match value {
            Some(value) => readable(header) == Some(value@),
            None => readable(header) is None,
        },
{
    match header {
        Some(value) => if is_readable(value) {
            Some(value)
        } else {
            None
        },
        None => None,
    }
}

/// Whether a request is let through by its signature.
///
/// A deployment that does not validate signatures lets every request
/// through. Otherwise a body above `MAX_BODY` is `ToBytesError`, before
/// anything is verified. A request that lacks the timestamp, the signature
/// or both is turned down with the error of what it lacks, whatever the
/// signature says. With both, the request is let through exactly where
/// the signature is valid; a malformed signature is reported as
/// `signature_verdict` reports it, and one that does not verify is
/// `MissingAllSignatureHeader`.
pub open spec fn request_verdict(
    validate_signatures: bool,
    signature_header: Option<&[u8]>,
    timestamp_header: Option<&[u8]>,
    body: Seq<u8>,
    public_key: Seq<u8>,
) -> Result<(), Error> {
    if !validate_signatures {
        Ok(())
    } else if body.len() > MAX_BODY {
        Err(Error::ToBytesError)
    } else {
        match (readable(signature_header), readable(timestamp_header)) {
            (Some(signature), Some(timestamp)) => match signature_verdict(
                signature,
                timestamp,
                body,
                public_key,
            ) {
                Ok(true) => Ok(()),
                Ok(false) => Err(Error::MissingAllSignatureHeader),
                Err(error) => Err(error),
            },
            (Some(_), None) => Err(Error::MissingTimestampHeader),
            (None, Some(_)) => Err(Error::MissingSignatureHeader),
            (None, None) => Err(Error::MissingAllSignatureHeader),
        }
    }
}

/// A signed request without a readable timestamp is turned down for the
/// missing timestamp, whatever its signature is worth.
pub proof fn lemma_missing_timestamp_comes_first(
    signature_header: Option<&[u8]>,
    timestamp_header: Option<&[u8]>,
    body: Seq<u8>,
    public_key: Seq<u8>,
)
    requires
        body.len() <= MAX_BODY,
        readable(signature_header) is Some,
        readable(timestamp_header) is None,
    ensures
        request_verdict(true, signature_header, timestamp_header, body, public_key) == Err::<
            (),
            Error,
        >(Error::MissingTimestampHeader),
{
}

/// Lets a request through or turns it down by its signature, as
/// `request_verdict` says.
pub fn verify_request(
    validate_signatures: bool,
    signature_header: Option<&[u8]>,
    timestamp_header: Option<&[u8]>,
    body: &[u8],
    public_key: &[u8; 32],
) -> (result: Result<(), Error>)
    ensures
        result == request_verdict(
            validate_signatures,
            signature_header,
            timestamp_header,
            body@,
            public_key@,
        ),
{
    if !validate_signatures {
        return Ok(());
    }
    if body.len() > MAX_BODY {
        return Err(Error::ToBytesError);
    }
    match (readable_header(signature_header), readable_header(timestamp_header)) {
        (Some(signature), Some(timestamp)) => {
            if signature_is_valid(signature, timestamp, body, public_key)? {
                Ok(())
            } else {
                Err(Error::MissingAllSignatureHeader)
            }
        },
        (Some(_), None) => Err(Error::MissingTimestampHeader),
        (None, Some(_)) => Err(Error::MissingSignatureHeader),
        (None, None) => Err(Error::MissingAllSignatureHeader),
    }
}

impl<T> RequireValidSignature<T> {
    /// Wraps what the inner extractor made of a request that was let
    /// through; where it made nothing, the request is turned down with
    /// `FromRequestError`.
    pub fn wrap(extracted: Option<T>) -> (result: Result<RequireValidSignature<T>, Error>)
        ensures
            match extracted {
                Some(inner) => result == Ok::<RequireValidSignature<T>, Error>(
                    RequireValidSignature(inner),
                ),
                None => result == Err::<RequireValidSignature<T>, Error>(Error::FromRequestError),
            },
    {
        match extracted {
            Some(inner) => Ok(RequireValidSignature(inner)),
            None => Err(Error::FromRequestError),
        }
    }
}

} // verus!
