use vstd::prelude::*;
use crate::encoding::{base64_decode, base64_decoding};
use crate::error::Error;

verus! {

/// The text of a field of a JSON document: `Some` where the document is
/// well-formed JSON, its top level is an object, and the object holds a
/// string under the key.
pub uninterp spec fn json_text(document: Seq<u8>, key: Seq<char>) -> Option<Seq<char>>;

/// Calls `serde_json::from_slice` for a `Value`, then `Value::get` with the
/// key and `Value::as_str` on what is found. Trusted: the text handed back
/// is what `json_text` names, and there is none where `json_text` is
/// `None`.
#[verifier::external_body]
fn json_text_field(document: &[u8], key: &str) -> (text: Option<String>)
    ensures
        text.deep_view() == json_text(document@, key@),
{
    match serde_json::from_slice::<serde_json::Value>(document) {
        Ok(value) => value.get(key).and_then(|field| field.as_str()).map(|field| field.to_owned()),
        Err(_) => None,
    }
}

/// What a plaintext notification shows.
#[derive(Debug, PartialEq, Eq)]
pub struct DecryptedPayloadBlob {
    pub title: String,
    pub body: String,
}

impl DecryptedPayloadBlob {
    /// Reads a blob: base64 text of a JSON object with the texts `title`
    /// and `body`. Text that is not base64 is `Base64Decode`; a document
    /// without either text is `InvalidBlob`.
    pub fn from_base64_encoded(blob: &str) -> (result: Result<DecryptedPayloadBlob, Error>)
        ensures
            match base64_decoding(blob@) {
                None => result == Err::<DecryptedPayloadBlob, Error>(Error::Base64Decode),
                Some(document) => match (
                    json_text(document, "title"@),
                    json_text(document, "body"@),
                ) {
                    (Some(title), Some(body)) => {
                        &&& result is Ok
                        &&& result->Ok_0.title@ == title
                        &&& result->Ok_0.body@ == body
                    },
                    _ => result == Err::<DecryptedPayloadBlob, Error>(Error::InvalidBlob),
                },
            },
    {
        let document = match base64_decode(blob) {
            Ok(document) => document,
            Err(_) => {
                return Err(Error::Base64Decode);
            },
        };
        let title = json_text_field(document.as_slice(), "title");
        let body = json_text_field(document.as_slice(), "body");
        match (title, body) {
            (Some(title), Some(body)) => Ok(DecryptedPayloadBlob { title, body }),
            _ => Err(Error::InvalidBlob),
        }
    }
}

} // verus!
