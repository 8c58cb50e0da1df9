use vstd::prelude::*;
use vstd::string::StringSliceAdditionalSpecFns;
use vstd::utf8::encode_utf8;
use crate::encoding::{base64_decode, base64_decoding};
use crate::error::Error;
use crate::stores::tenant::{ApnsAuthView, TenantApnsUpdateAuth};

verus! {

/// The base64 text of the key material in APNS authentication material:
/// the certificate archive, or the signing key.
pub open spec fn encoded_material(auth: ApnsAuthView) -> Seq<char> {
    match auth {
        ApnsAuthView::Certificate { certificate, .. } => certificate,
        ApnsAuthView::Token { pkcs8_pem, .. } => pkcs8_pem,
    }
}

/// Whether the UTF-8 encoding of a text has no zero byte in it.
pub open spec fn free_of_nul(text: Seq<char>) -> bool {
    forall|i: int| 0 <= i < encode_utf8(text).len() ==> encode_utf8(text)[i] != 0
}

/// Calls `a2::Client::certificate` for the sandbox endpoint on a PKCS#12
/// archive and its password, and says whether a client came back. Nothing
/// is sent. Trusted for not panicking only: the outcome rests on the
/// machine's OpenSSL, so nothing is claimed of it. The call panics on a
/// password with a zero byte in it, which `requires` leaves out.
#[verifier::external_body]
fn certificate_client_builds(archive: &[u8], password: &str) -> (built: bool)
    requires
        free_of_nul(password@),
{
    a2::Client::certificate(
        &mut std::io::Cursor::new(archive),
        password,
        a2::ClientConfig::new(a2::Endpoint::Sandbox),
    ).is_ok()
}

/// The longest signing key, in bytes, that the APNS library reads: the
/// largest length that its OpenSSL takes a buffer of.
pub const MAX_SIGNING_KEY: usize = 0x7fff_ffff;

/// Calls `a2::Client::token` for the sandbox endpoint on a PEM signing key,
/// a key id and a team id, and says whether a client came back. Nothing is
/// sent. Trusted for not panicking only: the call signs a first token with
/// the current time, so nothing is claimed of its outcome. The call panics
/// on a key above `MAX_SIGNING_KEY`, which `requires` leaves out.
#[verifier::external_body]
fn token_client_builds(pkcs8_pem: &[u8], key_id: &str, team_id: &str) -> (built: bool)
    requires
        pkcs8_pem@.len() <= MAX_SIGNING_KEY,
{
    a2::Client::token(
        &mut std::io::Cursor::new(pkcs8_pem),
        key_id,
        team_id,
        a2::ClientConfig::new(a2::Endpoint::Sandbox),
    ).is_ok()
}

/// Whether a text has no zero byte in it.
pub fn has_no_nul(text: &str) -> (free: bool)
    ensures
        free == free_of_nul(text@),
{
    let bytes = text.as_bytes();
    let mut i: usize = 0;
    while i < bytes.len()
        invariant
            bytes@ == text.spec_bytes(),
            i <= bytes@.len(),
            forall|j: int| 0 <= j < i ==> bytes@[j] != 0,
        decreases bytes@.len() - i,
    {
        if bytes[i] == 0 {
            return false;
        }
        i += 1;
    }
    true
}

/// Decodes the key material of APNS authentication material from base64.
/// Material that is not base64 is bad credentials.
pub fn decode_material(auth: &TenantApnsUpdateAuth) -> (result: Result<Vec<u8>, Error>)
    ensures
        match base64_decoding(encoded_material(auth@)) {
            Some(bytes) => result is Ok && result->Ok_0@ == bytes,
            None => result == Err::<Vec<u8>, Error>(Error::BadApnsCredentials),
        },
{
    let decoded = match auth {
        TenantApnsUpdateAuth::Certificate { apns_certificate, .. } => base64_decode(
            apns_certificate.as_str(),
        ),
        TenantApnsUpdateAuth::Token { apns_pkcs8_pem, .. } => base64_decode(
            apns_pkcs8_pem.as_str(),
        ),
    };
    match decoded {
        Ok(bytes) => Ok(bytes),
        Err(_) => Err(Error::BadApnsCredentials),
    }
}

/// What the attempt to build a sandbox client means for the credentials:
/// they pass where a client was built, and are bad where none was.
pub fn sandbox_verdict(built: bool) -> (result: Result<(), Error>)
    ensures
        built ==> result is Ok,
        !built ==> result == Err::<(), Error>(Error::BadApnsCredentials),
{
    if built {
        Ok(())
    } else {
        Err(Error::BadApnsCredentials)
    }
}

/// Whether authentication material is turned down without the APNS
/// library being asked: its key material is not base64, or it is a
/// certificate whose password has a zero byte in it, or it is a signing key
/// of more than `MAX_SIGNING_KEY` bytes.
pub open spec fn rejected_outright(auth: ApnsAuthView) -> bool {
    match base64_decoding(encoded_material(auth)) {
        None => true,
        Some(material) => match auth {
            ApnsAuthView::Certificate { password, .. } => !free_of_nul(password),
            ApnsAuthView::Token { .. } => material.len() > MAX_SIGNING_KEY,
        },
    }
}

/// Checks APNS authentication material without sending anything: decodes
/// the key material and tries to build a client for the sandbox endpoint
/// from it. Whether a client can be built is for the APNS library to say;
/// every failure is `BadApnsCredentials`. Material that is not base64, a
/// certificate password with a zero byte in it, and a signing key above
/// `MAX_SIGNING_KEY` always fail, and the library is not asked.
pub fn check_sandbox(auth: &TenantApnsUpdateAuth) -> (result: Result<(), Error>)
    ensures
        result is Err ==> result->Err_0 == Error::BadApnsCredentials,
        rejected_outright(auth@) ==> result is Err,
{
    let material = decode_material(auth)?;
    let built = match auth {
        TenantApnsUpdateAuth::Certificate { apns_certificate_password, .. } => {
            if has_no_nul(apns_certificate_password.as_str()) {
                certificate_client_builds(material.as_slice(), apns_certificate_password.as_str())
            } else {
                false
            }
        },
        TenantApnsUpdateAuth::Token { apns_key_id, apns_team_id, .. } => {
            if material.len() <= MAX_SIGNING_KEY {
                token_client_builds(
                    material.as_slice(),
                    apns_key_id.as_str(),
                    apns_team_id.as_str(),
                )
            } else {
                false
            }
        },
    };
    sandbox_verdict(built)
}

} // verus!
