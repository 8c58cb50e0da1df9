use vstd::prelude::*;
use crate::error::Error;

verus! {

/// What a tenant's token claims, as far as requests are judged by it: the
/// project that the token was issued for.
#[derive(Debug, PartialEq, Eq)]
pub struct Claims {
    pub sub: String,
}

/// Checks the tokens that a tenant's requests carry against the shared
/// secret of the deployment, which it holds.
pub struct JwtValidationClient {
    secret: String,
}

/// The claim of a token that names the project it was issued for.
pub const SUBJECT_CLAIM: &'static str = "sub";

/// Calls `jsonwebtoken::decode` with the key that
/// `jsonwebtoken::DecodingKey::from_secret` makes of the secret and the
/// default validation for HS256, and hands out the named claim of an
/// accepted token, where it is text. Whether a token is accepted depends on
/// the time of the call, so nothing is stated of the outcome.
#[verifier::external_body]
fn decode_claim(secret: &str, token: &str, claim: &str) -> (text: Option<String>) {
    let key = jsonwebtoken::DecodingKey::from_secret(secret.as_bytes());
    let validation = jsonwebtoken::Validation::new(jsonwebtoken::Algorithm::HS256);
    match jsonwebtoken::decode::<serde_json::Value>(token, &key, &validation) {
        Ok(data) => data.claims.get(claim).and_then(|text| text.as_str()).map(
            |text| text.to_owned(),
        ),
        Err(_) => None,
    }
}

/// What the attempt to decode a token means: its claims where a subject
/// came out, `InvalidAuthentication` where none did.
pub fn claims_of(subject: Option<String>) -> (result: Result<Claims, Error>)
    ensures
        match subject {
            Some(sub) => result == Ok::<Claims, Error>(Claims { sub }),
            None => result == Err::<Claims, Error>(Error::InvalidAuthentication),
        },
{
    match subject {
        Some(sub) => Ok(Claims { sub }),
        None => Err(Error::InvalidAuthentication),
    }
}

impl JwtValidationClient {
    /// The shared secret against which the client checks tokens.
    pub closed spec fn secret(&self) -> Seq<char> {
        self.secret@
    }

    /// A client that checks tokens against the given shared secret.
    pub fn new(jwt_secret: String) -> (client: JwtValidationClient)
        ensures
            client.secret() == jwt_secret@,
    {
        JwtValidationClient { secret: jwt_secret }
    }

    /// The claims of a token, where the token is signed with the shared
    /// secret and has not expired. Whether it is, is for the token library
    /// and the clock to say; any other token is `InvalidAuthentication`.
    pub fn is_valid_token(&self, jwt: &str) -> (result: Result<Claims, Error>)
        ensures
            result is Err ==> result->Err_0 == Error::InvalidAuthentication,
    {
        claims_of(decode_claim(self.secret.as_str(), jwt, SUBJECT_CLAIM))
    }
}

} // verus!
