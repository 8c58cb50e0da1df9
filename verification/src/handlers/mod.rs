use vstd::prelude::*;
use crate::error::Error;
use crate::middleware::validate_signature::{SIGNATURE_HEADER_NAME, TIMESTAMP_HEADER_NAME};
use crate::jwt_validation::{Claims, JwtValidationClient};
use crate::text::{
    ascii_chars, header_text, is_header_text, remove_matches, str_eq, without_matches,
};

pub mod register_client;
pub mod update_apns;

verus! {

/// Prefix that a decentralized identifier may carry; it is removed before a
/// client id is stored.
pub const DECENTRALIZED_IDENTIFIER_PREFIX: &'static str = "did:key:";

/// Where in a request a rejected field was found.
#[derive(Clone, Copy, Debug, PartialEq, Eq, Structural)]
pub enum ErrorLocation {
    Body,
    Header,
    Path,
    Unknown,
}

/// Whether a request was served.
#[derive(Clone, Copy, Debug, PartialEq, Eq, Structural)]
pub enum ResponseStatus {
    Success,
    Failure,
}

/// A rejected field of a request.
#[derive(Debug, PartialEq, Eq)]
pub struct ErrorField {
    pub field: String,
    pub description: String,
    pub location: ErrorLocation,
}

/// A named error in an answer.
#[derive(Debug, PartialEq, Eq)]
pub struct ResponseError {
    pub name: String,
    pub message: String,
}

/// The answer to a request: whether it was served, the HTTP status to send,
/// and what went wrong if anything did.
#[derive(Debug, PartialEq, Eq)]
pub struct Response {
    pub status: ResponseStatus,
    pub status_code: u16,
    pub errors: Option<Vec<ResponseError>>,
    pub fields: Option<Vec<ErrorField>>,
}

impl Response {
    /// The answer to a request that was served: no errors, no fields.
    pub fn new_success(status: u16) -> (response: Response)
        ensures
            response == (Response {
                status: ResponseStatus::Success,
                status_code: status,
                errors: None,
                fields: None,
            }),
    {
        Response { status: ResponseStatus::Success, status_code: status, errors: None, fields: None }
    }

    /// The answer to a request that failed, with the errors and the
    /// rejected fields as given.
    pub fn new_failure(status: u16, errors: Vec<ResponseError>, fields: Vec<ErrorField>) -> (response:
        Response)
        ensures
            response == (Response {
                status: ResponseStatus::Failure,
                status_code: status,
                errors: Some(errors),
                fields: Some(fields),
            }),
    {
        Response {
            status: ResponseStatus::Failure,
            status_code: status,
            errors: Some(errors),
            fields: Some(fields),
        }
    }
}

/// Where a failure points to in the request, if it points anywhere: the
/// name of the field and the place it is in.
pub open spec fn spec_error_field(error: Error) -> Option<(Seq<char>, ErrorLocation)> {
    match error {
        Error::EmptyField(field) => Some((field@, ErrorLocation::Body)),
        Error::ProviderNotFound(_) | Error::ProviderNotAvailable(_) => Some(
            ("type"@, ErrorLocation::Body),
        ),
        Error::TenantNotFound(_) => Some(("tenant_id"@, ErrorLocation::Path)),
        Error::ClientNotFound(_) => Some(("client_id"@, ErrorLocation::Path)),
        Error::MissingSignatureHeader => Some((SIGNATURE_HEADER_NAME@, ErrorLocation::Header)),
        Error::MissingTimestampHeader => Some((TIMESTAMP_HEADER_NAME@, ErrorLocation::Header)),
        Error::InvalidAuthentication | Error::Jwt => Some(
            ("Authorization"@, ErrorLocation::Header),
        ),
        _ => None,
    }
}

/// The field that a failure points to in the request, if it points
/// anywhere, described by the message of the failure's family.
pub fn error_field(error: &Error) -> (found: Option<ErrorField>)
    ensures
        match spec_error_field(*error) {
            Some((field, location)) => {
                &&& found is Some
                &&& found->0.field@ == field
                &&& found->0.description@ == error.spec_kind().spec_message()
                &&& found->0.location == location
            },
            None => found is None,
        },
{
    let (field, location) = match error {
        Error::EmptyField(field) => (field.clone(), ErrorLocation::Body),
        Error::ProviderNotFound(_) | Error::ProviderNotAvailable(_) => (
            "type".to_owned(),
            ErrorLocation::Body,
        ),
        Error::TenantNotFound(_) => ("tenant_id".to_owned(), ErrorLocation::Path),
        Error::ClientNotFound(_) => ("client_id".to_owned(), ErrorLocation::Path),
        Error::MissingSignatureHeader => (SIGNATURE_HEADER_NAME.to_owned(), ErrorLocation::Header),
        Error::MissingTimestampHeader => (TIMESTAMP_HEADER_NAME.to_owned(), ErrorLocation::Header),
        Error::InvalidAuthentication | Error::Jwt => (
            "Authorization".to_owned(),
            ErrorLocation::Header,
        ),
        _ => {
            return None;
        },
    };
    Some(ErrorField { field, description: error.kind().message().to_owned(), location })
}

impl Response {
    /// The answer that reports a failure: the status of the failure, one
    /// error with the failure's name and the message of its family, and
    /// the field that the failure points to, if it points to one.
    pub fn from_error(error: &Error) -> (response: Response)
        ensures
            response.status == ResponseStatus::Failure,
            response.status_code == error.status_code(),
            response.errors is Some,
            response.errors->0@.len() == 1,
            response.errors->0@[0].name@ == error.spec_name(),
            response.errors->0@[0].message@ == error.spec_kind().spec_message(),
            response.fields is Some,
            match spec_error_field(*error) {
                Some((field, location)) => {
                    &&& response.fields->0@.len() == 1
                    &&& response.fields->0@[0].field@ == field
                    &&& response.fields->0@[0].description@ == error.spec_kind().spec_message()
                    &&& response.fields->0@[0].location == location
                },
                None => response.fields->0@.len() == 0,
            },
    {
        let message = error.kind().message();
        let mut errors: Vec<ResponseError> = Vec::new();
        errors.push(ResponseError { name: error.name().to_owned(), message: message.to_owned() });
        let mut fields: Vec<ErrorField> = Vec::new();
        match error_field(error) {
            Some(field) => {
                fields.push(field);
            },
            None => {},
        }
        Response::new_failure(error.status_code(), errors, fields)
    }
}

impl Default for Response {
    /// The answer to a request that was served, with status 200.
    fn default() -> (response: Response)
        ensures
            response == (Response {
                status: ResponseStatus::Success,
                status_code: 200,
                errors: None,
                fields: None,
            }),
    {
        Response::new_success(200)
    }
}

/// Whether a request without an `Authorization` header passes the check
/// of the client's identity.
#[derive(Clone, Copy, Debug, PartialEq, Eq, Structural)]
pub struct AuthPolicy {
    pub anonymous_allowed: bool,
}

impl Default for AuthPolicy {
    /// Requests without the header pass.
    fn default() -> (policy: AuthPolicy)
        ensures
            policy.anonymous_allowed,
    {
        AuthPolicy { anonymous_allowed: true }
    }
}

/// What the check of a client's identity came to: the client that the
/// token names, if a token was presented, and whether the request may go
/// on in that client's name.
#[derive(Debug, PartialEq, Eq)]
pub struct AuthOutcome {
    pub client_id: Option<String>,
    pub scope_match: bool,
}

/// Checks the identity of the client behind a request.
///
/// `verify` stands for the token library: it takes the header as text and
/// the audience, and hands back the issuer of a token that it accepts.
/// `check` decides whether that issuer may make the request.
///
/// A request without the header passes or fails as the policy says, and
/// names no client. A header that cannot be read as text is
/// `InvalidAuthentication`; a token that `verify` turns down is `Jwt`. For
/// an accepted token the outcome names its issuer and holds what `check`
/// said of it.
pub fn resolve_client<V, F>(
    policy: AuthPolicy,
    auth_header: Option<&[u8]>,
    aud: &str,
    verify: V,
    check: F,
) -> (result: Result<AuthOutcome, Error>) where
    V: FnOnce(String, String) -> Option<String>,
    F: FnOnce(Option<String>) -> bool,

    requires
        forall|token: String, audience: String| call_requires(verify, (token, audience)),
        forall|id: Option<String>| call_requires(check, (id,)),
    ensures
        match auth_header {
            None => if policy.anonymous_allowed {
                result == Ok::<AuthOutcome, Error>(
                    AuthOutcome { client_id: None, scope_match: true },
                )
            } else {
                result == Err::<AuthOutcome, Error>(Error::InvalidAuthentication)
            },
            Some(value) => if !is_header_text(value@) {
                result == Err::<AuthOutcome, Error>(Error::InvalidAuthentication)
            } else {
                exists|token: String, audience: String, issuer: Option<String>|
                    {
                        &&& token@ == ascii_chars(value@)
                        &&& audience@ == aud@
                        &&& #[trigger] call_ensures(verify, (token, audience), issuer)
                        &&& match issuer {
                            None => result == Err::<AuthOutcome, Error>(Error::Jwt),
                            Some(id) => {
                                &&& result is Ok
                                &&& result->Ok_0.client_id == Some(id)
                                &&& call_ensures(check, (Some(id),), result->Ok_0.scope_match)
                            },
                        }
                    }
            },
        },
{
    match auth_header {
        None => {
            if policy.anonymous_allowed {
                Ok(AuthOutcome { client_id: None, scope_match: true })
            } else {
                Err(Error::InvalidAuthentication)
            }
        },
        Some(value) => {
            let token = match header_text(value) {
                Some(token) => token,
                None => {
                    return Err(Error::InvalidAuthentication);
                },
            };
            let audience = aud.to_owned();
            let ghost handed = (token, audience);
            let issuer = verify(token, audience);
            assert(call_ensures(verify, handed, issuer));
            match issuer {
                None => Err(Error::Jwt),
                Some(id) => {
                    let scope_match = check(Some(id.clone()));
                    Ok(AuthOutcome { client_id: Some(id), scope_match })
                },
            }
        },
    }
}

/// Whether the client behind a request may make it: `resolve_client`, of
/// which only the verdict is kept.
pub fn authenticate_client<V, F>(
    policy: AuthPolicy,
    auth_header: Option<&[u8]>,
    aud: &str,
    verify: V,
    check: F,
) -> (result: Result<bool, Error>) where
    V: FnOnce(String, String) -> Option<String>,
    F: FnOnce(Option<String>) -> bool,

    requires
        forall|token: String, audience: String| call_requires(verify, (token, audience)),
        forall|id: Option<String>| call_requires(check, (id,)),
    ensures
        match auth_header {
            None => if policy.anonymous_allowed {
                result == Ok::<bool, Error>(true)
            } else {
                result == Err::<bool, Error>(Error::InvalidAuthentication)
            },
            Some(value) => if !is_header_text(value@) {
                result == Err::<bool, Error>(Error::InvalidAuthentication)
            } else {
                exists|token: String, audience: String, issuer: Option<String>|
                    {
                        &&& token@ == ascii_chars(value@)
                        &&& audience@ == aud@
                        &&& #[trigger] call_ensures(verify, (token, audience), issuer)
                        &&& match issuer {
                            None => result == Err::<bool, Error>(Error::Jwt),
                            Some(id) => result is Ok && call_ensures(
                                check,
                                (Some(id),),
                                result->Ok_0,
                            ),
                        }
                    }
            },
        },
{
    match resolve_client(policy, auth_header, aud, verify, check) {
        Ok(outcome) => Ok(outcome.scope_match),
        Err(error) => Err(error),
    }
}

/// Lets a request go on where its sender was found to be who the request
/// needs; any other sender is `InvalidAuthentication`.
pub fn ensure_authenticated(authenticated: bool) -> (result: Result<(), Error>)
    ensures
        authenticated ==> result is Ok,
        !authenticated ==> result == Err::<(), Error>(Error::InvalidAuthentication),
{
    if authenticated {
        Ok(())
    } else {
        Err(Error::InvalidAuthentication)
    }
}

/// What the `Authorization` header of a request holds, once every copy of
/// the marker `Bearer ` is taken out of it; `None` where the header is
/// missing or cannot be read as text.
pub open spec fn spec_bearer_token(auth_header: Option<&[u8]>) -> Option<Seq<char>> {
    match auth_header {
        Some(value) if is_header_text(value@) => Some(
            without_matches(ascii_chars(value@), "Bearer "@),
        ),
        _ => None,
    }
}

/// The token that a request presents in its `Authorization` header, with
/// or without the marker `Bearer `. A request without the header, or with
/// one that cannot be read as text, is `InvalidAuthentication`.
pub fn bearer_token(auth_header: Option<&[u8]>) -> (result: Result<String, Error>)
    ensures
        match spec_bearer_token(auth_header) {
            Some(token) => result is Ok && result->Ok_0@ == token,
            None => result == Err::<String, Error>(Error::InvalidAuthentication),
        },
{
    match auth_header {
        Some(value) => match header_text(value) {
            Some(text) => Ok(remove_matches(text.as_str(), "Bearer ")),
            None => Err(Error::InvalidAuthentication),
        },
        None => Err(Error::InvalidAuthentication),
    }
}

/// The claims of the token that a request presents, where the deployment
/// accepts the token. Whether it does is for the token library to say;
/// every failure is `InvalidAuthentication`, and a request without a
/// readable `Authorization` header always fails.
pub fn validate_jwt(jwt_validation_client: &JwtValidationClient, auth_header: Option<&[u8]>) -> (result:
    Result<Claims, Error>)
    ensures
        result is Err ==> result->Err_0 == Error::InvalidAuthentication,
        spec_bearer_token(auth_header) is None ==> result is Err,
{
    let jwt = bearer_token(auth_header)?;
    jwt_validation_client.is_valid_token(jwt.as_str())
}

/// Whether claims entitle to act for a project: where a project is named,
/// the token must have been issued for it; where none is, any accepted
/// token will do.
pub open spec fn in_scope(claims: Claims, project_id: Option<&str>) -> bool {
    match project_id {
        Some(project_id) => claims.sub@ == project_id@,
        None => true,
    }
}

/// Judges accepted claims against the project that a request names.
pub fn tenant_scope(claims: &Claims, project_id: Option<&str>) -> (result: Result<(), Error>)
    ensures
        in_scope(*claims, project_id) ==> result is Ok,
        !in_scope(*claims, project_id) ==> result == Err::<(), Error>(Error::InvalidAuthentication),
{
    match project_id {
        Some(project_id) => {
            if str_eq(claims.sub.as_str(), project_id) {
                Ok(())
            } else {
                Err(Error::InvalidAuthentication)
            }
        },
        None => Ok(()),
    }
}

/// Authenticates a request that acts for a tenant: it must present a
/// token that the deployment accepts, and where the deployment binds
/// tokens to projects (`project_id` is given), one issued for that project.
/// Every failure is `InvalidAuthentication`, and a request without a
/// readable `Authorization` header always fails.
pub fn validate_tenant_request(
    jwt_validation_client: &JwtValidationClient,
    auth_header: Option<&[u8]>,
    project_id: Option<&str>,
) -> (result: Result<(), Error>)
    ensures
        result is Err ==> result->Err_0 == Error::InvalidAuthentication,
        spec_bearer_token(auth_header) is None ==> result is Err,
{
    let claims = validate_jwt(jwt_validation_client, auth_header)?;
    tenant_scope(&claims, project_id)
}

} // verus!
