//! The six steps of a login attempt, each in two halves: the request it makes, and what it
//! makes of the reading of the reply.

use vstd::prelude::*;
use vstd::string::StringExecFns;
use crate::error::{AuthError, AuthErrorView};
use crate::http::{
    Authorization, AuthorizationView, ContentType, Endpoint, HttpRequest, HttpRequestView, Method,
    Payload, PayloadView,
};
use crate::json::{Json, JsonView};
use crate::reading::{Reading, ReadingView};
use crate::records::{
    session_of, token_of, verdict_of, AuthResponse, AuthResponseView, InitAuthResponse,
    InitAuthResponseView, TokenResponse, TokenResponseView, STATUS_SUCCESS,
};
use crate::text::{join, reads};

verus! {

/// The steps, in the order in which the provider sees them.
#[derive(Debug, Clone, Copy, PartialEq, Eq)]
pub enum Step {
    /// The service fetches a token for itself.
    ServiceToken,
    /// The service opens a sign-on negotiation.
    Session,
    /// The user's credentials are submitted.
    Credentials,
    /// The negotiation is closed, for a signed assertion.
    Completion,
    /// The assertion is traded for the user's token.
    UserToken,
    /// The user's profile is fetched.
    Profile,
}

/// What follows the reader's fault in the message of a decoding error.
pub const RESPONSE_TEXT: &'static str = ". Response text: ";

/// What opens the fault of an answer that is JSON, though not of the expected shape.
pub const SHAPE_FAULT: &'static str = "missing or invalid member ";

/// What is reported when a successful completion carries no assertion.
pub const ASSERTION_MISSING: &'static str =
    "Authentication completed without a usable authnToken";

/// How the message of a refusal at `step` begins.
pub open spec fn refusal_prefix(step: Step) -> Seq<char> {
    match step {
        Step::ServiceToken => "Failed to get token: "@,
        Step::Session => "Failed to initialize auth: "@,
        Step::Credentials => "Failed to get response: "@,
        Step::Completion => "Authentication failed: "@,
        Step::UserToken => "Failed to get token: "@,
        Step::Profile => "Failed to get user profile: "@,
    }
}

/// How the message of a decoding error at `step` begins.
pub open spec fn decode_prefix(step: Step) -> Seq<char> {
    match step {
        Step::ServiceToken => "Failed to parse token response: "@,
        Step::Session => "Failed to parse init response: "@,
        Step::Credentials => "Failed to parse response: "@,
        Step::Completion => "Failed to parse response JSON: "@,
        Step::UserToken => "Failed to parse token response: "@,
        Step::Profile => "Failed to parse profile response: "@,
    }
}

/// The error for an answer that `step` takes as a refusal: its message ends with the body.
pub open spec fn refusal(step: Step, body: Seq<char>) -> AuthErrorView {
    AuthErrorView::Protocol(refusal_prefix(step) + body)
}

/// The error for an answer that `step` cannot decode: its message holds the fault and ends
/// with the body.
pub open spec fn undecodable(step: Step, fault: Seq<char>, body: Seq<char>) -> AuthErrorView {
    AuthErrorView::Decode(decode_prefix(step) + fault + RESPONSE_TEXT@ + body)
}

/// The error for an answer that is JSON, though `member` is missing in it or of the wrong
/// kind.
pub open spec fn misshapen(step: Step, member: Seq<char>, body: Seq<char>) -> AuthErrorView {
    undecodable(step, SHAPE_FAULT@ + member, body)
}

/// The document of a reading and the body it was read from, or the error that `step`
/// reports where there is no document.
pub open spec fn document_of(step: Step, reading: ReadingView) -> Result<
    (JsonView, Seq<char>),
    AuthErrorView,
> {
    match reading {
        ReadingView::Unreachable { reason } => Err(AuthErrorView::Transport(reason)),
        ReadingView::Refused { body } => Err(refusal(step, body)),
        ReadingView::Garbled { fault, body } => Err(undecodable(step, fault, body)),
        ReadingView::Document { doc, body } => Ok((doc, body)),
    }
}

/// What a token step makes of a reading.
pub open spec fn token_reading(step: Step, reading: ReadingView) -> Result<
    TokenResponseView,
    AuthErrorView,
> {
    match document_of(step, reading) {
        Err(error) => Err(error),
        Ok((doc, body)) => match token_of(doc) {
            Ok(token) => Ok(token),
            Err(member) => Err(misshapen(step, member, body)),
        },
    }
}

/// What the session step makes of a reading.
pub open spec fn session_reading(reading: ReadingView) -> Result<
    InitAuthResponseView,
    AuthErrorView,
> {
    match document_of(Step::Session, reading) {
        Err(error) => Err(error),
        Ok((doc, body)) => match session_of(doc) {
            Ok(session) => Ok(session),
            Err(member) => Err(misshapen(Step::Session, member, body)),
        },
    }
}

/// What the credentials step makes of a reading. A verdict other than success is a
/// verdict all the same, and no error.
pub open spec fn verdict_reading(reading: ReadingView) -> Result<AuthResponseView, AuthErrorView> {
    match document_of(Step::Credentials, reading) {
        Err(error) => Err(error),
        Ok((doc, body)) => match verdict_of(doc) {
            Ok(verdict) => Ok(verdict),
            Err(member) => Err(misshapen(Step::Credentials, member, body)),
        },
    }
}

/// What the completion step makes of a reading: the assertion. Any status but success is
/// a refusal; a success without an assertion, or with an empty one, breaks the protocol.
pub open spec fn assertion_reading(reading: ReadingView) -> Result<Seq<char>, AuthErrorView> {
    match document_of(Step::Completion, reading) {
        Err(error) => Err(error),
        Ok((doc, body)) => if doc.text_at("status"@) != Some(STATUS_SUCCESS@) {
            Err(refusal(Step::Completion, body))
        } else {
            match doc.text_at("authnToken"@) {
                Some(assertion) => if assertion.len() > 0 {
                    Ok(assertion)
                } else {
                    Err(AuthErrorView::InvariantViolation(ASSERTION_MISSING@))
                },
                None => Err(AuthErrorView::InvariantViolation(ASSERTION_MISSING@)),
            }
        },
    }
}

/// What the profile step makes of a reading: the document as it is.
pub open spec fn profile_reading(reading: ReadingView) -> Result<JsonView, AuthErrorView> {
    match document_of(Step::Profile, reading) {
        Err(error) => Err(error),
        Ok((doc, _)) => Ok(doc),
    }
}

/// The request of the service for its own token.
pub open spec fn token_request_view(basic: AuthorizationView) -> HttpRequestView {
    HttpRequestView {
        method: Method::Post,
        endpoint: Endpoint::Token,
        authorization: basic,
        content_type: Some(ContentType::FormUrlEncoded),
        payload: PayloadView::ClientCredentialsGrant,
    }
}

/// The request that opens a sign-on negotiation.
pub open spec fn session_request_view(bearer: AuthorizationView) -> HttpRequestView {
    HttpRequestView {
        method: Method::Get,
        endpoint: Endpoint::Authenticate,
        authorization: bearer,
        content_type: Some(ContentType::Json),
        payload: PayloadView::Empty,
    }
}

/// The request that submits the user's credentials.
pub open spec fn credentials_request_view(
    bearer: AuthorizationView,
    request_state: Seq<char>,
    username: Seq<char>,
    password: Seq<char>,
) -> HttpRequestView {
    HttpRequestView {
        method: Method::Post,
        endpoint: Endpoint::Authenticate,
        authorization: bearer,
        content_type: Some(ContentType::Json),
        payload: PayloadView::CredentialSubmission { username, password, request_state },
    }
}

/// The request that closes the negotiation.
pub open spec fn completion_request_view(
    bearer: AuthorizationView,
    request_state: Seq<char>,
) -> HttpRequestView {
    HttpRequestView {
        method: Method::Post,
        endpoint: Endpoint::Authenticate,
        authorization: bearer,
        content_type: Some(ContentType::Json),
        payload: PayloadView::Completion { request_state },
    }
}

/// The request that trades the assertion for the user's token.
pub open spec fn assertion_request_view(
    basic: AuthorizationView,
    assertion: Seq<char>,
) -> HttpRequestView {
    HttpRequestView {
        method: Method::Post,
        endpoint: Endpoint::Token,
        authorization: basic,
        content_type: Some(ContentType::FormUrlEncoded),
        payload: PayloadView::AssertionGrant { assertion },
    }
}

/// The request for the user's profile.
pub open spec fn profile_request_view(bearer: AuthorizationView) -> HttpRequestView {
    HttpRequestView {
        method: Method::Get,
        endpoint: Endpoint::Profile,
        authorization: bearer,
        content_type: None,
        payload: PayloadView::Empty,
    }
}

/// The request of the service for its own token: the client-credentials grant, posted as
/// a form to the token endpoint.
pub fn token_request(basic: Authorization) -> (request: HttpRequest)
    ensures
        request@ == token_request_view(basic@),
{
    HttpRequest {
        method: Method::Post,
        endpoint: Endpoint::Token,
        authorization: basic,
        content_type: Some(ContentType::FormUrlEncoded),
        payload: Payload::ClientCredentialsGrant,
    }
}

/// The request that opens a sign-on negotiation.
pub fn session_request(bearer: Authorization) -> (request: HttpRequest)
    ensures
        request@ == session_request_view(bearer@),
{
    HttpRequest {
        method: Method::Get,
        endpoint: Endpoint::Authenticate,
        authorization: bearer,
        content_type: Some(ContentType::Json),
        payload: Payload::Empty,
    }
}

/// The request that submits the user's credentials for the negotiation that
/// `request_state` names.
pub fn credentials_request(
    bearer: Authorization,
    request_state: String,
    username: String,
    password: String,
) -> (request: HttpRequest)
    ensures
        request@ == credentials_request_view(bearer@, request_state@, username@, password@),
{
    HttpRequest {
        method: Method::Post,
        endpoint: Endpoint::Authenticate,
        authorization: bearer,
        content_type: Some(ContentType::Json),
        payload: Payload::CredentialSubmission { username, password, request_state },
    }
}

/// The request that closes the negotiation that `request_state` names.
pub fn completion_request(bearer: Authorization, request_state: String) -> (request: HttpRequest)
    ensures
        request@ == completion_request_view(bearer@, request_state@),
{
    HttpRequest {
        method: Method::Post,
        endpoint: Endpoint::Authenticate,
        authorization: bearer,
        content_type: Some(ContentType::Json),
        payload: Payload::Completion { request_state },
    }
}

/// The request that trades the assertion for the user's token: the JWT-bearer grant,
/// posted as a form to the token endpoint.
pub fn assertion_request(basic: Authorization, assertion: String) -> (request: HttpRequest)
    ensures
        request@ == assertion_request_view(basic@, assertion@),
{
    HttpRequest {
        method: Method::Post,
        endpoint: Endpoint::Token,
        authorization: basic,
        content_type: Some(ContentType::FormUrlEncoded),
        payload: Payload::AssertionGrant { assertion },
    }
}

/// The request for the user's profile.
pub fn profile_request(bearer: Authorization) -> (request: HttpRequest)
    ensures
        request@ == profile_request_view(bearer@),
{
    HttpRequest {
        method: Method::Get,
        endpoint: Endpoint::Profile,
        authorization: bearer,
        content_type: None,
        payload: Payload::Empty,
    }
}

/// How the message of a refusal at `step` begins.
fn refusal_opening(step: Step) -> (opening: &'static str)
    ensures
        opening@ == refusal_prefix(step),
{
    match step {
        Step::ServiceToken => "Failed to get token: ",
        Step::Session => "Failed to initialize auth: ",
        Step::Credentials => "Failed to get response: ",
        Step::Completion => "Authentication failed: ",
        Step::UserToken => "Failed to get token: ",
        Step::Profile => "Failed to get user profile: ",
    }
}

/// How the message of a decoding error at `step` begins.
fn decode_opening(step: Step) -> (opening: &'static str)
    ensures
        opening@ == decode_prefix(step),
{
    match step {
        Step::ServiceToken => "Failed to parse token response: ",
        Step::Session => "Failed to parse init response: ",
        Step::Credentials => "Failed to parse response: ",
        Step::Completion => "Failed to parse response JSON: ",
        Step::UserToken => "Failed to parse token response: ",
        Step::Profile => "Failed to parse profile response: ",
    }
}

/// The error for an answer that `step` takes as a refusal.
pub fn refuse(step: Step, body: &str) -> (error: AuthError)
    ensures
        error@ == refusal(step, body@),
{
    AuthError::Protocol(join(refusal_opening(step), body))
}

/// The error for an answer that `step` cannot decode.
pub fn fail_decoding(step: Step, fault: &str, body: &str) -> (error: AuthError)
    ensures
        error@ == undecodable(step, fault@, body@),
{
    let mut message = join(decode_opening(step), fault);
    message.append(RESPONSE_TEXT);
    message.append(body);
    AuthError::Decode(message)
}

/// The error for an answer in which `member` is missing or of the wrong kind.
pub fn fail_shape(step: Step, member: &str, body: &str) -> (error: AuthError)
    ensures
        error@ == misshapen(step, member@, body@),
{
    let fault = join(SHAPE_FAULT, member);
    fail_decoding(step, fault.as_str(), body)
}

/// The view of a document with its body, or of the error in their place.
pub open spec fn opened_view(opened: Result<(Json, String), AuthError>) -> Result<
    (JsonView, Seq<char>),
    AuthErrorView,
> {
    match opened {
        Ok((doc, body)) => Ok((doc@, body@)),
        Err(error) => Err(error@),
    }
}

/// The document of a reading and the body it was read from, or the error that `step`
/// reports where there is no document.
pub fn open_document(step: Step, reading: Reading) -> (opened: Result<(Json, String), AuthError>)
    ensures
        opened_view(opened) == document_of(step, reading@),
{
    match reading {
        Reading::Unreachable { reason } => Err(AuthError::Transport(reason)),
        Reading::Refused { body } => Err(refuse(step, body.as_str())),
        Reading::Garbled { fault, body } => Err(fail_decoding(step, fault.as_str(), body.as_str())),
        Reading::Document { doc, body } => Ok((doc, body)),
    }
}

/// The view of a token or of the error in its place.
pub open spec fn token_view(read: Result<TokenResponse, AuthError>) -> Result<
    TokenResponseView,
    AuthErrorView,
> {
    match read {
        Ok(token) => Ok(token@),
        Err(error) => Err(error@),
    }
}

/// The view of a session or of the error in its place.
pub open spec fn session_view(read: Result<InitAuthResponse, AuthError>) -> Result<
    InitAuthResponseView,
    AuthErrorView,
> {
    match read {
        Ok(session) => Ok(session@),
        Err(error) => Err(error@),
    }
}

/// The view of a verdict or of the error in its place.
pub open spec fn verdict_view(read: Result<AuthResponse, AuthError>) -> Result<
    AuthResponseView,
    AuthErrorView,
> {
    match read {
        Ok(verdict) => Ok(verdict@),
        Err(error) => Err(error@),
    }
}

/// The view of a text or of the error in its place.
pub open spec fn text_view(read: Result<String, AuthError>) -> Result<Seq<char>, AuthErrorView> {
    match read {
        Ok(text) => Ok(text@),
        Err(error) => Err(error@),
    }
}

/// The view of a document or of the error in its place.
pub open spec fn document_view(read: Result<Json, AuthError>) -> Result<JsonView, AuthErrorView> {
    match read {
        Ok(doc) => Ok(doc@),
        Err(error) => Err(error@),
    }
}

/// What a token step makes of a reading: the token with the fields of the answer, or the
/// error of `step`.
pub fn read_token(step: Step, reading: Reading) -> (read: Result<TokenResponse, AuthError>)
    ensures
        token_view(read) == token_reading(step, reading@),
{
    match open_document(step, reading) {
        Err(error) => Err(error),
        Ok((doc, body)) => match TokenResponse::from_json(&doc) {
            Ok(token) => Ok(token),
            Err(member) => Err(fail_shape(step, member.as_str(), body.as_str())),
        },
    }
}

/// What the session step makes of a reading.
pub fn read_session(reading: Reading) -> (read: Result<InitAuthResponse, AuthError>)
    ensures
        session_view(read) == session_reading(reading@),
{
    match open_document(Step::Session, reading) {
        Err(error) => Err(error),
        Ok((doc, body)) => match InitAuthResponse::from_json(&doc) {
            Ok(session) => Ok(session),
            Err(member) => Err(fail_shape(Step::Session, member.as_str(), body.as_str())),
        },
    }
}

/// What the credentials step makes of a reading. A verdict other than success is returned
/// as a verdict, not as an error.
pub fn read_verdict(reading: Reading) -> (read: Result<AuthResponse, AuthError>)
    ensures
        verdict_view(read) == verdict_reading(reading@),
{
    match open_document(Step::Credentials, reading) {
        Err(error) => Err(error),
        Ok((doc, body)) => match AuthResponse::from_json(&doc) {
            Ok(verdict) => Ok(verdict),
            Err(member) => Err(fail_shape(Step::Credentials, member.as_str(), body.as_str())),
        },
    }
}

/// What the completion step makes of a reading: the assertion.
pub fn read_assertion(reading: Reading) -> (read: Result<String, AuthError>)
    ensures
        text_view(read) == assertion_reading(reading@),
{
    match open_document(Step::Completion, reading) {
        Err(error) => Err(error),
        Ok((doc, body)) => {
            let succeeded = match doc.text_at("status") {
                Some(status) => reads(&status, STATUS_SUCCESS),
                None => false,
            };
            if !succeeded {
                return Err(refuse(Step::Completion, body.as_str()));
            }
            match doc.text_at("authnToken") {
                Some(assertion) => {
                    if assertion.as_str().is_empty() {
                        Err(AuthError::InvariantViolation(String::from_str(ASSERTION_MISSING)))
                    } else {
                        Ok(assertion)
                    }
                },
                None => Err(AuthError::InvariantViolation(String::from_str(ASSERTION_MISSING))),
            }
        },
    }
}

/// What the profile step makes of a reading: the document as it is.
pub fn read_profile(reading: Reading) -> (read: Result<Json, AuthError>)
    ensures
        document_view(read) == profile_reading(reading@),
{
    match open_document(Step::Profile, reading) {
        Err(error) => Err(error),
        Ok((doc, _)) => Ok(doc),
    }
}

} // verus!
