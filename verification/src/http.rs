//! The requests that a login attempt makes and the replies it gets, as plain values.
//!
//! Nothing here touches the network. A request says what is to be sent; whoever sends it
//! hands back a [`Reply`].

use vstd::prelude::*;
use vstd::string::StringExecFns;
use crate::json::{Json, JsonView};
use crate::text::join;

verus! {

/// The provider's host, with its scheme.
pub const BASE_URL: &'static str =
    "https://idcs-8e8265d058d54299bdc845382c75339f.identity.oraclecloud.com";

/// Path of the OAuth2 token endpoint.
pub const TOKEN_PATH: &'static str = "/oauth2/v1/token";

/// Path of the endpoint that carries the sign-on negotiation.
pub const AUTHENTICATE_PATH: &'static str = "/sso/v1/sdk/authenticate";

/// Path of the endpoint that returns the signed-in user's profile.
pub const PROFILE_PATH: &'static str = "/admin/v1/Me";

/// The scope asked for with both grants.
pub const SCOPE: &'static str = "urn:opc:idm:__myscopes__";

/// Grant type of a service acting as itself.
pub const CLIENT_CREDENTIALS_GRANT: &'static str = "client_credentials";

/// Grant type that trades a signed assertion for a token.
pub const JWT_BEARER_GRANT: &'static str = "urn:ietf:params:oauth:grant-type:jwt-bearer";

/// The operation named in every body posted to the sign-on endpoint.
pub const CREDENTIAL_SUBMIT: &'static str = "credSubmit";

/// What stands in for a credential in diagnostic output.
pub const CREDENTIAL_MARK: &'static str = "***";

/// What stands in for a token or an assertion in diagnostic output.
pub const TOKEN_MARK: &'static str = "*****";

#[derive(Debug, Clone, Copy, PartialEq, Eq)]
pub enum Method {
    Get,
    Post,
}

#[derive(Debug, Clone, Copy, PartialEq, Eq)]
pub enum Endpoint {
    Token,
    Authenticate,
    Profile,
}

#[derive(Debug, Clone, Copy, PartialEq, Eq)]
pub enum ContentType {
    FormUrlEncoded,
    Json,
}

/// The value of the `Authorization` header: a scheme and what follows it.
#[derive(Debug, PartialEq, Eq)]
pub enum Authorization {
    /// The service itself: the encoded pair of client id and client secret.
    Basic(String),
    /// The holder of an access token.
    Bearer(String),
}

pub enum AuthorizationView {
    Basic(Seq<char>),
    Bearer(Seq<char>),
}

impl View for Authorization {
    type V = AuthorizationView;

    open spec fn view(&self) -> AuthorizationView {
        match self {
            Authorization::Basic(encoded) => AuthorizationView::Basic(encoded@),
            Authorization::Bearer(token) => AuthorizationView::Bearer(token@),
        }
    }
}

impl AuthorizationView {
    /// The header as it goes over the wire.
    pub open spec fn header_value(self) -> Seq<char> {
        match self {
            AuthorizationView::Basic(encoded) => "Basic "@ + encoded,
            AuthorizationView::Bearer(token) => "Bearer "@ + token,
        }
    }

    /// The header with a mark in place of what it carries.
    pub open spec fn redacted(self) -> AuthorizationView {
        match self {
            AuthorizationView::Basic(_) => AuthorizationView::Basic(TOKEN_MARK@),
            AuthorizationView::Bearer(_) => AuthorizationView::Bearer(TOKEN_MARK@),
        }
    }
}

impl Authorization {
    /// The header as it goes over the wire.
    pub fn header_value(&self) -> (value: String)
        ensures
            value@ == self@.header_value(),
    {
        match self {
            Authorization::Basic(encoded) => join("Basic ", encoded.as_str()),
            Authorization::Bearer(token) => join("Bearer ", token.as_str()),
        }
    }

    /// The header with a mark in place of what it carries, for diagnostic output.
    pub fn redacted(&self) -> (marked: Authorization)
        ensures
            marked@ == self@.redacted(),
    {
        match self {
            Authorization::Basic(_) => Authorization::Basic(String::from_str(TOKEN_MARK)),
            Authorization::Bearer(_) => Authorization::Bearer(String::from_str(TOKEN_MARK)),
        }
    }

    /// A copy of the header.
    pub fn duplicate(&self) -> (copy: Authorization)
        ensures
            copy@ == self@,
    {
        match self {
            Authorization::Basic(encoded) => Authorization::Basic(encoded.clone()),
            Authorization::Bearer(token) => Authorization::Bearer(token.clone()),
        }
    }
}

/// What a request carries, by meaning. [`Payload::wire`] gives its form on the wire.
#[derive(Debug, PartialEq, Eq)]
pub enum Payload {
    Empty,
    /// The grant of a service acting as itself.
    ClientCredentialsGrant,
    /// The grant that trades a signed assertion for a user's token.
    AssertionGrant { assertion: String },
    /// The user's name and password, for the negotiation that `request_state` names.
    CredentialSubmission { username: String, password: String, request_state: String },
    /// The request state alone, to close the negotiation.
    Completion { request_state: String },
}

pub enum PayloadView {
    Empty,
    ClientCredentialsGrant,
    AssertionGrant { assertion: Seq<char> },
    CredentialSubmission { username: Seq<char>, password: Seq<char>, request_state: Seq<char> },
    Completion { request_state: Seq<char> },
}

impl View for Payload {
    type V = PayloadView;

    open spec fn view(&self) -> PayloadView {
        match self {
            Payload::Empty => PayloadView::Empty,
            Payload::ClientCredentialsGrant => PayloadView::ClientCredentialsGrant,
            Payload::AssertionGrant { assertion } => PayloadView::AssertionGrant {
                assertion: assertion@,
            },
            Payload::CredentialSubmission {
                username,
                password,
                request_state,
            } => PayloadView::CredentialSubmission {
                username: username@,
                password: password@,
                request_state: request_state@,
            },
            Payload::Completion { request_state } => PayloadView::Completion {
                request_state: request_state@,
            },
        }
    }
}

/// A body as it goes over the wire: nothing, form fields in order, or a JSON document.
#[derive(Debug, PartialEq, Eq)]
pub enum WireBody {
    Empty,
    Form(Vec<(String, String)>),
    Json(Json),
}

pub enum WireBodyView {
    Empty,
    Form(Seq<(Seq<char>, Seq<char>)>),
    Json(JsonView),
}

impl View for WireBody {
    type V = WireBodyView;

    open spec fn view(&self) -> WireBodyView {
        match self {
            WireBody::Empty => WireBodyView::Empty,
            WireBody::Form(fields) => WireBodyView::Form(
                Seq::new(fields@.len(), |i: int| (fields@[i].0@, fields@[i].1@)),
            ),
            WireBody::Json(doc) => WireBodyView::Json(doc@),
        }
    }
}

impl PayloadView {
    /// The form of the payload on the wire.
    ///
    /// The members of a JSON object stand in the order of their names.
    pub open spec fn wire(self) -> WireBodyView {
        match self {
            PayloadView::Empty => WireBodyView::Empty,
            PayloadView::ClientCredentialsGrant => WireBodyView::Form(
                seq![("grant_type"@, CLIENT_CREDENTIALS_GRANT@), ("scope"@, SCOPE@)],
            ),
            PayloadView::AssertionGrant { assertion } => WireBodyView::Form(
                seq![
                    ("grant_type"@, JWT_BEARER_GRANT@),
                    ("scope"@, SCOPE@),
                    ("assertion"@, assertion),
                ],
            ),
            PayloadView::CredentialSubmission {
                username,
                password,
                request_state,
            } => WireBodyView::Json(
                JsonView::Object(
                    seq![
                        (
                            "credentials"@,
                            JsonView::Object(
                                seq![
                                    ("password"@, JsonView::Text(password)),
                                    ("username"@, JsonView::Text(username)),
                                ],
                            ),
                        ),
                        ("op"@, JsonView::Text(CREDENTIAL_SUBMIT@)),
                        ("requestState"@, JsonView::Text(request_state)),
                    ],
                ),
            ),
            PayloadView::Completion { request_state } => WireBodyView::Json(
                JsonView::Object(
                    seq![
                        ("op"@, JsonView::Text(CREDENTIAL_SUBMIT@)),
                        ("requestState"@, JsonView::Text(request_state)),
                    ],
                ),
            ),
        }
    }

    /// The payload with marks in place of the credentials, the request state that goes
    /// with them, and the assertion.
    pub open spec fn redacted(self) -> PayloadView {
        match self {
            PayloadView::AssertionGrant { .. } => PayloadView::AssertionGrant {
                assertion: TOKEN_MARK@,
            },
            PayloadView::CredentialSubmission { .. } => PayloadView::CredentialSubmission {
                username: CREDENTIAL_MARK@,
                password: CREDENTIAL_MARK@,
                request_state: CREDENTIAL_MARK@,
            },
            other => other,
        }
    }
}

/// A form field.
fn field(name: &str, value: &str) -> (pair: (String, String))
    ensures
        pair.0@ == name@,
        pair.1@ == value@,
{
    (String::from_str(name), String::from_str(value))
}

/// A member of a JSON object whose value is a string.
fn text_member(name: &str, value: &str) -> (pair: (String, Json))
    ensures
        pair.0@ == name@,
        pair.1@ == JsonView::Text(value@),
{
    (String::from_str(name), Json::Text(String::from_str(value)))
}

impl Payload {
    /// The form of the payload on the wire.
    pub fn wire(&self) -> (body: WireBody)
        ensures
            body@ == self@.wire(),
    {
        match self {
            Payload::Empty => WireBody::Empty,
            Payload::ClientCredentialsGrant => {
                let mut fields: Vec<(String, String)> = Vec::new();
                fields.push(field("grant_type", CLIENT_CREDENTIALS_GRANT));
                fields.push(field("scope", SCOPE));
                let body = WireBody::Form(fields);
                assert(body@->Form_0 =~= self@.wire()->Form_0);
                body
            },
            Payload::AssertionGrant { assertion } => {
                let mut fields: Vec<(String, String)> = Vec::new();
                fields.push(field("grant_type", JWT_BEARER_GRANT));
                fields.push(field("scope", SCOPE));
                fields.push(field("assertion", assertion.as_str()));
                let body = WireBody::Form(fields);
                assert(body@->Form_0 =~= self@.wire()->Form_0);
                body
            },
            Payload::CredentialSubmission { username, password, request_state } => {
                let mut pair: Vec<(String, Json)> = Vec::new();
                pair.push(text_member("password", password.as_str()));
                pair.push(text_member("username", username.as_str()));
                let credentials = Json::Object(pair);
                assert(credentials@->Object_0 =~= seq![
                    ("password"@, JsonView::Text(password@)),
                    ("username"@, JsonView::Text(username@)),
                ]);
                let mut members: Vec<(String, Json)> = Vec::new();
                members.push((String::from_str("credentials"), credentials));
                members.push(text_member("op", CREDENTIAL_SUBMIT));
                members.push(text_member("requestState", request_state.as_str()));
                let doc = Json::Object(members);
                assert(doc@->Object_0 =~= self@.wire()->Json_0->Object_0);
                WireBody::Json(doc)
            },
            Payload::Completion { request_state } => {
                let mut members: Vec<(String, Json)> = Vec::new();
                members.push(text_member("op", CREDENTIAL_SUBMIT));
                members.push(text_member("requestState", request_state.as_str()));
                let doc = Json::Object(members);
                assert(doc@->Object_0 =~= self@.wire()->Json_0->Object_0);
                WireBody::Json(doc)
            },
        }
    }

    /// The payload with marks in place of the credentials, the request state that goes
    /// with them, and the assertion: what may appear in diagnostic output.
    pub fn redacted(&self) -> (marked: Payload)
        ensures
            marked@ == self@.redacted(),
    {
        match self {
            Payload::Empty => Payload::Empty,
            Payload::ClientCredentialsGrant => Payload::ClientCredentialsGrant,
            Payload::AssertionGrant { .. } => Payload::AssertionGrant {
                assertion: String::from_str(TOKEN_MARK),
            },
            Payload::CredentialSubmission { .. } => Payload::CredentialSubmission {
                username: String::from_str(CREDENTIAL_MARK),
                password: String::from_str(CREDENTIAL_MARK),
                request_state: String::from_str(CREDENTIAL_MARK),
            },
            Payload::Completion { request_state } => Payload::Completion {
                request_state: request_state.clone(),
            },
        }
    }
}

/// One request to the provider.
#[derive(Debug, PartialEq, Eq)]
pub struct HttpRequest {
    pub method: Method,
    pub endpoint: Endpoint,
    pub authorization: Authorization,
    pub content_type: Option<ContentType>,
    pub payload: Payload,
}

pub struct HttpRequestView {
    pub method: Method,
    pub endpoint: Endpoint,
    pub authorization: AuthorizationView,
    pub content_type: Option<ContentType>,
    pub payload: PayloadView,
}

impl View for HttpRequest {
    type V = HttpRequestView;

    open spec fn view(&self) -> HttpRequestView {
        HttpRequestView {
            method: self.method,
            endpoint: self.endpoint,
            authorization: self.authorization@,
            content_type: self.content_type,
            payload: self.payload@,
        }
    }
}

/// The path of an endpoint.
pub open spec fn path_of(endpoint: Endpoint) -> Seq<char> {
    match endpoint {
        Endpoint::Token => TOKEN_PATH@,
        Endpoint::Authenticate => AUTHENTICATE_PATH@,
        Endpoint::Profile => PROFILE_PATH@,
    }
}

impl HttpRequestView {
    /// The address the request goes to.
    pub open spec fn url(self) -> Seq<char> {
        BASE_URL@ + path_of(self.endpoint)
    }

    /// The request as it may appear in diagnostic output.
    pub open spec fn redacted(self) -> HttpRequestView {
        HttpRequestView {
            method: self.method,
            endpoint: self.endpoint,
            authorization: self.authorization.redacted(),
            content_type: self.content_type,
            payload: self.payload.redacted(),
        }
    }
}

impl HttpRequest {
    /// The address the request goes to.
    pub fn url(&self) -> (address: String)
        ensures
            address@ == self@.url(),
    {
        match self.endpoint {
            Endpoint::Token => join(BASE_URL, TOKEN_PATH),
            Endpoint::Authenticate => join(BASE_URL, AUTHENTICATE_PATH),
            Endpoint::Profile => join(BASE_URL, PROFILE_PATH),
        }
    }

    /// The request as it may appear in diagnostic output: with marks in place of what
    /// the authorization header carries and of the secrets in the payload.
    pub fn redacted(&self) -> (marked: HttpRequest)
        ensures
            marked@ == self@.redacted(),
    {
        HttpRequest {
            method: self.method,
            endpoint: self.endpoint,
            authorization: self.authorization.redacted(),
            content_type: self.content_type,
            payload: self.payload.redacted(),
        }
    }
}

/// What came back for a request: the provider's answer, read to its end, or the reason why
/// there is none.
#[derive(Debug, PartialEq, Eq)]
pub enum Reply {
    Response { status: u16, body: String },
    Failure(String),
}

pub enum ReplyView {
    Response { status: u16, body: Seq<char> },
    Failure(Seq<char>),
}

impl View for Reply {
    type V = ReplyView;

    open spec fn view(&self) -> ReplyView {
        match self {
            Reply::Response { status, body } => ReplyView::Response { status: *status, body: body@ },
            Reply::Failure(message) => ReplyView::Failure(message@),
        }
    }
}

/// Whether a status code is one of success: 200 to 299.
pub open spec fn is_success_code(status: u16) -> bool {
    200 <= status && status < 300
}

/// Whether a status code is one of success: 200 to 299.
pub fn is_success(status: u16) -> (success: bool)
    ensures
        success == is_success_code(status),
{
    200 <= status && status < 300
}

} // verus!
