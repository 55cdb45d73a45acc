//! The two entry points of a login attempt, each as a flow of requests and replies.
//!
//! A flow never sends anything. It hands out the request that is due; the caller sends it
//! and comes back with the reply; the flow then says what is next: another request, the
//! result, or the error that ends the attempt. Each flow starts with a fresh token for the
//! service, and nothing is kept from one attempt to the next.

use vstd::prelude::*;
use vstd::string::StringExecFns;
use crate::credentials::ServiceCredentials;
use crate::error::{AuthError, AuthErrorView};
use crate::http::{Authorization, AuthorizationView, HttpRequest, HttpRequestView, Reply};
use crate::json::{Json, JsonView};
use crate::reading::{read_reply, reading_of, Reading, ReadingView};
use crate::records::{AuthResponse, AuthResponseView};
use crate::steps::{
    assertion_reading, assertion_request, assertion_request_view, completion_request,
    completion_request_view, credentials_request, credentials_request_view, profile_reading,
    profile_request, profile_request_view, read_assertion, read_profile, read_session,
    read_token, read_verdict, session_reading, session_request, session_request_view,
    token_reading, token_request, token_request_view, verdict_reading, Step,
};

verus! {

/// Where the first half of a login attempt stands: which reply it waits for, and what it
/// holds for the steps to come.
#[derive(Debug, PartialEq, Eq)]
pub enum LoginFlow {
    AwaitingServiceToken { username: String, password: String },
    AwaitingSession { bearer: Authorization, username: String, password: String },
    AwaitingVerdict,
}

pub enum LoginFlowView {
    AwaitingServiceToken { username: Seq<char>, password: Seq<char> },
    AwaitingSession { bearer: AuthorizationView, username: Seq<char>, password: Seq<char> },
    AwaitingVerdict,
}

impl View for LoginFlow {
    type V = LoginFlowView;

    open spec fn view(&self) -> LoginFlowView {
        match self {
            LoginFlow::AwaitingServiceToken {
                username,
                password,
            } => LoginFlowView::AwaitingServiceToken { username: username@, password: password@ },
            LoginFlow::AwaitingSession {
                bearer,
                username,
                password,
            } => LoginFlowView::AwaitingSession {
                bearer: bearer@,
                username: username@,
                password: password@,
            },
            LoginFlow::AwaitingVerdict => LoginFlowView::AwaitingVerdict,
        }
    }
}

/// What the first half of a login attempt does next.
#[derive(Debug, PartialEq, Eq)]
pub enum LoginProgress {
    /// Send `request`, and come back to `flow` with the reply.
    Next { flow: LoginFlow, request: HttpRequest },
    /// The provider's verdict, which ends this half of the login.
    Done(AuthResponse),
    /// The attempt has failed.
    Failed(AuthError),
}

pub enum LoginProgressView {
    Next { flow: LoginFlowView, request: HttpRequestView },
    Done(AuthResponseView),
    Failed(AuthErrorView),
}

impl View for LoginProgress {
    type V = LoginProgressView;

    open spec fn view(&self) -> LoginProgressView {
        match self {
            LoginProgress::Next { flow, request } => LoginProgressView::Next {
                flow: flow@,
                request: request@,
            },
            LoginProgress::Done(verdict) => LoginProgressView::Done(verdict@),
            LoginProgress::Failed(error) => LoginProgressView::Failed(error@),
        }
    }
}

/// Where the second half of a login attempt stands.
#[derive(Debug, PartialEq, Eq)]
pub enum CompletionFlow {
    AwaitingServiceToken { basic: Authorization, request_state: String },
    AwaitingCompletion { basic: Authorization },
    AwaitingUserToken,
    AwaitingProfile,
}

pub enum CompletionFlowView {
    AwaitingServiceToken { basic: AuthorizationView, request_state: Seq<char> },
    AwaitingCompletion { basic: AuthorizationView },
    AwaitingUserToken,
    AwaitingProfile,
}

impl View for CompletionFlow {
    type V = CompletionFlowView;

    open spec fn view(&self) -> CompletionFlowView {
        match self {
            CompletionFlow::AwaitingServiceToken {
                basic,
                request_state,
            } => CompletionFlowView::AwaitingServiceToken {
                basic: basic@,
                request_state: request_state@,
            },
            CompletionFlow::AwaitingCompletion { basic } => CompletionFlowView::AwaitingCompletion {
                basic: basic@,
            },
            CompletionFlow::AwaitingUserToken => CompletionFlowView::AwaitingUserToken,
            CompletionFlow::AwaitingProfile => CompletionFlowView::AwaitingProfile,
        }
    }
}

/// What the second half of a login attempt does next.
#[derive(Debug, PartialEq, Eq)]
pub enum CompletionProgress {
    /// Send `request`, and come back to `flow` with the reply.
    Next { flow: CompletionFlow, request: HttpRequest },
    /// The user's profile: the attempt is complete.
    Done(Json),
    /// The attempt has failed.
    Failed(AuthError),
}

pub enum CompletionProgressView {
    Next { flow: CompletionFlowView, request: HttpRequestView },
    Done(JsonView),
    Failed(AuthErrorView),
}

impl View for CompletionProgress {
    type V = CompletionProgressView;

    open spec fn view(&self) -> CompletionProgressView {
        match self {
            CompletionProgress::Next { flow, request } => CompletionProgressView::Next {
                flow: flow@,
                request: request@,
            },
            CompletionProgress::Done(profile) => CompletionProgressView::Done(profile@),
            CompletionProgress::Failed(error) => CompletionProgressView::Failed(error@),
        }
    }
}

impl LoginFlowView {
    /// The step whose reply the flow waits for.
    pub open spec fn pending(self) -> Step {
        match self {
            LoginFlowView::AwaitingServiceToken { .. } => Step::ServiceToken,
            LoginFlowView::AwaitingSession { .. } => Step::Session,
            LoginFlowView::AwaitingVerdict => Step::Credentials,
        }
    }

    /// What the flow does on a reading of the reply it waits for.
    ///
    /// The token becomes the bearer of the two requests that follow; the request state of
    /// the session goes into the submission as it came; the verdict ends the flow,
    /// whatever it says. The first error ends the flow too.
    pub open spec fn next(self, reading: ReadingView) -> LoginProgressView {
        match self {
            LoginFlowView::AwaitingServiceToken {
                username,
                password,
            } => match token_reading(Step::ServiceToken, reading) {
                Err(error) => LoginProgressView::Failed(error),
                Ok(token) => {
                    let bearer = AuthorizationView::Bearer(token.access_token);
                    LoginProgressView::Next {
                        flow: LoginFlowView::AwaitingSession { bearer, username, password },
                        request: session_request_view(bearer),
                    }
                },
            },
            LoginFlowView::AwaitingSession {
                bearer,
                username,
                password,
            } => match session_reading(reading) {
                Err(error) => LoginProgressView::Failed(error),
                Ok(session) => LoginProgressView::Next {
                    flow: LoginFlowView::AwaitingVerdict,
                    request: credentials_request_view(
                        bearer,
                        session.request_state,
                        username,
                        password,
                    ),
                },
            },
            LoginFlowView::AwaitingVerdict => match verdict_reading(reading) {
                Err(error) => LoginProgressView::Failed(error),
                Ok(verdict) => LoginProgressView::Done(verdict),
            },
        }
    }
}

impl CompletionFlowView {
    /// The step whose reply the flow waits for.
    pub open spec fn pending(self) -> Step {
        match self {
            CompletionFlowView::AwaitingServiceToken { .. } => Step::ServiceToken,
            CompletionFlowView::AwaitingCompletion { .. } => Step::Completion,
            CompletionFlowView::AwaitingUserToken => Step::UserToken,
            CompletionFlowView::AwaitingProfile => Step::Profile,
        }
    }

    /// What the flow does on a reading of the reply it waits for.
    ///
    /// The service's token becomes the bearer of the completion; the request state goes
    /// into it as it came; the assertion goes to the token endpoint under the service's
    /// own header; the user's token becomes the bearer of the profile request. The first
    /// error ends the flow.
    pub open spec fn next(self, reading: ReadingView) -> CompletionProgressView {
        match self {
            CompletionFlowView::AwaitingServiceToken {
                basic,
                request_state,
            } => match token_reading(Step::ServiceToken, reading) {
                Err(error) => CompletionProgressView::Failed(error),
                Ok(token) => CompletionProgressView::Next {
                    flow: CompletionFlowView::AwaitingCompletion { basic },
                    request: completion_request_view(
                        AuthorizationView::Bearer(token.access_token),
                        request_state,
                    ),
                },
            },
            CompletionFlowView::AwaitingCompletion { basic } => match assertion_reading(reading) {
                Err(error) => CompletionProgressView::Failed(error),
                Ok(assertion) => CompletionProgressView::Next {
                    flow: CompletionFlowView::AwaitingUserToken,
                    request: assertion_request_view(basic, assertion),
                },
            },
            CompletionFlowView::AwaitingUserToken => match token_reading(
                Step::UserToken,
                reading,
            ) {
                Err(error) => CompletionProgressView::Failed(error),
                Ok(token) => CompletionProgressView::Next {
                    flow: CompletionFlowView::AwaitingProfile,
                    request: profile_request_view(AuthorizationView::Bearer(token.access_token)),
                },
            },
            CompletionFlowView::AwaitingProfile => match profile_reading(reading) {
                Err(error) => CompletionProgressView::Failed(error),
                Ok(profile) => CompletionProgressView::Done(profile),
            },
        }
    }
}

/// Begins a login attempt for the user with the given name and password.
///
/// Returns the flow and its first request: the one for the service's own token.
pub fn initiate_auth(credentials: &ServiceCredentials, username: String, password: String) -> (start:
    (LoginFlow, HttpRequest))
    ensures
        start.0@ == (LoginFlowView::AwaitingServiceToken {
            username: username@,
            password: password@,
        }),
        start.1@ == token_request_view(credentials@.basic_authorization()),
{
    let request = token_request(credentials.basic_authorization());
    (LoginFlow::AwaitingServiceToken { username, password }, request)
}

/// Begins the second half of a login attempt, for the negotiation that `request_state`
/// names.
///
/// Returns the flow and its first request: the one for a fresh token of the service.
pub fn complete_auth(credentials: &ServiceCredentials, request_state: String) -> (start: (
    CompletionFlow,
    HttpRequest,
))
    ensures
        start.0@ == (CompletionFlowView::AwaitingServiceToken {
            basic: credentials@.basic_authorization(),
            request_state: request_state@,
        }),
        start.1@ == token_request_view(credentials@.basic_authorization()),
{
    let basic = credentials.basic_authorization();
    let request = token_request(basic.duplicate());
    (CompletionFlow::AwaitingServiceToken { basic, request_state }, request)
}

/// What is reported when the second half is begun on a verdict that carries no token.
pub const COMPLETION_TOO_EARLY: &'static str =
    "Authentication cannot be completed: the verdict carries no authnToken";

/// The view of the start of the second half, or of the error in its place.
pub open spec fn completion_start_view(
    start: Result<(CompletionFlow, HttpRequest), AuthError>,
) -> Result<(CompletionFlowView, HttpRequestView), AuthErrorView> {
    match start {
        Ok((flow, request)) => Ok((flow@, request@)),
        Err(error) => Err(error@),
    }
}

/// How the second half begins on a verdict. It begins with the request state of the
/// verdict where the verdict carries a token, and not at all where it carries none.
pub open spec fn completion_start(
    basic: AuthorizationView,
    verdict: AuthResponseView,
) -> Result<(CompletionFlowView, HttpRequestView), AuthErrorView> {
    if verdict.authn_token is Some {
        Ok(
            (
                CompletionFlowView::AwaitingServiceToken {
                    basic,
                    request_state: verdict.request_state,
                },
                token_request_view(basic),
            ),
        )
    } else {
        Err(AuthErrorView::InvariantViolation(COMPLETION_TOO_EARLY@))
    }
}

/// Begins the second half of a login attempt on the verdict that ended the first.
///
/// The request state is taken from the verdict, so that it is the provider's own. A
/// verdict that carries no token is not one to complete, and is refused before any request
/// is made.
pub fn complete_auth_for(credentials: &ServiceCredentials, verdict: &AuthResponse) -> (start:
    Result<(CompletionFlow, HttpRequest), AuthError>)
    ensures
        completion_start_view(start) == completion_start(
            credentials@.basic_authorization(),
            verdict@,
        ),
{
    match &verdict.authn_token {
        Some(_) => Ok(complete_auth(credentials, verdict.request_state.clone())),
        None => Err(AuthError::InvariantViolation(String::from_str(COMPLETION_TOO_EARLY))),
    }
}

impl LoginFlow {
    /// The step whose reply the flow waits for.
    pub fn pending(&self) -> (step: Step)
        ensures
            step == self@.pending(),
    {
        match self {
            LoginFlow::AwaitingServiceToken { .. } => Step::ServiceToken,
            LoginFlow::AwaitingSession { .. } => Step::Session,
            LoginFlow::AwaitingVerdict => Step::Credentials,
        }
    }

    /// Goes on with a reading of the reply that the flow waits for.
    pub fn resume(self, reading: Reading) -> (progress: LoginProgress)
        ensures
            progress@ == self@.next(reading@),
    {
        match self {
            LoginFlow::AwaitingServiceToken { username, password } => {
                match read_token(Step::ServiceToken, reading) {
                    Err(error) => LoginProgress::Failed(error),
                    Ok(token) => {
                        let bearer = Authorization::Bearer(token.access_token);
                        let request = session_request(bearer.duplicate());
                        LoginProgress::Next {
                            flow: LoginFlow::AwaitingSession { bearer, username, password },
                            request,
                        }
                    },
                }
            },
            LoginFlow::AwaitingSession { bearer, username, password } => {
                match read_session(reading) {
                    Err(error) => LoginProgress::Failed(error),
                    Ok(session) => LoginProgress::Next {
                        flow: LoginFlow::AwaitingVerdict,
                        request: credentials_request(
                            bearer,
                            session.request_state,
                            username,
                            password,
                        ),
                    },
                }
            },
            LoginFlow::AwaitingVerdict => {
                match read_verdict(reading) {
                    Err(error) => LoginProgress::Failed(error),
                    Ok(verdict) => LoginProgress::Done(verdict),
                }
            },
        }
    }

    /// Goes on with the reply to the request that the flow handed out last.
    pub fn advance(self, reply: Reply) -> (progress: LoginProgress)
        ensures
            progress@ == self@.next(reading_of(reply@)),
    {
        self.resume(read_reply(reply))
    }
}

impl CompletionFlow {
    /// The step whose reply the flow waits for.
    pub fn pending(&self) -> (step: Step)
        ensures
            step == self@.pending(),
    {
        match self {
            CompletionFlow::AwaitingServiceToken { .. } => Step::ServiceToken,
            CompletionFlow::AwaitingCompletion { .. } => Step::Completion,
            CompletionFlow::AwaitingUserToken => Step::UserToken,
            CompletionFlow::AwaitingProfile => Step::Profile,
        }
    }

    /// Goes on with a reading of the reply that the flow waits for.
    pub fn resume(self, reading: Reading) -> (progress: CompletionProgress)
        ensures
            progress@ == self@.next(reading@),
    {
        match self {
            CompletionFlow::AwaitingServiceToken { basic, request_state } => {
                match read_token(Step::ServiceToken, reading) {
                    Err(error) => CompletionProgress::Failed(error),
                    Ok(token) => CompletionProgress::Next {
                        flow: CompletionFlow::AwaitingCompletion { basic },
                        request: completion_request(
                            Authorization::Bearer(token.access_token),
                            request_state,
                        ),
                    },
                }
            },
            CompletionFlow::AwaitingCompletion { basic } => {
                match read_assertion(reading) {
                    Err(error) => CompletionProgress::Failed(error),
                    Ok(assertion) => CompletionProgress::Next {
                        flow: CompletionFlow::AwaitingUserToken,
                        request: assertion_request(basic, assertion),
                    },
                }
            },
            CompletionFlow::AwaitingUserToken => {
                match read_token(Step::UserToken, reading) {
                    Err(error) => CompletionProgress::Failed(error),
                    Ok(token) => CompletionProgress::Next {
                        flow: CompletionFlow::AwaitingProfile,
                        request: profile_request(Authorization::Bearer(token.access_token)),
                    },
                }
            },
            CompletionFlow::AwaitingProfile => {
                match read_profile(reading) {
                    Err(error) => CompletionProgress::Failed(error),
                    Ok(profile) => CompletionProgress::Done(profile),
                }
            },
        }
    }

    /// Goes on with the reply to the request that the flow handed out last.
    pub fn advance(self, reply: Reply) -> (progress: CompletionProgress)
        ensures
            progress@ == self@.next(reading_of(reply@)),
    {
        self.resume(read_reply(reply))
    }
}

} // verus!
