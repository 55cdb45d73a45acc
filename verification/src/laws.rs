//! What holds of every login attempt, whatever the provider answers.

use vstd::prelude::*;
use crate::error::AuthErrorView;
use crate::flow::{
    CompletionFlowView, CompletionProgressView, LoginFlowView, LoginProgressView,
};
use crate::http::{is_success_code, AuthorizationView, PayloadView, ReplyView};
use crate::json::{json_parse, lookup, JsonView};
use crate::reading::{reading_of, ReadingView};
use crate::records::{
    verdict_of, AuthResponseView, InitAuthResponseView, TokenResponseView, STATUS_SUCCESS,
};
use crate::steps::{
    credentials_request_view, decode_prefix, document_of, refusal, refusal_prefix, session_reading,
    token_reading, undecodable, Step, RESPONSE_TEXT,
};
use crate::text::{lemma_occurs_between, occurs_in};

verus! {

/// A token step that is answered with a status in 2xx and a JSON object holding a token
/// returns that token, field by field.
pub proof fn token_fields_are_those_of_the_answer(
    step: Step,
    status: u16,
    body: Seq<char>,
    doc: JsonView,
    access_token: Seq<char>,
    token_type: Seq<char>,
    expires_in: u32,
)
    requires
        is_success_code(status),
        json_parse(body) == Ok::<JsonView, Seq<char>>(doc),
        doc.text_at("access_token"@) == Some(access_token),
        doc.text_at("token_type"@) == Some(token_type),
        doc.unsigned_at("expires_in"@) == Some(expires_in),
    ensures
        token_reading(step, reading_of(ReplyView::Response { status, body })) == Ok::<
            TokenResponseView,
            AuthErrorView,
        >(TokenResponseView { access_token, token_type, expires_in }),
{
}

/// At every step, an answer with a status outside 2xx is reported as a protocol error
/// whose message holds the body of the answer as it came.
pub proof fn refusal_carries_body(step: Step, status: u16, body: Seq<char>)
    requires
        !is_success_code(status),
    ensures
        document_of(step, reading_of(ReplyView::Response { status, body })) == Err::<
            (JsonView, Seq<char>),
            AuthErrorView,
        >(refusal(step, body)),
        refusal(step, body) is Protocol,
        occurs_in(body, refusal(step, body).message()),
{
    lemma_occurs_between(refusal_prefix(step), body, Seq::empty());
}

/// At every step, an answer with a status in 2xx whose body is not JSON is reported as a
/// decoding error whose message holds both the reader's fault and the body.
pub proof fn garbled_answer_is_decode_error(step: Step, status: u16, body: Seq<char>)
    requires
        is_success_code(status),
        json_parse(body) is Err,
    ensures
        document_of(step, reading_of(ReplyView::Response { status, body })) == Err::<
            (JsonView, Seq<char>),
            AuthErrorView,
        >(undecodable(step, json_parse(body)->Err_0, body)),
        undecodable(step, json_parse(body)->Err_0, body) is Decode,
        occurs_in(body, undecodable(step, json_parse(body)->Err_0, body).message()),
        occurs_in(json_parse(body)->Err_0, undecodable(step, json_parse(body)->Err_0, body).message()),
{
    let fault = json_parse(body)->Err_0;
    let message = undecodable(step, fault, body).message();
    lemma_occurs_between(decode_prefix(step) + fault + RESPONSE_TEXT@, body, Seq::empty());
    lemma_occurs_between(decode_prefix(step), fault, RESPONSE_TEXT@ + body);
    assert(message =~= decode_prefix(step) + fault + (RESPONSE_TEXT@ + body));
}

/// The first half of an attempt fails with a protocol error that holds the body, whatever
/// step it is at, when the answer has a status outside 2xx.
pub proof fn login_refusal_ends_the_attempt(flow: LoginFlowView, status: u16, body: Seq<char>)
    requires
        !is_success_code(status),
    ensures
        flow.next(reading_of(ReplyView::Response { status, body })) == LoginProgressView::Failed(
            refusal(flow.pending(), body),
        ),
        occurs_in(body, refusal(flow.pending(), body).message()),
{
    refusal_carries_body(flow.pending(), status, body);
}

/// The second half of an attempt fails with a protocol error that holds the body,
/// whatever step it is at, when the answer has a status outside 2xx. No further request
/// is made: a token that an earlier step obtained is dropped with the flow.
pub proof fn completion_refusal_ends_the_attempt(
    flow: CompletionFlowView,
    status: u16,
    body: Seq<char>,
)
    requires
        !is_success_code(status),
    ensures
        flow.next(reading_of(ReplyView::Response { status, body }))
            == CompletionProgressView::Failed(refusal(flow.pending(), body)),
        occurs_in(body, refusal(flow.pending(), body).message()),
{
    refusal_carries_body(flow.pending(), status, body);
}

/// The first half of an attempt fails with a decoding error, whatever step it is at, when
/// the answer has a status in 2xx and a body that is not JSON.
pub proof fn login_garbled_answer_ends_the_attempt(
    flow: LoginFlowView,
    status: u16,
    body: Seq<char>,
)
    requires
        is_success_code(status),
        json_parse(body) is Err,
    ensures
        flow.next(reading_of(ReplyView::Response { status, body })) == LoginProgressView::Failed(
            undecodable(flow.pending(), json_parse(body)->Err_0, body),
        ),
        undecodable(flow.pending(), json_parse(body)->Err_0, body) is Decode,
{
    garbled_answer_is_decode_error(flow.pending(), status, body);
}

/// The second half of an attempt fails with a decoding error, whatever step it is at,
/// when the answer has a status in 2xx and a body that is not JSON.
pub proof fn completion_garbled_answer_ends_the_attempt(
    flow: CompletionFlowView,
    status: u16,
    body: Seq<char>,
)
    requires
        is_success_code(status),
        json_parse(body) is Err,
    ensures
        flow.next(reading_of(ReplyView::Response { status, body }))
            == CompletionProgressView::Failed(
            undecodable(flow.pending(), json_parse(body)->Err_0, body),
        ),
        undecodable(flow.pending(), json_parse(body)->Err_0, body) is Decode,
{
    garbled_answer_is_decode_error(flow.pending(), status, body);
}

/// A request that could not be carried out ends either half with a transport error that
/// carries the reason as it came.
pub proof fn unreachable_provider_ends_the_attempt(
    login: LoginFlowView,
    completion: CompletionFlowView,
    reason: Seq<char>,
)
    ensures
        login.next(reading_of(ReplyView::Failure(reason))) == LoginProgressView::Failed(
            AuthErrorView::Transport(reason),
        ),
        completion.next(reading_of(ReplyView::Failure(reason)))
            == CompletionProgressView::Failed(AuthErrorView::Transport(reason)),
{
}

/// The request state that the provider hands out when the negotiation opens is the one
/// that goes out with the user's credentials, unchanged, and the credentials are those the
/// attempt began with.
pub proof fn session_handle_is_forwarded(
    bearer: AuthorizationView,
    username: Seq<char>,
    password: Seq<char>,
    reading: ReadingView,
    request_state: Seq<char>,
)
    requires
        session_reading(reading) == Ok::<InitAuthResponseView, AuthErrorView>(
            InitAuthResponseView { request_state },
        ),
    ensures
        (LoginFlowView::AwaitingSession { bearer, username, password }).next(reading)
            == (LoginProgressView::Next {
            flow: LoginFlowView::AwaitingVerdict,
            request: credentials_request_view(bearer, request_state, username, password),
        }),
        credentials_request_view(bearer, request_state, username, password).payload.wire()
            ->Json_0.text_at("requestState"@) == Some(request_state),
{
    wire_names_the_request_state(
        PayloadView::CredentialSubmission { username, password, request_state },
    );
}

/// The request state that the second half of an attempt is begun with is the one that
/// goes out with the completion, unchanged.
pub proof fn request_state_is_forwarded(
    basic: AuthorizationView,
    request_state: Seq<char>,
    reading: ReadingView,
)
    requires
        token_reading(Step::ServiceToken, reading) is Ok,
    ensures
        (CompletionFlowView::AwaitingServiceToken { basic, request_state }).next(reading) matches
        CompletionProgressView::Next { flow, request } && flow
            == (CompletionFlowView::AwaitingCompletion { basic }) && request.payload
            == (PayloadView::Completion { request_state })
            && request.payload.wire()->Json_0.text_at("requestState"@) == Some(request_state),
{
    wire_names_the_request_state(PayloadView::Completion { request_state });
}

/// On the wire, both bodies that go to the sign-on endpoint hold the request state under
/// the name `requestState` and the operation under the name `op`.
pub proof fn wire_names_the_request_state(payload: PayloadView)
    requires
        payload is CredentialSubmission || payload is Completion,
    ensures
        payload.wire() is Json,
        payload.wire()->Json_0.text_at("requestState"@) == Some(
            match payload {
                PayloadView::CredentialSubmission { request_state, .. } => request_state,
                PayloadView::Completion { request_state } => request_state,
                _ => Seq::empty(),
            },
        ),
        payload.wire()->Json_0.text_at("op"@) == Some("credSubmit"@),
{
    reveal_strlit("credentials");
    reveal_strlit("op");
    reveal_strlit("requestState");
    reveal_with_fuel(lookup, 4);
    assert("credentials"@.len() == 11);
    assert("op"@.len() == 2);
    assert("requestState"@.len() == 12);
    let members = payload.wire()->Json_0->Object_0;
    match payload {
        PayloadView::CredentialSubmission { .. } => {
            assert(members.drop_first()[0] == members[1]);
            assert(members.drop_first().drop_first()[0] == members[2]);
            assert(lookup(members.drop_first().drop_first(), "requestState"@) == Some(members[2].1));
            assert(lookup(members.drop_first(), "requestState"@) == Some(members[2].1));
            assert(lookup(members.drop_first(), "op"@) == Some(members[1].1));
        },
        _ => {
            assert(members.drop_first()[0] == members[1]);
            assert(lookup(members.drop_first(), "requestState"@) == Some(members[1].1));
        },
    }
}

/// The verdict on the credentials is handed to the caller as it was decoded, whatever its
/// status says: only the caller acts on a verdict other than success.
pub proof fn verdict_is_returned_whatever_it_says(
    doc: JsonView,
    body: Seq<char>,
    verdict: AuthResponseView,
)
    requires
        verdict_of(doc) == Ok::<AuthResponseView, Seq<char>>(verdict),
    ensures
        LoginFlowView::AwaitingVerdict.next(ReadingView::Document { doc, body })
            == LoginProgressView::Done(verdict),
{
}

/// A completion whose status is not `success` ends the attempt with a protocol error
/// that holds the body; the assertion is never traded.
pub proof fn completion_needs_success(basic: AuthorizationView, doc: JsonView, body: Seq<char>)
    requires
        doc.text_at("status"@) != Some(STATUS_SUCCESS@),
    ensures
        (CompletionFlowView::AwaitingCompletion { basic }).next(
            ReadingView::Document { doc, body },
        ) == CompletionProgressView::Failed(refusal(Step::Completion, body)),
        occurs_in(body, refusal(Step::Completion, body).message()),
{
    lemma_occurs_between(refusal_prefix(Step::Completion), body, Seq::empty());
}

/// Whether the first half of an attempt fails, and with what error, does not depend on the
/// user's name or password: no message ever holds either, unless the provider's own
/// answer does.
pub proof fn login_errors_do_not_depend_on_credentials(
    bearer: AuthorizationView,
    username: Seq<char>,
    password: Seq<char>,
    other_username: Seq<char>,
    other_password: Seq<char>,
    reading: ReadingView,
)
    ensures
        (LoginFlowView::AwaitingServiceToken { username, password }).next(reading) matches
        LoginProgressView::Failed(error) ==> (LoginFlowView::AwaitingServiceToken {
            username: other_username,
            password: other_password,
        }).next(reading) == LoginProgressView::Failed(error),
        (LoginFlowView::AwaitingSession { bearer, username, password }).next(reading) matches
        LoginProgressView::Failed(error) ==> (LoginFlowView::AwaitingSession {
            bearer,
            username: other_username,
            password: other_password,
        }).next(reading) == LoginProgressView::Failed(error),
{
}

/// A flow that goes on waits for the step after the one it was waiting for: the steps
/// come one after the other, and each half ends after its last.
pub proof fn steps_come_in_order(
    login: LoginFlowView,
    completion: CompletionFlowView,
    reading: ReadingView,
)
    ensures
        login.next(reading) matches LoginProgressView::Next { flow, .. } ==> match login.pending() {
            Step::ServiceToken => flow.pending() == Step::Session,
            Step::Session => flow.pending() == Step::Credentials,
            _ => false,
        },
        completion.next(reading) matches CompletionProgressView::Next { flow, .. }
            ==> match completion.pending() {
            Step::ServiceToken => flow.pending() == Step::Completion,
            Step::Completion => flow.pending() == Step::UserToken,
            Step::UserToken => flow.pending() == Step::Profile,
            _ => false,
        },
{
}

/// What may be shown of a submission of credentials is the same whatever the user's name,
/// the password, the request state and the token are: none of them is in it.
pub proof fn diagnostics_hide_credentials(
    token: Seq<char>,
    request_state: Seq<char>,
    username: Seq<char>,
    password: Seq<char>,
    other_token: Seq<char>,
    other_request_state: Seq<char>,
    other_username: Seq<char>,
    other_password: Seq<char>,
)
    ensures
        credentials_request_view(
            AuthorizationView::Bearer(token),
            request_state,
            username,
            password,
        ).redacted() == credentials_request_view(
            AuthorizationView::Bearer(other_token),
            other_request_state,
            other_username,
            other_password,
        ).redacted(),
{
}

} // verus!
