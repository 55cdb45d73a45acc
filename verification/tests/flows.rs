use oci_auth::credentials::ServiceCredentials;
use oci_auth::error::AuthError;
use oci_auth::flow::{
    complete_auth, complete_auth_for, initiate_auth, CompletionFlow, CompletionProgress,
    LoginFlow, LoginProgress,
};
use oci_auth::http::{
    Authorization, ContentType, Endpoint, HttpRequest, Method, Payload, Reply,
};
use oci_auth::json::Json;
use oci_auth::reading::Reading;
use oci_auth::records::AuthResponse;
use oci_auth::steps::Step;

const TOKEN_BODY: &str = r#"{"access_token":"T1","token_type":"Bearer","expires_in":3600}"#;
const USER_TOKEN_BODY: &str = r#"{"access_token":"U1","token_type":"Bearer","expires_in":900}"#;
const SESSION_BODY: &str = r#"{"requestState":"RS1"}"#;
const VERDICT_BODY: &str = r#"{"status":"success","authnToken":"AT1","requestState":"RS1","ecId":"","displayName":"","nextAuthFactors":[],"cause":[],"nextOp":[],"scenario":""}"#;
const MFA_BODY: &str = r#"{"status":"mfa_required","nextAuthFactors":["otp"],"requestState":"RS2","ecId":"e1","displayName":"Alice","cause":[],"nextOp":["credSubmit","getBackupFactors"],"scenario":"ENROLLMENT"}"#;
const COMPLETION_BODY: &str = r#"{"status":"success","authnToken":"AT1"}"#;
const PROFILE_BODY: &str = r#"{"userName":"alice","emails":[{"value":"alice@example.com","primary":true}],"active":true}"#;

fn credentials() -> ServiceCredentials {
    ServiceCredentials::new("id".to_string(), "secret".to_string()).unwrap()
}

fn ok(body: &str) -> Reply {
    Reply::Response { status: 200, body: body.to_string() }
}

fn status(code: u16, body: &str) -> Reply {
    Reply::Response { status: code, body: body.to_string() }
}

/// A provider that answers every request with its canonical success body.
fn canonical(request: &HttpRequest) -> Reply {
    match (&request.method, &request.endpoint, &request.payload) {
        (Method::Post, Endpoint::Token, Payload::ClientCredentialsGrant) => ok(TOKEN_BODY),
        (Method::Post, Endpoint::Token, Payload::AssertionGrant { .. }) => ok(USER_TOKEN_BODY),
        (Method::Get, Endpoint::Authenticate, Payload::Empty) => ok(SESSION_BODY),
        (Method::Post, Endpoint::Authenticate, Payload::CredentialSubmission { .. }) => {
            ok(VERDICT_BODY)
        }
        (Method::Post, Endpoint::Authenticate, Payload::Completion { .. }) => ok(COMPLETION_BODY),
        (Method::Get, Endpoint::Profile, Payload::Empty) => ok(PROFILE_BODY),
        _ => status(404, "no such endpoint"),
    }
}

fn run_login(
    username: &str,
    password: &str,
    provider: &dyn Fn(&HttpRequest) -> Reply,
    seen: &mut Vec<HttpRequest>,
) -> Result<AuthResponse, AuthError> {
    let (mut flow, mut request) =
        initiate_auth(&credentials(), username.to_string(), password.to_string());
    loop {
        let reply = provider(&request);
        seen.push(request);
        match flow.advance(reply) {
            LoginProgress::Next { flow: next, request: due } => {
                flow = next;
                request = due;
            }
            LoginProgress::Done(verdict) => return Ok(verdict),
            LoginProgress::Failed(error) => return Err(error),
        }
    }
}

fn run_completion(
    request_state: &str,
    provider: &dyn Fn(&HttpRequest) -> Reply,
    seen: &mut Vec<HttpRequest>,
) -> Result<Json, AuthError> {
    let (mut flow, mut request) = complete_auth(&credentials(), request_state.to_string());
    loop {
        let reply = provider(&request);
        seen.push(request);
        match flow.advance(reply) {
            CompletionProgress::Next { flow: next, request: due } => {
                flow = next;
                request = due;
            }
            CompletionProgress::Done(profile) => return Ok(profile),
            CompletionProgress::Failed(error) => return Err(error),
        }
    }
}

fn text(value: &str) -> Json {
    Json::Text(value.to_string())
}

#[test]
fn begin_login_returns_the_successful_verdict() {
    let mut seen = Vec::new();
    let verdict = run_login("alice", "pw", &canonical, &mut seen).unwrap();
    assert_eq!(verdict.status, "success");
    assert_eq!(verdict.authn_token, Some("AT1".to_string()));
    assert_eq!(verdict.request_state, "RS1");
    assert_eq!(verdict.ec_id, "");
    assert_eq!(verdict.display_name, "");
    assert_eq!(verdict.next_auth_factors, Vec::<String>::new());
    assert_eq!(verdict.cause.len(), 0);
    assert_eq!(verdict.next_op, Vec::<String>::new());
    assert_eq!(verdict.scenario, "");
    assert_eq!(seen.len(), 3);
}

#[test]
fn begin_login_makes_its_three_requests_in_order() {
    let mut seen = Vec::new();
    run_login("alice", "pw", &canonical, &mut seen).unwrap();
    assert_eq!(
        seen,
        vec![
            HttpRequest {
                method: Method::Post,
                endpoint: Endpoint::Token,
                authorization: Authorization::Basic("aWQ6c2VjcmV0".to_string()),
                content_type: Some(ContentType::FormUrlEncoded),
                payload: Payload::ClientCredentialsGrant,
            },
            HttpRequest {
                method: Method::Get,
                endpoint: Endpoint::Authenticate,
                authorization: Authorization::Bearer("T1".to_string()),
                content_type: Some(ContentType::Json),
                payload: Payload::Empty,
            },
            HttpRequest {
                method: Method::Post,
                endpoint: Endpoint::Authenticate,
                authorization: Authorization::Bearer("T1".to_string()),
                content_type: Some(ContentType::Json),
                payload: Payload::CredentialSubmission {
                    username: "alice".to_string(),
                    password: "pw".to_string(),
                    request_state: "RS1".to_string(),
                },
            },
        ]
    );
}

#[test]
fn begin_login_returns_an_mfa_verdict_as_a_value() {
    let provider = |request: &HttpRequest| match request.payload {
        Payload::CredentialSubmission { .. } => ok(MFA_BODY),
        _ => canonical(request),
    };
    let mut seen = Vec::new();
    let verdict = run_login("alice", "pw", &provider, &mut seen).unwrap();
    assert_eq!(
        verdict,
        AuthResponse {
            status: "mfa_required".to_string(),
            ec_id: "e1".to_string(),
            display_name: "Alice".to_string(),
            next_auth_factors: vec!["otp".to_string()],
            cause: vec![],
            next_op: vec!["credSubmit".to_string(), "getBackupFactors".to_string()],
            scenario: "ENROLLMENT".to_string(),
            request_state: "RS2".to_string(),
            authn_token: None,
        }
    );
}

#[test]
fn begin_login_returns_a_failure_verdict_as_a_value() {
    let body = r#"{"status":"failure","ecId":"e9","displayName":"","nextAuthFactors":[],"cause":[{"code":"AUTH-3001","message":"You entered an incorrect username or password."}],"nextOp":["credSubmit"],"scenario":"","requestState":"RS3","authnToken":null}"#;
    let provider = move |request: &HttpRequest| match request.payload {
        Payload::CredentialSubmission { .. } => ok(body),
        _ => canonical(request),
    };
    let mut seen = Vec::new();
    let verdict = run_login("alice", "wrong", &provider, &mut seen).unwrap();
    assert_eq!(verdict.status, "failure");
    assert_eq!(verdict.authn_token, None);
    assert_eq!(verdict.cause.len(), 1);
    assert_eq!(verdict.cause[0].code, "AUTH-3001");
    assert_eq!(verdict.cause[0].message, "You entered an incorrect username or password.");
}

#[test]
fn finish_login_returns_the_profile() {
    let mut seen = Vec::new();
    let profile = run_completion("RS1", &canonical, &mut seen).unwrap();
    assert_eq!(
        profile,
        Json::Object(vec![
            ("active".to_string(), Json::Bool(true)),
            (
                "emails".to_string(),
                Json::Array(vec![Json::Object(vec![
                    ("primary".to_string(), Json::Bool(true)),
                    ("value".to_string(), text("alice@example.com")),
                ])])
            ),
            ("userName".to_string(), text("alice")),
        ])
    );
}

#[test]
fn finish_login_makes_its_four_requests_in_order() {
    let mut seen = Vec::new();
    run_completion("RS1", &canonical, &mut seen).unwrap();
    assert_eq!(
        seen,
        vec![
            HttpRequest {
                method: Method::Post,
                endpoint: Endpoint::Token,
                authorization: Authorization::Basic("aWQ6c2VjcmV0".to_string()),
                content_type: Some(ContentType::FormUrlEncoded),
                payload: Payload::ClientCredentialsGrant,
            },
            HttpRequest {
                method: Method::Post,
                endpoint: Endpoint::Authenticate,
                authorization: Authorization::Bearer("T1".to_string()),
                content_type: Some(ContentType::Json),
                payload: Payload::Completion { request_state: "RS1".to_string() },
            },
            HttpRequest {
                method: Method::Post,
                endpoint: Endpoint::Token,
                authorization: Authorization::Basic("aWQ6c2VjcmV0".to_string()),
                content_type: Some(ContentType::FormUrlEncoded),
                payload: Payload::AssertionGrant { assertion: "AT1".to_string() },
            },
            HttpRequest {
                method: Method::Get,
                endpoint: Endpoint::Profile,
                authorization: Authorization::Bearer("U1".to_string()),
                content_type: None,
                payload: Payload::Empty,
            },
        ]
    );
}

#[test]
fn finish_login_stops_at_a_failed_completion() {
    let provider = |request: &HttpRequest| match request.payload {
        Payload::Completion { .. } => ok(r#"{"status":"failure"}"#),
        _ => canonical(request),
    };
    let mut seen = Vec::new();
    let error = run_completion("RS1", &provider, &mut seen).unwrap_err();
    assert_eq!(
        error,
        AuthError::Protocol(r#"Authentication failed: {"status":"failure"}"#.to_string())
    );
    assert_eq!(seen.len(), 2);
    assert!(seen.iter().all(|request| !matches!(request.payload, Payload::AssertionGrant { .. })));
}

#[test]
fn finish_login_reports_a_refused_profile_request() {
    let provider = |request: &HttpRequest| match request.endpoint {
        Endpoint::Profile => status(401, r#"{"detail":"token expired"}"#),
        _ => canonical(request),
    };
    let mut seen = Vec::new();
    let error = run_completion("RS1", &provider, &mut seen).unwrap_err();
    assert_eq!(
        error,
        AuthError::Protocol(
            r#"Failed to get user profile: {"detail":"token expired"}"#.to_string()
        )
    );
    assert!(error.message().contains(r#"{"detail":"token expired"}"#));
    assert_eq!(seen.len(), 4);
    assert_eq!(seen.iter().filter(|request| request.endpoint == Endpoint::Profile).count(), 1);
}

#[test]
fn finish_login_needs_an_assertion() {
    let provider = |request: &HttpRequest| match request.payload {
        Payload::Completion { .. } => ok(r#"{"status":"success"}"#),
        _ => canonical(request),
    };
    let mut seen = Vec::new();
    let error = run_completion("RS1", &provider, &mut seen).unwrap_err();
    assert_eq!(
        error,
        AuthError::InvariantViolation(
            "Authentication completed without a usable authnToken".to_string()
        )
    );
    assert_eq!(seen.len(), 2);
}

#[test]
fn finish_login_refuses_an_empty_or_misplaced_assertion() {
    for body in [
        r#"{"status":"success","authnToken":""}"#,
        r#"{"status":"success","authnToken":17}"#,
        r#"{"status":"success","authnToken":null}"#,
    ] {
        let provider = move |request: &HttpRequest| match request.payload {
            Payload::Completion { .. } => ok(body),
            _ => canonical(request),
        };
        let mut seen = Vec::new();
        let error = run_completion("RS1", &provider, &mut seen).unwrap_err();
        assert!(matches!(error, AuthError::InvariantViolation(_)));
    }
}

#[test]
fn finish_login_takes_only_the_status_success() {
    for body in [
        r#"{"authnToken":"AT1"}"#,
        r#"{"status":"Success","authnToken":"AT1"}"#,
        r#"{"status":true,"authnToken":"AT1"}"#,
        r#"["success"]"#,
    ] {
        let provider = move |request: &HttpRequest| match request.payload {
            Payload::Completion { .. } => ok(body),
            _ => canonical(request),
        };
        let mut seen = Vec::new();
        let error = run_completion("RS1", &provider, &mut seen).unwrap_err();
        assert_eq!(error, AuthError::Protocol(format!("Authentication failed: {}", body)));
    }
}

#[test]
fn request_state_passes_between_the_entry_points_unmodified() {
    let handle = "  rs/with \"quotes\" and \u{e9}\n";
    let session = Json::Object(vec![("requestState".to_string(), text(handle))]);
    let flow = LoginFlow::AwaitingSession {
        bearer: Authorization::Bearer("T1".to_string()),
        username: "alice".to_string(),
        password: "pw".to_string(),
    };
    let progress = flow.resume(Reading::Document { doc: session, body: String::new() });
    let submitted = match progress {
        LoginProgress::Next { flow: LoginFlow::AwaitingVerdict, request } => request,
        other => panic!("unexpected progress: {:?}", other),
    };
    assert_eq!(
        submitted.payload,
        Payload::CredentialSubmission {
            username: "alice".to_string(),
            password: "pw".to_string(),
            request_state: handle.to_string(),
        }
    );

    let mut seen = Vec::new();
    run_completion(handle, &canonical, &mut seen).unwrap();
    assert_eq!(seen[1].payload, Payload::Completion { request_state: handle.to_string() });
}

#[test]
fn every_login_step_reports_a_refusal_with_its_body() {
    let body = "<html>502 Bad Gateway</html>";
    let expected = [
        "Failed to get token: <html>502 Bad Gateway</html>",
        "Failed to initialize auth: <html>502 Bad Gateway</html>",
        "Failed to get response: <html>502 Bad Gateway</html>",
    ];
    for failing in 0..3 {
        for code in [199u16, 300, 401, 404, 500, 502, 65535] {
            let count = std::cell::Cell::new(0usize);
            let provider = |request: &HttpRequest| {
                let index = count.get();
                count.set(index + 1);
                if index == failing {
                    status(code, body)
                } else {
                    canonical(request)
                }
            };
            let mut seen = Vec::new();
            let error = run_login("alice", "pw", &provider, &mut seen).unwrap_err();
            assert_eq!(error, AuthError::Protocol(expected[failing].to_string()));
            assert!(error.message().contains(body));
            assert_eq!(seen.len(), failing + 1);
        }
    }
}

#[test]
fn every_completion_step_reports_a_refusal_with_its_body() {
    let body = r#"{"error":"invalid_client"}"#;
    let expected = [
        r#"Failed to get token: {"error":"invalid_client"}"#,
        r#"Authentication failed: {"error":"invalid_client"}"#,
        r#"Failed to get token: {"error":"invalid_client"}"#,
        r#"Failed to get user profile: {"error":"invalid_client"}"#,
    ];
    for failing in 0..4 {
        let count = std::cell::Cell::new(0usize);
        let provider = |request: &HttpRequest| {
            let index = count.get();
            count.set(index + 1);
            if index == failing {
                status(403, body)
            } else {
                canonical(request)
            }
        };
        let mut seen = Vec::new();
        let error = run_completion("RS1", &provider, &mut seen).unwrap_err();
        assert_eq!(error, AuthError::Protocol(expected[failing].to_string()));
        assert!(error.message().contains(body));
        assert_eq!(seen.len(), failing + 1);
    }
}

#[test]
fn every_step_reports_invalid_json_as_a_decode_error() {
    let body = "{\"access_token\": oops";
    for failing in 0..3 {
        let count = std::cell::Cell::new(0usize);
        let provider = |request: &HttpRequest| {
            let index = count.get();
            count.set(index + 1);
            if index == failing {
                ok(body)
            } else {
                canonical(request)
            }
        };
        let mut seen = Vec::new();
        let error = run_login("alice", "pw", &provider, &mut seen).unwrap_err();
        assert!(matches!(error, AuthError::Decode(_)));
        assert!(error.message().ends_with(&format!(". Response text: {}", body)));
    }
    for failing in 0..4 {
        let count = std::cell::Cell::new(0usize);
        let provider = |request: &HttpRequest| {
            let index = count.get();
            count.set(index + 1);
            if index == failing {
                ok(body)
            } else {
                canonical(request)
            }
        };
        let mut seen = Vec::new();
        let error = run_completion("RS1", &provider, &mut seen).unwrap_err();
        assert!(matches!(error, AuthError::Decode(_)));
        assert!(error.message().ends_with(&format!(". Response text: {}", body)));
    }
}

#[test]
fn decode_error_holds_the_fault_of_the_reader_and_the_body() {
    let provider = |_: &HttpRequest| ok("");
    let mut seen = Vec::new();
    let error = run_login("alice", "pw", &provider, &mut seen).unwrap_err();
    assert_eq!(
        error,
        AuthError::Decode(
            "Failed to parse token response: EOF while parsing a value at line 1 column 0. Response text: "
                .to_string()
        )
    );
}

#[test]
fn decode_error_names_the_member_that_is_missing() {
    let provider = |_: &HttpRequest| ok(r#"{"access_token":"T1","expires_in":3600}"#);
    let mut seen = Vec::new();
    let error = run_login("alice", "pw", &provider, &mut seen).unwrap_err();
    assert_eq!(
        error,
        AuthError::Decode(
            r#"Failed to parse token response: missing or invalid member token_type. Response text: {"access_token":"T1","expires_in":3600}"#
                .to_string()
        )
    );
}

#[test]
fn a_request_that_cannot_be_carried_out_ends_the_attempt() {
    let provider = |_: &HttpRequest| Reply::Failure("connection refused".to_string());
    let mut seen = Vec::new();
    let error = run_login("alice", "pw", &provider, &mut seen).unwrap_err();
    assert_eq!(error, AuthError::Transport("connection refused".to_string()));
    assert_eq!(seen.len(), 1);

    let provider = |request: &HttpRequest| match request.endpoint {
        Endpoint::Profile => Reply::Failure("timed out".to_string()),
        _ => canonical(request),
    };
    let mut seen = Vec::new();
    let error = run_completion("RS1", &provider, &mut seen).unwrap_err();
    assert_eq!(error, AuthError::Transport("timed out".to_string()));
    assert_eq!(seen.len(), 4);
}

#[test]
fn flows_say_which_step_they_wait_for() {
    let (flow, _) = initiate_auth(&credentials(), "alice".to_string(), "pw".to_string());
    assert_eq!(flow.pending(), Step::ServiceToken);
    let flow = match flow.advance(ok(TOKEN_BODY)) {
        LoginProgress::Next { flow, .. } => flow,
        other => panic!("unexpected progress: {:?}", other),
    };
    assert_eq!(flow.pending(), Step::Session);
    let flow = match flow.advance(ok(SESSION_BODY)) {
        LoginProgress::Next { flow, .. } => flow,
        other => panic!("unexpected progress: {:?}", other),
    };
    assert_eq!(flow.pending(), Step::Credentials);

    let (flow, _) = complete_auth(&credentials(), "RS1".to_string());
    assert_eq!(flow.pending(), Step::ServiceToken);
    assert_eq!(
        flow,
        CompletionFlow::AwaitingServiceToken {
            basic: Authorization::Basic("aWQ6c2VjcmV0".to_string()),
            request_state: "RS1".to_string(),
        }
    );
    assert_eq!(CompletionFlow::AwaitingUserToken.pending(), Step::UserToken);
    assert_eq!(CompletionFlow::AwaitingProfile.pending(), Step::Profile);
    assert_eq!(
        CompletionFlow::AwaitingCompletion { basic: Authorization::Basic(String::new()) }
            .pending(),
        Step::Completion
    );
}

#[test]
fn a_status_outside_2xx_wins_over_a_body_that_would_decode() {
    let (flow, _) = initiate_auth(&credentials(), "alice".to_string(), "pw".to_string());
    let progress = flow.advance(status(500, TOKEN_BODY));
    assert_eq!(
        progress,
        LoginProgress::Failed(AuthError::Protocol(format!("Failed to get token: {}", TOKEN_BODY)))
    );
}

#[test]
fn every_status_from_200_to_299_is_a_success() {
    for code in [200u16, 201, 204, 299] {
        let (flow, _) = initiate_auth(&credentials(), "alice".to_string(), "pw".to_string());
        assert!(matches!(flow.advance(status(code, TOKEN_BODY)), LoginProgress::Next { .. }));
    }
}

#[test]
fn completion_on_a_verdict_takes_its_request_state() {
    let mut seen = Vec::new();
    let verdict = run_login("alice", "pw", &canonical, &mut seen).unwrap();
    let (flow, request) = complete_auth_for(&credentials(), &verdict).unwrap();
    assert_eq!(
        flow,
        CompletionFlow::AwaitingServiceToken {
            basic: Authorization::Basic("aWQ6c2VjcmV0".to_string()),
            request_state: "RS1".to_string(),
        }
    );
    assert_eq!(request.payload, Payload::ClientCredentialsGrant);
    assert_eq!(request.endpoint, Endpoint::Token);
}

#[test]
fn completion_on_a_verdict_without_token_is_refused() {
    let provider = |request: &HttpRequest| match request.payload {
        Payload::CredentialSubmission { .. } => ok(MFA_BODY),
        _ => canonical(request),
    };
    let mut seen = Vec::new();
    let verdict = run_login("alice", "pw", &provider, &mut seen).unwrap();
    assert_eq!(
        complete_auth_for(&credentials(), &verdict),
        Err(AuthError::InvariantViolation(
            "Authentication cannot be completed: the verdict carries no authnToken".to_string()
        ))
    );
}
