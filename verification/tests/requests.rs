use oci_auth::credentials::ServiceCredentials;
use oci_auth::error::AuthError;
use oci_auth::http::{
    is_success, Authorization, ContentType, Endpoint, HttpRequest, Method, Payload, WireBody,
};
use oci_auth::json::Json;
use oci_auth::steps::{
    assertion_request, completion_request, credentials_request, profile_request, session_request,
    token_request,
};
use oci_auth::text::{join, reads, same};

fn text(value: &str) -> Json {
    Json::Text(value.to_string())
}

fn pair(name: &str, value: &str) -> (String, String) {
    (name.to_string(), value.to_string())
}

#[test]
fn basic_header_encodes_id_and_secret() {
    let credentials = ServiceCredentials::new("id".to_string(), "secret".to_string()).unwrap();
    let header = credentials.basic_authorization();
    assert_eq!(header, Authorization::Basic("aWQ6c2VjcmV0".to_string()));
    assert_eq!(header.header_value(), "Basic aWQ6c2VjcmV0");
}

#[test]
fn basic_header_pads_and_takes_any_text() {
    let encode = |id: &str, secret: &str| {
        ServiceCredentials::new(id.to_string(), secret.to_string())
            .unwrap()
            .basic_authorization()
            .header_value()
    };
    assert_eq!(encode("client", "s3cr3t!"), "Basic Y2xpZW50OnMzY3IzdCE=");
    assert_eq!(encode("", ""), "Basic Og==");
    assert_eq!(encode("cl\u{e9}", "p\u{e4}ssw\u{f6}rd"), "Basic Y2zDqTpww6Rzc3fDtnJk");
}

#[test]
fn credentials_must_both_be_there() {
    assert_eq!(
        ServiceCredentials::from_environment(None, Some("s".to_string())).err(),
        Some(AuthError::Configuration(
            "Required environment variable OCI_CLIENT_ID is not set".to_string()
        ))
    );
    assert_eq!(
        ServiceCredentials::from_environment(None, None).err(),
        Some(AuthError::Configuration(
            "Required environment variable OCI_CLIENT_ID is not set".to_string()
        ))
    );
    assert_eq!(
        ServiceCredentials::from_environment(Some("i".to_string()), None).err(),
        Some(AuthError::Configuration(
            "Required environment variable OCI_CLIENT_SECRET is not set".to_string()
        ))
    );
    let credentials =
        ServiceCredentials::from_environment(Some("id".to_string()), Some("secret".to_string()))
            .unwrap();
    assert_eq!(credentials.basic_authorization().header_value(), "Basic aWQ6c2VjcmV0");
}

#[test]
fn bearer_header_is_the_token_after_its_scheme() {
    assert_eq!(Authorization::Bearer("T1".to_string()).header_value(), "Bearer T1");
    assert_eq!(Authorization::Bearer(String::new()).header_value(), "Bearer ");
    assert_eq!(
        Authorization::Bearer("T1".to_string()).duplicate(),
        Authorization::Bearer("T1".to_string())
    );
    assert_eq!(
        Authorization::Basic("abc".to_string()).duplicate(),
        Authorization::Basic("abc".to_string())
    );
}

#[test]
fn requests_go_to_their_endpoints() {
    let basic = || Authorization::Basic("abc".to_string());
    let bearer = || Authorization::Bearer("T1".to_string());
    let host = "https://idcs-8e8265d058d54299bdc845382c75339f.identity.oraclecloud.com";

    let request = token_request(basic());
    assert_eq!(request.method, Method::Post);
    assert_eq!(request.url(), format!("{}/oauth2/v1/token", host));
    assert_eq!(request.authorization, basic());
    assert_eq!(request.content_type, Some(ContentType::FormUrlEncoded));
    assert_eq!(request.payload, Payload::ClientCredentialsGrant);

    let request = session_request(bearer());
    assert_eq!(request.method, Method::Get);
    assert_eq!(request.url(), format!("{}/sso/v1/sdk/authenticate", host));
    assert_eq!(request.authorization, bearer());
    assert_eq!(request.content_type, Some(ContentType::Json));
    assert_eq!(request.payload, Payload::Empty);

    let request =
        credentials_request(bearer(), "RS1".to_string(), "alice".to_string(), "pw".to_string());
    assert_eq!(request.method, Method::Post);
    assert_eq!(request.endpoint, Endpoint::Authenticate);
    assert_eq!(request.content_type, Some(ContentType::Json));
    assert_eq!(
        request.payload,
        Payload::CredentialSubmission {
            username: "alice".to_string(),
            password: "pw".to_string(),
            request_state: "RS1".to_string(),
        }
    );

    let request = completion_request(bearer(), "RS1".to_string());
    assert_eq!(request.method, Method::Post);
    assert_eq!(request.endpoint, Endpoint::Authenticate);
    assert_eq!(request.payload, Payload::Completion { request_state: "RS1".to_string() });

    let request = assertion_request(basic(), "AT1".to_string());
    assert_eq!(request.method, Method::Post);
    assert_eq!(request.endpoint, Endpoint::Token);
    assert_eq!(request.authorization, basic());
    assert_eq!(request.content_type, Some(ContentType::FormUrlEncoded));
    assert_eq!(request.payload, Payload::AssertionGrant { assertion: "AT1".to_string() });

    let request = profile_request(bearer());
    assert_eq!(request.method, Method::Get);
    assert_eq!(request.url(), format!("{}/admin/v1/Me", host));
    assert_eq!(request.content_type, None);
    assert_eq!(request.payload, Payload::Empty);
}

#[test]
fn grants_go_over_the_wire_as_forms() {
    assert_eq!(
        Payload::ClientCredentialsGrant.wire(),
        WireBody::Form(vec![
            pair("grant_type", "client_credentials"),
            pair("scope", "urn:opc:idm:__myscopes__"),
        ])
    );
    assert_eq!(
        Payload::AssertionGrant { assertion: "AT1".to_string() }.wire(),
        WireBody::Form(vec![
            pair("grant_type", "urn:ietf:params:oauth:grant-type:jwt-bearer"),
            pair("scope", "urn:opc:idm:__myscopes__"),
            pair("assertion", "AT1"),
        ])
    );
    assert_eq!(Payload::Empty.wire(), WireBody::Empty);
}

#[test]
fn submissions_go_over_the_wire_as_json() {
    let body = Payload::CredentialSubmission {
        username: "alice".to_string(),
        password: "p\"w".to_string(),
        request_state: "RS1".to_string(),
    }
    .wire();
    assert_eq!(
        body,
        WireBody::Json(Json::Object(vec![
            (
                "credentials".to_string(),
                Json::Object(vec![
                    ("password".to_string(), text("p\"w")),
                    ("username".to_string(), text("alice")),
                ])
            ),
            ("op".to_string(), text("credSubmit")),
            ("requestState".to_string(), text("RS1")),
        ]))
    );
    assert_eq!(
        Payload::Completion { request_state: "RS1".to_string() }.wire(),
        WireBody::Json(Json::Object(vec![
            ("op".to_string(), text("credSubmit")),
            ("requestState".to_string(), text("RS1")),
        ]))
    );
}

#[test]
fn diagnostics_show_marks_in_place_of_secrets() {
    let request = credentials_request(
        Authorization::Bearer("T1".to_string()),
        "RS1".to_string(),
        "alice".to_string(),
        "pw".to_string(),
    );
    let shown = request.redacted();
    assert_eq!(
        shown,
        HttpRequest {
            method: Method::Post,
            endpoint: Endpoint::Authenticate,
            authorization: Authorization::Bearer("*****".to_string()),
            content_type: Some(ContentType::Json),
            payload: Payload::CredentialSubmission {
                username: "***".to_string(),
                password: "***".to_string(),
                request_state: "***".to_string(),
            },
        }
    );
    let other = credentials_request(
        Authorization::Bearer("T2".to_string()),
        "RS2".to_string(),
        "bob".to_string(),
        "hunter2".to_string(),
    );
    assert_eq!(other.redacted(), shown);

    assert_eq!(
        assertion_request(Authorization::Basic("abc".to_string()), "AT1".to_string()).redacted(),
        HttpRequest {
            method: Method::Post,
            endpoint: Endpoint::Token,
            authorization: Authorization::Basic("*****".to_string()),
            content_type: Some(ContentType::FormUrlEncoded),
            payload: Payload::AssertionGrant { assertion: "*****".to_string() },
        }
    );
    assert_eq!(
        Payload::Completion { request_state: "RS1".to_string() }.redacted(),
        Payload::Completion { request_state: "RS1".to_string() }
    );
    assert_eq!(Payload::Empty.redacted(), Payload::Empty);
    assert_eq!(Payload::ClientCredentialsGrant.redacted(), Payload::ClientCredentialsGrant);
    assert_eq!(
        Authorization::Basic("abc".to_string()).redacted().header_value(),
        "Basic *****"
    );
}

#[test]
fn success_is_a_status_from_200_to_299() {
    assert!(!is_success(0));
    assert!(!is_success(199));
    assert!(is_success(200));
    assert!(is_success(204));
    assert!(is_success(299));
    assert!(!is_success(300));
    assert!(!is_success(401));
    assert!(!is_success(u16::MAX));
}

#[test]
fn errors_carry_their_message() {
    assert_eq!(AuthError::Configuration("a".to_string()).message(), "a");
    assert_eq!(AuthError::Transport("b".to_string()).message(), "b");
    assert_eq!(AuthError::Protocol("c".to_string()).message(), "c");
    assert_eq!(AuthError::Decode("d".to_string()).message(), "d");
    assert_eq!(AuthError::InvariantViolation("e".to_string()).message(), "e");
}

#[test]
fn text_helpers_join_and_compare() {
    assert_eq!(join("ab", "cd"), "abcd");
    assert_eq!(join("", ""), "");
    assert!(reads(&"success".to_string(), "success"));
    assert!(!reads(&"Success".to_string(), "success"));
    assert!(same("a", "a"));
    assert!(!same("a", "b"));
    assert!(!same("a", "ab"));
}
