//! The records that the provider's answers are decoded into.
//!
//! Each record is read from a JSON object by the names of its members. A member that is
//! missing, or not of the kind the record asks for, makes the whole answer undecodable;
//! the decoder then names that member. Members that the record does not know are passed
//! over.

use vstd::prelude::*;
use vstd::string::StringExecFns;
use crate::json::{Json, JsonView};
use crate::text::texts_view;

verus! {

/// An access token as the token endpoint grants it.
#[derive(Debug, PartialEq, Eq)]
pub struct TokenResponse {
    pub access_token: String,
    pub token_type: String,
    pub expires_in: u32,
}

pub struct TokenResponseView {
    pub access_token: Seq<char>,
    pub token_type: Seq<char>,
    pub expires_in: u32,
}

impl View for TokenResponse {
    type V = TokenResponseView;

    open spec fn view(&self) -> TokenResponseView {
        TokenResponseView {
            access_token: self.access_token@,
            token_type: self.token_type@,
            expires_in: self.expires_in,
        }
    }
}

/// The handle of a sign-on negotiation that the provider has opened.
#[derive(Debug, PartialEq, Eq)]
pub struct InitAuthResponse {
    pub request_state: String,
}

pub struct InitAuthResponseView {
    pub request_state: Seq<char>,
}

impl View for InitAuthResponse {
    type V = InitAuthResponseView;

    open spec fn view(&self) -> InitAuthResponseView {
        InitAuthResponseView { request_state: self.request_state@ }
    }
}

/// One reason that the provider gives for its verdict.
#[derive(Debug, PartialEq, Eq)]
pub struct CauseMessage {
    pub code: String,
    pub message: String,
}

pub struct CauseMessageView {
    pub code: Seq<char>,
    pub message: Seq<char>,
}

impl View for CauseMessage {
    type V = CauseMessageView;

    open spec fn view(&self) -> CauseMessageView {
        CauseMessageView { code: self.code@, message: self.message@ }
    }
}

/// The provider's verdict on one submission of credentials, in full.
///
/// `status` is `success`, or names what stands in the way; to act on it is the caller's
/// business. `authn_token` is there only with a final success.
#[derive(Debug, PartialEq, Eq)]
pub struct AuthResponse {
    pub status: String,
    pub ec_id: String,
    pub display_name: String,
    pub next_auth_factors: Vec<String>,
    pub cause: Vec<CauseMessage>,
    pub next_op: Vec<String>,
    pub scenario: String,
    pub request_state: String,
    pub authn_token: Option<String>,
}

pub struct AuthResponseView {
    pub status: Seq<char>,
    pub ec_id: Seq<char>,
    pub display_name: Seq<char>,
    pub next_auth_factors: Seq<Seq<char>>,
    pub cause: Seq<CauseMessageView>,
    pub next_op: Seq<Seq<char>>,
    pub scenario: Seq<char>,
    pub request_state: Seq<char>,
    pub authn_token: Option<Seq<char>>,
}

/// The views of a list of causes, in order.
pub open spec fn causes_view(causes: Seq<CauseMessage>) -> Seq<CauseMessageView> {
    Seq::new(causes.len(), |i: int| causes[i]@)
}

impl View for AuthResponse {
    type V = AuthResponseView;

    open spec fn view(&self) -> AuthResponseView {
        AuthResponseView {
            status: self.status@,
            ec_id: self.ec_id@,
            display_name: self.display_name@,
            next_auth_factors: texts_view(self.next_auth_factors@),
            cause: causes_view(self.cause@),
            next_op: texts_view(self.next_op@),
            scenario: self.scenario@,
            request_state: self.request_state@,
            authn_token: match self.authn_token {
                Some(token) => Some(token@),
                None => None,
            },
        }
    }
}

/// The status with which the provider reports success.
pub const STATUS_SUCCESS: &'static str = "success";

/// The token that `doc` decodes into, or the name of the first member that stands in the
/// way.
pub open spec fn token_of(doc: JsonView) -> Result<TokenResponseView, Seq<char>> {
    if doc.text_at("access_token"@) is None {
        Err("access_token"@)
    } else if doc.text_at("token_type"@) is None {
        Err("token_type"@)
    } else if doc.unsigned_at("expires_in"@) is None {
        Err("expires_in"@)
    } else {
        Ok(
            TokenResponseView {
                access_token: doc.text_at("access_token"@)->0,
                token_type: doc.text_at("token_type"@)->0,
                expires_in: doc.unsigned_at("expires_in"@)->0,
            },
        )
    }
}

/// The session that `doc` decodes into, or the name of the member that stands in the way.
pub open spec fn session_of(doc: JsonView) -> Result<InitAuthResponseView, Seq<char>> {
    match doc.text_at("requestState"@) {
        Some(request_state) => Ok(InitAuthResponseView { request_state }),
        None => Err("requestState"@),
    }
}

/// The cause that `doc` decodes into, if it does.
pub open spec fn cause_of(doc: JsonView) -> Option<CauseMessageView> {
    match (doc.text_at("code"@), doc.text_at("message"@)) {
        (Some(code), Some(message)) => Some(CauseMessageView { code, message }),
        _ => None,
    }
}

/// The causes that `doc` decodes into, where it is an array of causes.
pub open spec fn causes_of(doc: JsonView) -> Option<Seq<CauseMessageView>> {
    match doc {
        JsonView::Array(items) => if forall|i: int|
            0 <= i < items.len() ==> cause_of(#[trigger] items[i]) is Some {
            Some(Seq::new(items.len(), |i: int| cause_of(items[i])->0))
        } else {
            None
        },
        _ => None,
    }
}

/// The causes that the member called `name` decodes into.
pub open spec fn causes_at(doc: JsonView, name: Seq<char>) -> Option<Seq<CauseMessageView>> {
    match doc.member(name) {
        Some(value) => causes_of(value),
        None => None,
    }
}

/// The verdict that `doc` decodes into, or the name of the first member that stands in
/// the way.
pub open spec fn verdict_of(doc: JsonView) -> Result<AuthResponseView, Seq<char>> {
    if doc.text_at("status"@) is None {
        Err("status"@)
    } else if doc.text_at("ecId"@) is None {
        Err("ecId"@)
    } else if doc.text_at("displayName"@) is None {
        Err("displayName"@)
    } else if doc.texts_at("nextAuthFactors"@) is None {
        Err("nextAuthFactors"@)
    } else if causes_at(doc, "cause"@) is None {
        Err("cause"@)
    } else if doc.texts_at("nextOp"@) is None {
        Err("nextOp"@)
    } else if doc.text_at("scenario"@) is None {
        Err("scenario"@)
    } else if doc.text_at("requestState"@) is None {
        Err("requestState"@)
    } else if doc.optional_text_at("authnToken"@) is None {
        Err("authnToken"@)
    } else {
        Ok(
            AuthResponseView {
                status: doc.text_at("status"@)->0,
                ec_id: doc.text_at("ecId"@)->0,
                display_name: doc.text_at("displayName"@)->0,
                next_auth_factors: doc.texts_at("nextAuthFactors"@)->0,
                cause: causes_at(doc, "cause"@)->0,
                next_op: doc.texts_at("nextOp"@)->0,
                scenario: doc.text_at("scenario"@)->0,
                request_state: doc.text_at("requestState"@)->0,
                authn_token: doc.optional_text_at("authnToken"@)->0,
            },
        )
    }
}

/// The view of a decoded token or of the name in its place.
pub open spec fn decoded_token(decoded: Result<TokenResponse, String>) -> Result<
    TokenResponseView,
    Seq<char>,
> {
    match decoded {
        Ok(token) => Ok(token@),
        Err(name) => Err(name@),
    }
}

/// The view of a decoded session or of the name in its place.
pub open spec fn decoded_session(decoded: Result<InitAuthResponse, String>) -> Result<
    InitAuthResponseView,
    Seq<char>,
> {
    match decoded {
        Ok(session) => Ok(session@),
        Err(name) => Err(name@),
    }
}

/// The view of a decoded verdict or of the name in its place.
pub open spec fn decoded_verdict(decoded: Result<AuthResponse, String>) -> Result<
    AuthResponseView,
    Seq<char>,
> {
    match decoded {
        Ok(verdict) => Ok(verdict@),
        Err(name) => Err(name@),
    }
}

/// The view of decoded causes, if there are any.
pub open spec fn decoded_causes(decoded: Option<Vec<CauseMessage>>) -> Option<
    Seq<CauseMessageView>,
> {
    match decoded {
        Some(causes) => Some(causes_view(causes@)),
        None => None,
    }
}

impl TokenResponse {
    /// Decodes a token from a JSON object with the members `access_token`, `token_type`
    /// and `expires_in`.
    pub fn from_json(doc: &Json) -> (decoded: Result<TokenResponse, String>)
        ensures
            decoded_token(decoded) == token_of(doc@),
    {
        let access_token = match doc.text_at("access_token") {
            Some(text) => text,
            None => {
                return Err(String::from_str("access_token"));
            },
        };
        let token_type = match doc.text_at("token_type") {
            Some(text) => text,
            None => {
                return Err(String::from_str("token_type"));
            },
        };
        let expires_in: u32 = match doc.unsigned_at("expires_in") {
            Some(number) => number,
            None => {
                return Err(String::from_str("expires_in"));
            },
        };
        Ok(TokenResponse { access_token, token_type, expires_in })
    }
}

impl InitAuthResponse {
    /// Decodes a session from a JSON object with the member `requestState`.
    pub fn from_json(doc: &Json) -> (decoded: Result<InitAuthResponse, String>)
        ensures
            decoded_session(decoded) == session_of(doc@),
    {
        match doc.text_at("requestState") {
            Some(request_state) => Ok(InitAuthResponse { request_state }),
            None => Err(String::from_str("requestState")),
        }
    }
}

impl CauseMessage {
    /// Decodes a cause from a JSON object with the members `code` and `message`.
    pub fn from_json(doc: &Json) -> (decoded: Option<CauseMessage>)
        ensures
            match decoded {
                Some(cause) => cause_of(doc@) == Some(cause@),
                None => cause_of(doc@) is None,
            },
    {
        let code = match doc.text_at("code") {
            Some(text) => text,
            None => {
                return None;
            },
        };
        let message = match doc.text_at("message") {
            Some(text) => text,
            None => {
                return None;
            },
        };
        Some(CauseMessage { code, message })
    }

    /// Decodes the causes in a JSON array.
    pub fn list_from_json(doc: &Json) -> (decoded: Option<Vec<CauseMessage>>)
        ensures
            decoded_causes(decoded) == causes_of(doc@),
    {
        match doc.as_items() {
            None => None,
            Some(items) => {
                let ghost all = doc@->Array_0;
                let mut out: Vec<CauseMessage> = Vec::new();
                let mut i: usize = 0;
                while i < items.len()
                    invariant
                        i <= items@.len(),
                        out@.len() == i,
                        doc@ == JsonView::Array(all),
                        all.len() == items@.len(),
                        forall|k: int| 0 <= k < items@.len() ==> #[trigger] all[k] == items@[k]@,
                        forall|k: int| 0 <= k < i ==> cause_of(#[trigger] all[k]) is Some,
                        forall|k: int|
                            0 <= k < i ==> Some((#[trigger] out@[k])@) == cause_of(all[k]),
                    decreases items@.len() - i,
                {
                    match CauseMessage::from_json(&items[i]) {
                        Some(cause) => {
                            out.push(cause);
                        },
                        None => {
                            assert(cause_of(all[i as int]) is None);
                            return None;
                        },
                    }
                    i = i + 1;
                }
                assert(causes_view(out@) =~= Seq::new(all.len(), |k: int| cause_of(all[k])->0));
                Some(out)
            },
        }
    }
}

impl AuthResponse {
    /// Decodes a verdict from a JSON object. All members but `authnToken` must be there;
    /// `authnToken` may be missing or null.
    pub fn from_json(doc: &Json) -> (decoded: Result<AuthResponse, String>)
        ensures
            decoded_verdict(decoded) == verdict_of(doc@),
    {
        let status = match doc.text_at("status") {
            Some(text) => text,
            None => {
                return Err(String::from_str("status"));
            },
        };
        let ec_id = match doc.text_at("ecId") {
            Some(text) => text,
            None => {
                return Err(String::from_str("ecId"));
            },
        };
        let display_name = match doc.text_at("displayName") {
            Some(text) => text,
            None => {
                return Err(String::from_str("displayName"));
            },
        };
        let next_auth_factors = match doc.texts_at("nextAuthFactors") {
            Some(texts) => texts,
            None => {
                return Err(String::from_str("nextAuthFactors"));
            },
        };
        let cause = match doc.member("cause") {
            None => {
                return Err(String::from_str("cause"));
            },
            Some(value) => match CauseMessage::list_from_json(value) {
                Some(causes) => causes,
                None => {
                    return Err(String::from_str("cause"));
                },
            },
        };
        let next_op = match doc.texts_at("nextOp") {
            Some(texts) => texts,
            None => {
                return Err(String::from_str("nextOp"));
            },
        };
        let scenario = match doc.text_at("scenario") {
            Some(text) => text,
            None => {
                return Err(String::from_str("scenario"));
            },
        };
        let request_state = match doc.text_at("requestState") {
            Some(text) => text,
            None => {
                return Err(String::from_str("requestState"));
            },
        };
        let authn_token = match doc.optional_text_at("authnToken") {
            Some(token) => token,
            None => {
                return Err(String::from_str("authnToken"));
            },
        };
        Ok(
            AuthResponse {
                status,
                ec_id,
                display_name,
                next_auth_factors,
                cause,
                next_op,
                scenario,
                request_state,
                authn_token,
            },
        )
    }
}

} // verus!
