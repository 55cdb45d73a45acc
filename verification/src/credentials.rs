//! The service's own credentials and the `Authorization` header made from them.

use vstd::prelude::*;
use vstd::string::StringExecFns;
use crate::error::{AuthError, AuthErrorView};
use crate::http::{Authorization, AuthorizationView};
use crate::text::{join, optional_text};

verus! {

/// Name of the environment variable that holds the client id.
pub const CLIENT_ID_VARIABLE: &'static str = "OCI_CLIENT_ID";

/// Name of the environment variable that holds the client secret.
pub const CLIENT_SECRET_VARIABLE: &'static str = "OCI_CLIENT_SECRET";

/// What is reported when the client id is not given.
pub const CLIENT_ID_MISSING: &'static str = "Required environment variable OCI_CLIENT_ID is not set";

/// What is reported when the client secret is not given.
pub const CLIENT_SECRET_MISSING: &'static str =
    "Required environment variable OCI_CLIENT_SECRET is not set";

/// What is reported when the credentials are too long to be encoded.
pub const CREDENTIALS_TOO_LONG: &'static str = "Service credentials are too long to be encoded";

/// The text that the standard engine of `base64` (standard alphabet, with padding) writes
/// for the UTF-8 bytes of `text`.
pub uninterp spec fn base64_standard(text: Seq<char>) -> Seq<char>;

/// Whether the encoded length of `text` can be counted in a `usize`.
pub open spec fn encodable(text: Seq<char>) -> bool {
    vstd::utf8::encode_utf8(text).len() / 3 * 4 + 4 <= usize::MAX
}

/// Calls `Engine::encode` of `base64` on `base64::engine::general_purpose::STANDARD`. The
/// contract gives the encoded text its name. The call panics where the encoded length
/// overflows a `usize`; `requires` leaves those inputs out.
#[verifier::external_body]
fn encode_standard(text: &str) -> (encoded: String)
    requires
        encodable(text@),
    ensures
        encoded@ == base64_standard(text@),
{
    base64::Engine::encode(&base64::engine::general_purpose::STANDARD, text)
}

/// The client id and the client secret, joined as the Basic scheme asks.
pub open spec fn pair_text(client_id: Seq<char>, client_secret: Seq<char>) -> Seq<char> {
    client_id + ":"@ + client_secret
}

/// The credentials with which the service itself signs in to the provider.
///
/// A value of this type can always be encoded: [`ServiceCredentials::new`] refuses a pair
/// that cannot. The type has no way of being printed, so that the secret cannot end up in
/// diagnostic output by accident.
pub struct ServiceCredentials {
    client_id: String,
    client_secret: String,
}

pub struct ServiceCredentialsView {
    pub client_id: Seq<char>,
    pub client_secret: Seq<char>,
}

impl ServiceCredentialsView {
    /// The `Authorization` header of the service.
    pub open spec fn basic_authorization(self) -> AuthorizationView {
        AuthorizationView::Basic(base64_standard(pair_text(self.client_id, self.client_secret)))
    }
}

impl View for ServiceCredentials {
    type V = ServiceCredentialsView;

    closed spec fn view(&self) -> ServiceCredentialsView {
        ServiceCredentialsView { client_id: self.client_id@, client_secret: self.client_secret@ }
    }
}

/// What [`ServiceCredentials::from_environment`] returns for the two values as found.
pub open spec fn credentials_from(
    client_id: Option<Seq<char>>,
    client_secret: Option<Seq<char>>,
) -> Result<ServiceCredentialsView, AuthErrorView> {
    match (client_id, client_secret) {
        (None, _) => Err(AuthErrorView::Configuration(CLIENT_ID_MISSING@)),
        (Some(_), None) => Err(AuthErrorView::Configuration(CLIENT_SECRET_MISSING@)),
        (Some(id), Some(secret)) => if encodable(pair_text(id, secret)) {
            Ok(ServiceCredentialsView { client_id: id, client_secret: secret })
        } else {
            Err(AuthErrorView::Configuration(CREDENTIALS_TOO_LONG@))
        },
    }
}

/// The view of credentials or the error in their place.
pub open spec fn credentials_view(
    made: Result<ServiceCredentials, AuthError>,
) -> Result<ServiceCredentialsView, AuthErrorView> {
    match made {
        Ok(credentials) => Ok(credentials@),
        Err(error) => Err(error@),
    }
}

impl ServiceCredentials {
    #[verifier::type_invariant]
    spec fn can_be_encoded(&self) -> bool {
        encodable(pair_text(self.client_id@, self.client_secret@))
    }

    /// Credentials from a client id and a client secret.
    ///
    /// Fails only for a pair so long that its encoded length cannot be counted.
    pub fn new(client_id: String, client_secret: String) -> (made: Result<
        ServiceCredentials,
        AuthError,
    >)
        ensures
            credentials_view(made) == credentials_from(Some(client_id@), Some(client_secret@)),
    {
        let mut pair = join(client_id.as_str(), ":");
        pair.append(client_secret.as_str());
        let length: usize = pair.as_str().as_bytes().len();
        if length / 3 > (usize::MAX - 4) / 4 {
            return Err(AuthError::Configuration(String::from_str(CREDENTIALS_TOO_LONG)));
        }
        Ok(ServiceCredentials { client_id, client_secret })
    }

    /// Credentials from the two values as the environment gave them: `None` where a
    /// variable is not set.
    pub fn from_environment(client_id: Option<String>, client_secret: Option<String>) -> (made:
        Result<ServiceCredentials, AuthError>)
        ensures
            credentials_view(made) == credentials_from(
                optional_text(client_id),
                optional_text(client_secret),
            ),
    {
        match client_id {
            None => Err(AuthError::Configuration(String::from_str(CLIENT_ID_MISSING))),
            Some(id) => match client_secret {
                None => Err(AuthError::Configuration(String::from_str(CLIENT_SECRET_MISSING))),
                Some(secret) => ServiceCredentials::new(id, secret),
            },
        }
    }

    /// The `Authorization` header with which the service signs in: the Basic scheme over
    /// `client_id:client_secret`.
    pub fn basic_authorization(&self) -> (header: Authorization)
        ensures
            header@ == self@.basic_authorization(),
    {
        proof {
            use_type_invariant(self);
        }
        let mut pair = join(self.client_id.as_str(), ":");
        pair.append(self.client_secret.as_str());
        Authorization::Basic(encode_standard(pair.as_str()))
    }
}

} // verus!
