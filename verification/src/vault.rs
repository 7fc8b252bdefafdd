//! The secrets-backend client state: base address, bearer token, the
//! choice of authentication strategy, and leader redirection.
//!
//! The network calls themselves are performed by the driver; this module
//! owns every decision: which authentication path is taken, which URL a
//! request goes to, and how a response updates the client.
use crate::address::{api_base, request_url, spec_api_base, spec_request_url};
use crate::text::{push_char, spec_trim_end, trim_end_ws};
use vstd::prelude::*;

verus! {

/// An opaque bearer credential. Never rendered in cleartext: diagnostics
/// use `masked`, and only the request header takes the raw value.
pub struct Secret {
    value: String,
}

impl View for Secret {
    type V = Seq<char>;

    closed spec fn view(&self) -> Seq<char> {
        self.value@
    }
}

/// The error of parsing a `Secret` from a string; parsing never fails, so
/// this value is never produced.
pub enum ParseError {
    Infallible,
}

impl Secret {
    pub fn new(value: String) -> (r: Secret)
        ensures
            r@ == value@,
    {
        Secret { value }
    }

    /// The raw credential, for attaching to a request header.
    pub fn reveal_value(&self) -> (r: &String)
        ensures
            r@ == self@,
    {
        &self.value
    }

    /// A same-length masked rendering for diagnostics.
    pub fn masked(&self) -> (r: String)
        ensures
            r@.len() == self@.len(),
            forall|i: int| 0 <= i < r@.len() ==> r@[i] == '*',
    {
        let n = self.value.as_str().unicode_len();
        let mut out = String::new();
        let mut i: usize = 0;
        while i < n
            invariant
                i <= n,
                out@.len() == i,
                forall|j: int| 0 <= j < i ==> out@[j] == '*',
            decreases n - i,
        {
            push_char(&mut out, '*');
            i += 1;
        }
        out
    }
}

impl core::str::FromStr for Secret {
    type Err = ParseError;

    fn from_str(s: &str) -> Result<Secret, ParseError> {
        Ok(Secret { value: s.to_owned() })
    }
}

/// The payload of an LDAP login request.
pub struct AuthRequest {
    pub password: String,
}

/// The payload of an app-credential login request.
pub struct AuthAppIdRequest {
    pub user_id: String,
}

/// The payload of a Kubernetes login request.
pub struct AuthKubernetesRequest {
    pub jwt: String,
    pub role: String,
}

/// The token part of a login response.
pub struct AuthResponse {
    pub client_token: String,
}

/// The envelope of a login response.
pub struct AuthResponseWrapper {
    pub auth: AuthResponse,
}

/// The leader-discovery document of a highly-available cluster.
pub struct LeaderResponse {
    pub ha_enabled: bool,
    pub is_self: bool,
    pub leader_address: String,
}

/// The (empty) payload of a token renewal request.
pub struct TokenRenewRequest {}

/// The authentication strategy chosen for one resolution.
pub enum AuthMethod {
    /// Interactive login: prompt for a username and password, resolve the
    /// leader, then log in over LDAP.
    Dev,
    /// Log in with an application id and an application user credential.
    AppId { app_id: String, app_user: Secret },
    /// Log in with the local service-account JWT and a role.
    Kubernetes { role: String },
    /// Use a token supplied directly.
    Token { token: Secret },
    /// Fall back to the token stored in the home-directory token file,
    /// with a best-effort renewal.
    TokenFile,
}

/// The strategy the given inputs select, in precedence order: interactive
/// login, then app credentials, then Kubernetes, then an explicit token,
/// then the token file.
pub open spec fn spec_choose_auth(
    dev: bool,
    app_id: Option<String>,
    app_user: Option<Secret>,
    kubernetes_role: Option<String>,
    token: Option<Secret>,
) -> AuthMethod {
    if dev {
        AuthMethod::Dev
    } else if app_id is Some && app_user is Some {
        AuthMethod::AppId { app_id: app_id->0, app_user: app_user->0 }
    } else if kubernetes_role is Some {
        AuthMethod::Kubernetes { role: kubernetes_role->0 }
    } else if token is Some {
        AuthMethod::Token { token: token->0 }
    } else {
        AuthMethod::TokenFile
    }
}

/// Chooses the authentication strategy. Exactly one path is taken per
/// resolution, in the documented precedence order.
pub fn choose_auth(
    dev: bool,
    app_id: Option<String>,
    app_user: Option<Secret>,
    kubernetes_role: Option<String>,
    token: Option<Secret>,
) -> (r: AuthMethod)
    ensures
        r == spec_choose_auth(dev, app_id, app_user, kubernetes_role, token),
{
    if dev {
        AuthMethod::Dev
    } else if app_id.is_some() && app_user.is_some() {
        AuthMethod::AppId { app_id: app_id.unwrap(), app_user: app_user.unwrap() }
    } else if kubernetes_role.is_some() {
        AuthMethod::Kubernetes { role: kubernetes_role.unwrap() }
    } else if token.is_some() {
        AuthMethod::Token { token: token.unwrap() }
    } else {
        AuthMethod::TokenFile
    }
}

/// The token read from the token-file contents, with trailing whitespace
/// trimmed; `None` when the file could not be read, which fails
/// authentication.
pub fn token_from_file(contents: &Option<String>) -> (r: Option<Secret>)
    ensures
        match contents {
            Some(s) => match r {
                Some(t) => t@ == spec_trim_end(s@),
                None => false,
            },
            None => r is None,
        },
{
    match contents {
        Some(s) => Some(Secret { value: trim_end_ws(s.as_str()) }),
        None => None,
    }
}

/// The secrets-backend client: its API base address and the bearer token,
/// both of which authentication and leader redirection may replace before
/// any read is issued.
pub struct Client {
    pub base: String,
    pub token: Option<Secret>,
}

impl Client {
    /// A client for the given backend address; the standard API path
    /// segment is appended, and no token is held yet.
    pub fn new(address: &str) -> (r: Client)
        ensures
            r.base@ == spec_api_base(address@),
            r.token is None,
    {
        Client { base: api_base(address), token: None }
    }

    /// Stores a token, replacing any earlier one.
    pub fn set_token(&mut self, token: Secret)
        ensures
            final(self).base == old(self).base,
            match final(self).token {
                Some(t) => t@ == token@,
                None => false,
            },
    {
        self.token = Some(token);
    }

    /// Stores the token a login response carries.
    pub fn apply_auth(&mut self, resp: AuthResponseWrapper)
        ensures
            final(self).base == old(self).base,
            match final(self).token {
                Some(t) => t@ == resp.auth.client_token@,
                None => false,
            },
    {
        self.token = Some(Secret { value: resp.auth.client_token });
    }

    /// Applies the leader-discovery document: when the cluster is
    /// highly-available and this node is not the leader, all subsequent
    /// requests are redirected to the leader's address. A missing document
    /// leaves the client unchanged.
    pub fn apply_leader(&mut self, resp: &Option<LeaderResponse>)
        ensures
            final(self).token == old(self).token,
            match resp {
                Some(info) => {
                    if info.ha_enabled && !info.is_self {
                        final(self).base@ == spec_api_base(info.leader_address@)
                    } else {
                        final(self).base == old(self).base
                    }
                },
                None => final(self).base == old(self).base,
            },
    {
        match resp {
            Some(info) => {
                if info.ha_enabled && !info.is_self {
                    self.base = api_base(info.leader_address.as_str());
                }
            },
            None => {},
        }
    }

    /// The URL a read or login for `key` is sent to.
    pub fn url_for(&self, key: &str) -> (r: String)
        ensures
            r@ == spec_request_url(self.base@, key@),
    {
        request_url(self.base.as_str(), key)
    }
}

/// The login path of the interactive (LDAP) strategy.
pub fn ldap_login_path(username: &str) -> (r: String)
    ensures
        r@ == "auth/ldap/login/"@ + username@,
{
    let mut out = String::from_str("auth/ldap/login/");
    out.append(username);
    out
}

/// The login path of the app-credential strategy.
pub fn app_id_login_path(app_id: &str) -> (r: String)
    ensures
        r@ == "auth/app-id/login/"@ + app_id@,
{
    let mut out = String::from_str("auth/app-id/login/");
    out.append(app_id);
    out
}

/// The login path of the Kubernetes strategy.
pub fn kubernetes_login_path() -> (r: String)
    ensures
        r@ == "auth/kubernetes/login"@,
{
    String::from_str("auth/kubernetes/login")
}

/// The path of the best-effort token renewal.
pub fn renew_token_path() -> (r: String)
    ensures
        r@ == "auth/token/renew-self"@,
{
    String::from_str("auth/token/renew-self")
}

} // verus!
