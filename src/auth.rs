//! Login: the configuration that a session is built from, the tokens the
//! server hands out, and the login protocol with its single retry for a
//! second factor.
//!
//! The protocol is a state machine. [`LoginFlow::request`] gives the request to
//! send; the transport posts it, notes when the answer came, and decodes it
//! into an [`AuthToken`]; [`LoginFlow::on_reply`] decides what follows: ask the
//! user for a code (then [`LoginFlow::on_code`] gives the retried request),
//! finish with an authorization header, or fail.

use vstd::prelude::*;
use vstd::string::*;
use crate::endpoints::{OAUTH_TOKEN_URL, TOKEN_AUTH_URL};
use crate::error::Error;
use crate::pagination::opt_text;
use crate::records::Timestamp;
use crate::request::{form_view, push_field, FieldModel, PostRequest};
use crate::text::joined;

verus! {

/// The answer of the OAuth2 token endpoint.
#[derive(Clone, Debug, PartialEq)]
pub struct OAuthToken {
    pub backup_code: Option<String>,
    pub access_token: Option<String>,
    pub expires_in: Option<u32>,
    pub token_type: Option<String>,
    pub scope: Option<String>,
    pub refresh_token: Option<String>,
    /// When the token was received; set by the login, not by the server.
    pub birth: Option<Timestamp>,
    pub mfa_code: Option<String>,
    pub mfa_type: Option<String>,
    pub mfa_required: Option<bool>,
}

/// The answer of the legacy token endpoint.
#[derive(Clone, Debug, PartialEq)]
pub struct PlainAuthToken {
    pub token: Option<String>,
    pub mfa_code: Option<String>,
    pub mfa_type: Option<String>,
    pub mfa_required: Option<bool>,
}

/// The answer of either token endpoint.
#[derive(Clone, Debug, PartialEq)]
pub enum AuthToken {
    OAuth(OAuthToken),
    Plain(PlainAuthToken),
}

/// The server asks for a second factor.
pub open spec fn demands_mfa(t: AuthToken) -> bool {
    match t {
        AuthToken::OAuth(o) => o.mfa_required == Some(true),
        AuthToken::Plain(p) => p.mfa_required == Some(true),
    }
}

/// The kind of second factor the server asks for.
pub open spec fn mfa_kind(t: AuthToken) -> Option<Seq<char>> {
    match t {
        AuthToken::OAuth(o) => opt_text(o.mfa_type),
        AuthToken::Plain(p) => opt_text(p.mfa_type),
    }
}

/// The secret a token carries.
pub open spec fn secret(t: AuthToken) -> Option<Seq<char>> {
    match t {
        AuthToken::OAuth(o) => opt_text(o.access_token),
        AuthToken::Plain(p) => opt_text(p.token),
    }
}

/// Which login is used.
#[derive(Clone, Debug, PartialEq)]
pub enum Grant {
    /// The OAuth2 password grant, for this client and scope.
    OAuth { client_id: String, scope: String },
    /// The legacy token login.
    Legacy,
}

/// One login in progress.
#[derive(Clone, Debug)]
pub struct LoginFlow {
    pub username: String,
    pub password: String,
    pub grant: Grant,
    /// The second-factor code already sent, if any.
    pub mfa_code: Option<String>,
}

/// The endpoint a login posts to.
pub open spec fn login_url(g: Grant) -> Seq<char> {
    match g {
        Grant::OAuth { .. } => OAUTH_TOKEN_URL@,
        Grant::Legacy => TOKEN_AUTH_URL@,
    }
}

/// The form a login posts: the credentials, the grant's own fields, and the
/// second-factor code once one is known.
pub open spec fn login_form(f: LoginFlow) -> Seq<FieldModel> {
    (match f.grant {
        Grant::OAuth { client_id, scope } => seq![
            ("grant_type"@, "password"@),
            ("username"@, f.username@),
            ("password"@, f.password@),
            ("scope"@, scope@),
            ("client_id"@, client_id@),
        ],
        Grant::Legacy => seq![("username"@, f.username@), ("password"@, f.password@)],
    }) + (match f.mfa_code {
        Some(c) => seq![("mfa_code"@, c@)],
        None => Seq::empty(),
    })
}

/// The scheme of the `Authorization` header for a grant.
pub open spec fn auth_scheme(g: Grant) -> Seq<char> {
    match g {
        Grant::OAuth { .. } => "Bearer "@,
        Grant::Legacy => "Token "@,
    }
}

/// What the login does next.
pub enum LoginAction {
    /// Ask the user for a code of this kind and hand it to [`LoginFlow::on_code`].
    AskCode(String),
    /// Logged in: the value of the `Authorization` header, and the token.
    Authorized { authorization: String, token: AuthToken },
    /// The login failed.
    Failed(Error),
}

impl LoginFlow {
    /// The request to send now.
    pub fn request(&self) -> (r: PostRequest)
        ensures
            r.url@ == login_url(self.grant),
            form_view(r.form@) == login_form(*self),
    {
        let mut form: Vec<(String, String)> = Vec::new();
        let url = match &self.grant {
            Grant::OAuth { client_id, scope } => {
                push_field(&mut form, "grant_type", String::from_str("password"));
                push_field(&mut form, "username", self.username.clone());
                push_field(&mut form, "password", self.password.clone());
                push_field(&mut form, "scope", scope.clone());
                push_field(&mut form, "client_id", client_id.clone());
                String::from_str(OAUTH_TOKEN_URL)
            },
            Grant::Legacy => {
                push_field(&mut form, "username", self.username.clone());
                push_field(&mut form, "password", self.password.clone());
                String::from_str(TOKEN_AUTH_URL)
            },
        };
        match &self.mfa_code {
            Some(c) => push_field(&mut form, "mfa_code", c.clone()),
            None => {},
        }
        proof {
            assert(form_view(form@) =~= login_form(*self));
        }
        PostRequest { url, form }
    }

    /// Takes in the code the user gave, and gives the retried request.
    pub fn on_code(&mut self, code: String) -> (r: PostRequest)
        ensures
            *final(self) == (LoginFlow { mfa_code: Some(code), ..*old(self) }),
            r.url@ == login_url(old(self).grant),
            form_view(r.form@) == login_form(*final(self)),
    {
        self.mfa_code = Some(code);
        self.request()
    }

    /// Decides what follows an answer of the token endpoint.
    ///
    /// A demand for a second factor is met once: the first asks the user for a
    /// code of the kind the server names, and a second one fails. Otherwise the
    /// token's secret makes the header, after the scheme of the grant; an
    /// OAuth2 token is stamped with `received_at`, the time its answer came.
    pub fn on_reply(&self, token: AuthToken, received_at: Timestamp) -> (r: LoginAction)
        ensures
            demands_mfa(token) && self.mfa_code is None ==> match mfa_kind(token) {
                Some(k) => r is AskCode && r->AskCode_0@ == k,
                None => r == LoginAction::Failed(Error::MissingMfaType),
            },
            demands_mfa(token) && self.mfa_code is Some ==> r == LoginAction::Failed(
                Error::MfaRetryExhausted,
            ),
            !demands_mfa(token) ==> match secret(token) {
                Some(s) => r is Authorized && r->authorization@ == auth_scheme(self.grant) + s
                    && match token {
                    AuthToken::OAuth(o) => r->token == AuthToken::OAuth(
                        OAuthToken { birth: Some(received_at), ..o },
                    ),
                    AuthToken::Plain(_) => r->token == token,
                },
                None => r == LoginAction::Failed(Error::MissingToken),
            },
    {
        let (required, kind, secret) = match &token {
            AuthToken::OAuth(o) => (o.mfa_required, o.mfa_type.clone(), o.access_token.clone()),
            AuthToken::Plain(p) => (p.mfa_required, p.mfa_type.clone(), p.token.clone()),
        };
        if required == Some(true) {
            if self.mfa_code.is_some() {
                return LoginAction::Failed(Error::MfaRetryExhausted);
            }
            return match kind {
                Some(k) => LoginAction::AskCode(k),
                None => LoginAction::Failed(Error::MissingMfaType),
            };
        }
        match secret {
            None => LoginAction::Failed(Error::MissingToken),
            Some(s) => {
                let authorization = match &self.grant {
                    Grant::OAuth { .. } => joined("Bearer ", s.as_str()),
                    Grant::Legacy => joined("Token ", s.as_str()),
                };
                let token = match token {
                    AuthToken::OAuth(o) => AuthToken::OAuth(OAuthToken { birth: Some(received_at), ..o }),
                    AuthToken::Plain(p) => AuthToken::Plain(p),
                };
                LoginAction::Authorized { authorization, token }
            },
        }
    }
}

} // verus!
