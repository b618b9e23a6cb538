//! Registry credentials: the loosely typed form that callers fill in, and the
//! checked form that a request carries.

use crate::text::opt_str_view;
use vstd::prelude::*;

verus! {

/// Which authentication method a [`RegistryAuth`] selects.
#[derive(Clone, Copy, Debug, PartialEq, Eq, Structural)]
pub enum RegistryAuthType {
    /// Access the registry anonymously.
    Anonymous,
    /// Access the registry using HTTP Basic authentication.
    Basic,
    /// Access the registry using Bearer token authentication.
    Bearer,
}

/// Registry authentication as callers supply it: a tag plus the fields that
/// the tag may require.
#[derive(Clone, Debug)]
pub struct RegistryAuth {
    /// The method to use.
    pub auth_type: RegistryAuthType,
    /// Username, required for `Basic`.
    pub username: Option<String>,
    /// Password, required for `Basic`.
    pub password: Option<String>,
    /// Token, required for `Bearer`.
    pub token: Option<String>,
}

/// A credential in which exactly the fields of the active method are present.
#[derive(Clone, Debug)]
pub enum Credential {
    /// No credential is attached to requests.
    Anonymous,
    /// Username and password, sent as `Authorization: Basic`.
    Basic(String, String),
    /// A token, sent as `Authorization: Bearer`.
    Bearer(String),
}

/// Why a [`RegistryAuth`] does not describe a credential.
#[derive(Clone, Copy, Debug, PartialEq, Eq, Structural)]
pub enum AuthError {
    /// `Basic` was selected without a username.
    MissingUsername,
    /// `Basic` was selected with a username but without a password.
    MissingPassword,
    /// `Bearer` was selected without a token.
    MissingToken,
}

/// Mathematical value of a [`Credential`].
pub enum CredentialView {
    Anonymous,
    Basic(Seq<char>, Seq<char>),
    Bearer(Seq<char>),
}

/// Mathematical value of a [`RegistryAuth`].
pub struct RegistryAuthView {
    pub auth_type: RegistryAuthType,
    pub username: Option<Seq<char>>,
    pub password: Option<Seq<char>>,
    pub token: Option<Seq<char>>,
}

impl View for Credential {
    type V = CredentialView;

    open spec fn view(&self) -> CredentialView {
        match self {
            Credential::Anonymous => CredentialView::Anonymous,
            Credential::Basic(u, p) => CredentialView::Basic(u@, p@),
            Credential::Bearer(t) => CredentialView::Bearer(t@),
        }
    }
}

impl View for RegistryAuth {
    type V = RegistryAuthView;

    open spec fn view(&self) -> RegistryAuthView {
        RegistryAuthView {
            auth_type: self.auth_type,
            username: opt_str_view(self.username),
            password: opt_str_view(self.password),
            token: opt_str_view(self.token),
        }
    }
}

/// The credential that a supplied authentication denotes. Fields of inactive
/// methods are ignored; a missing username is reported before a missing
/// password.
pub open spec fn resolve_auth(a: RegistryAuthView) -> Result<CredentialView, AuthError> {
    match a.auth_type {
        RegistryAuthType::Anonymous => Ok(CredentialView::Anonymous),
        RegistryAuthType::Basic => match (a.username, a.password) {
            (None, _) => Err(AuthError::MissingUsername),
            (Some(_), None) => Err(AuthError::MissingPassword),
            (Some(u), Some(p)) => Ok(CredentialView::Basic(u, p)),
        },
        RegistryAuthType::Bearer => match a.token {
            None => Err(AuthError::MissingToken),
            Some(t) => Ok(CredentialView::Bearer(t)),
        },
    }
}

/// View of the outcome of resolving an authentication.
pub open spec fn credential_result_view(r: Result<Credential, AuthError>) -> Result<
    CredentialView,
    AuthError,
> {
    match r {
        Ok(c) => Ok(c@),
        Err(e) => Err(e),
    }
}

impl AuthError {
    /// The text of this error.
    pub open spec fn spec_message(self) -> Seq<char> {
        match self {
            AuthError::MissingUsername => "username required for Basic auth"@,
            AuthError::MissingPassword => "password required for Basic auth"@,
            AuthError::MissingToken => "token required for Bearer auth"@,
        }
    }

    /// Human-readable cause.
    pub fn message(&self) -> (s: String)
        ensures
            s@ == self.spec_message(),
    {
        match self {
            AuthError::MissingUsername => "username required for Basic auth".to_owned(),
            AuthError::MissingPassword => "password required for Basic auth".to_owned(),
            AuthError::MissingToken => "token required for Bearer auth".to_owned(),
        }
    }
}

impl RegistryAuth {
    /// Checks that the fields of the selected method are present and returns
    /// the credential they form.
    pub fn to_native(&self) -> (r: Result<Credential, AuthError>)
        ensures
            credential_result_view(r) == resolve_auth(self@),
    {
        match self.auth_type {
            RegistryAuthType::Anonymous => Ok(Credential::Anonymous),
            RegistryAuthType::Basic => {
                match &self.username {
                    None => Err(AuthError::MissingUsername),
                    Some(u) => match &self.password {
                        None => Err(AuthError::MissingPassword),
                        Some(p) => Ok(Credential::Basic(u.clone(), p.clone())),
                    },
                }
            },
            RegistryAuthType::Bearer => {
                match &self.token {
                    None => Err(AuthError::MissingToken),
                    Some(t) => Ok(Credential::Bearer(t.clone())),
                }
            },
        }
    }
}

/// An anonymous authentication: no field is set.
pub fn anonymous_auth() -> (a: RegistryAuth)
    ensures
        a@ == (RegistryAuthView {
            auth_type: RegistryAuthType::Anonymous,
            username: None,
            password: None,
            token: None,
        }),
{
    RegistryAuth {
        auth_type: RegistryAuthType::Anonymous,
        username: None,
        password: None,
        token: None,
    }
}

/// A Basic authentication holding the given username and password.
pub fn basic_auth(username: String, password: String) -> (a: RegistryAuth)
    ensures
        a@ == (RegistryAuthView {
            auth_type: RegistryAuthType::Basic,
            username: Some(username@),
            password: Some(password@),
            token: None,
        }),
{
    RegistryAuth {
        auth_type: RegistryAuthType::Basic,
        username: Some(username),
        password: Some(password),
        token: None,
    }
}

/// A Bearer authentication holding the given token.
pub fn bearer_auth(token: String) -> (a: RegistryAuth)
    ensures
        a@ == (RegistryAuthView {
            auth_type: RegistryAuthType::Bearer,
            username: None,
            password: None,
            token: Some(token@),
        }),
{
    RegistryAuth {
        auth_type: RegistryAuthType::Bearer,
        username: None,
        password: None,
        token: Some(token),
    }
}

/// A credential made by one of the three constructors always resolves.
pub proof fn lemma_constructed_auth_resolves(a: RegistryAuthView)
    requires
        (a.auth_type == RegistryAuthType::Basic ==> a.username.is_some() && a.password.is_some()),
        (a.auth_type == RegistryAuthType::Bearer ==> a.token.is_some()),
    ensures
        resolve_auth(a).is_ok(),
{
}

} // verus!
