//! The credential store: the application's key and secret, the user's name
//! and password, and the session key that an authentication yields.

use vstd::prelude::*;
use crate::params::Params;
use crate::signature::{is_lower_hex, sign, signature};

verus! {

/// Application and user credentials, and the session key once there is one.
#[derive(Debug, PartialEq, Eq)]
pub struct AuthCredentials {
    api_key: String,
    api_secret: String,
    username: String,
    password: String,
    user_token: Option<String>,
    session_key: Option<String>,
}

/// The credentials as the contracts see them.
pub struct Credentials {
    pub api_key: Seq<char>,
    pub api_secret: Seq<char>,
    pub username: Seq<char>,
    pub password: Seq<char>,
    pub user_token: Option<Seq<char>>,
    pub session_key: Option<Seq<char>>,
}

/// Why the credential store hands out no parameters.
#[derive(Clone, Copy, Debug, PartialEq, Eq)]
pub enum CredentialsError {
    /// The key, the secret, the user's name or the password is empty.
    MissingCredentials,
}

/// The text of an optional string.
pub open spec fn text_of(value: Option<String>) -> Option<Seq<char>> {
    match value {
        Some(text) => Some(text@),
        None => None,
    }
}

impl Credentials {
    /// There is enough to try an authentication: key, secret, user name and
    /// password are all non-empty. The session key plays no part.
    pub open spec fn is_valid(self) -> bool {
        self.api_key.len() > 0 && self.api_secret.len() > 0 && self.username.len() > 0
            && self.password.len() > 0
    }

    /// Valid credentials together with a session key.
    pub open spec fn is_authenticated(self) -> bool {
        self.is_valid() && self.session_key is Some
    }

    /// What every authenticated call carries: the application's key and, if
    /// there is one, the session key under the service's name for it, `sk`.
    pub open spec fn base_params(self) -> Map<Seq<char>, Seq<char>> {
        let key_only = Map::<Seq<char>, Seq<char>>::empty().insert("api_key"@, self.api_key);
        match self.session_key {
            Some(key) => key_only.insert("sk"@, key),
            None => key_only,
        }
    }

    /// What a password authentication carries.
    pub open spec fn auth_params(self) -> Map<Seq<char>, Seq<char>> {
        Map::<Seq<char>, Seq<char>>::empty().insert("api_key"@, self.api_key).insert(
            "username"@,
            self.username,
        ).insert("password"@, self.password)
    }

    /// What a token authentication carries: the same, and the user's token
    /// if one was set.
    pub open spec fn token_params(self) -> Map<Seq<char>, Seq<char>> {
        match self.user_token {
            Some(token) => self.auth_params().insert("token"@, token),
            None => self.auth_params(),
        }
    }
}

impl View for AuthCredentials {
    type V = Credentials;

    closed spec fn view(&self) -> Credentials {
        Credentials {
            api_key: self.api_key@,
            api_secret: self.api_secret@,
            username: self.username@,
            password: self.password@,
            user_token: text_of(self.user_token),
            session_key: text_of(self.session_key),
        }
    }
}

/// A copy of an optional string.
fn copy_of(value: &Option<String>) -> (copy: Option<String>)
    ensures
        text_of(copy) == text_of(*value),
{
    match value {
        Some(text) => Some(text.clone()),
        None => None,
    }
}

impl AuthCredentials {
    /// Credentials of an application, with no user and no session yet.
    /// Nothing is checked here: empty strings are accepted and show up as
    /// invalid credentials later.
    pub fn new_partial(api_key: String, api_secret: String) -> (credentials: AuthCredentials)
        ensures
            credentials@ == (Credentials {
                api_key: api_key@,
                api_secret: api_secret@,
                username: Seq::empty(),
                password: Seq::empty(),
                user_token: None,
                session_key: None,
            }),
    {
        AuthCredentials {
            api_key,
            api_secret,
            username: String::new(),
            password: String::new(),
            user_token: None,
            session_key: None,
        }
    }

    /// Sets the user's name and password together. A session that was there
    /// belonged to the credentials before, so it is dropped.
    pub fn set_user_credentials(&mut self, username: String, password: String)
        ensures
            final(self)@ == (Credentials {
                username: username@,
                password: password@,
                session_key: None,
                ..old(self)@
            }),
    {
        self.username = username;
        self.password = password;
        self.session_key = None;
    }

    /// Sets the token that the web-session exchange hands to the service.
    /// As with any change of credentials, the session is dropped.
    pub fn set_user_token(&mut self, token: String)
        ensures
            final(self)@ == (Credentials {
                user_token: Some(token@),
                session_key: None,
                ..old(self)@
            }),
    {
        self.user_token = Some(token);
        self.session_key = None;
    }

    /// Stores a session key, whatever was there before. The key is not
    /// checked against the service: the caller vouches for it.
    pub fn set_session_key(&mut self, session_key: String)
        ensures
            final(self)@ == (Credentials { session_key: Some(session_key@), ..old(self)@ }),
    {
        self.session_key = Some(session_key);
    }

    /// The session key, if there is one.
    pub fn session_key(&self) -> (key: Option<String>)
        ensures
            text_of(key) == self@.session_key,
    {
        copy_of(&self.session_key)
    }

    /// Whether there is enough to try an authentication.
    pub fn is_valid(&self) -> (valid: bool)
        ensures
            valid == self@.is_valid(),
    {
        !self.api_key.as_str().is_empty() && !self.api_secret.as_str().is_empty()
            && !self.username.as_str().is_empty() && !self.password.as_str().is_empty()
    }

    /// Whether the credentials are valid and a session key is there.
    pub fn is_authenticated(&self) -> (authenticated: bool)
        ensures
            authenticated == self@.is_authenticated(),
    {
        self.is_valid() && self.session_key.is_some()
    }

    /// The signature of a call of `method` with `params`, under the
    /// application's secret.
    pub fn get_signature(&self, method: String, params: &Params) -> (sig: String)
        ensures
            sig@ == signature(params@, method@, self@.api_secret),
            sig@.len() == 32,
            forall|i: int| 0 <= i < sig@.len() ==> is_lower_hex(#[trigger] sig@[i]),
    {
        sign(params, method.as_str(), self.api_secret.as_str())
    }

    /// The parameters that every authenticated call carries.
    pub fn get_request_params(&self) -> (params: Params)
        ensures
            params@ == self@.base_params(),
    {
        let mut params = Params::new();
        params.insert("api_key".to_owned(), self.api_key.clone());
        match &self.session_key {
            Some(key) => {
                params.insert("sk".to_owned(), key.clone());
            },
            None => {},
        }
        params
    }

    /// The parameters of a password authentication, if the credentials are
    /// valid.
    pub fn get_auth_request_params(&self) -> (params: Result<Params, CredentialsError>)
        ensures
            match params {
                Ok(params) => self@.is_valid() && params@ == self@.auth_params(),
                Err(error) => !self@.is_valid() && error == CredentialsError::MissingCredentials,
            },
    {
        if !self.is_valid() {
            return Err(CredentialsError::MissingCredentials);
        }
        let mut params = Params::new();
        params.insert("api_key".to_owned(), self.api_key.clone());
        params.insert("username".to_owned(), self.username.clone());
        params.insert("password".to_owned(), self.password.clone());
        Ok(params)
    }

    /// The parameters of a token authentication, if the credentials are
    /// valid.
    pub fn get_token_request_params(&self) -> (params: Result<Params, CredentialsError>)
        ensures
            match params {
                Ok(params) => self@.is_valid() && params@ == self@.token_params(),
                Err(error) => !self@.is_valid() && error == CredentialsError::MissingCredentials,
            },
    {
        match self.get_auth_request_params() {
            Ok(params) => {
                let mut params = params;
                match &self.user_token {
                    Some(token) => {
                        params.insert("token".to_owned(), token.clone());
                    },
                    None => {},
                }
                Ok(params)
            },
            Err(error) => Err(error),
        }
    }
}

/// Whoever is authenticated has valid credentials.
pub proof fn lemma_authenticated_implies_valid(credentials: Credentials)
    ensures
        credentials.is_authenticated() ==> credentials.is_valid(),
{
}

/// Valid credentials need not be authenticated: valid credentials without a
/// session key are not, and there are such.
pub proof fn lemma_valid_not_authenticated(credentials: Credentials)
    ensures
        credentials.is_valid() && credentials.session_key is None
            ==> !credentials.is_authenticated(),
        exists|other: Credentials| other.is_valid() && !other.is_authenticated(),
{
    let other = Credentials {
        api_key: seq!['k'],
        api_secret: seq!['s'],
        username: seq!['u'],
        password: seq!['p'],
        user_token: None,
        session_key: None,
    };
    assert(other.is_valid() && !other.is_authenticated());
}

} // verus!
