//! The client of the scrobble API: for each operation the request to send,
//! and what the service's answer amounts to. Sending is left to the caller.

use vstd::prelude::*;
use vstd::string::StringExecFns;
use crate::auth::{AuthCredentials, Credentials};
use crate::http::{
    append_decimal, decimal, query_text, HttpMethod, HttpRequest, HttpResponse, QueryString,
};
use crate::json::parsed_json;
use crate::params::{lemma_take_step, pairs_of, Params};
use crate::responses::{
    batch_of, now_playing_of, session_of, single_scrobble_of, BatchModel, BatchScrobbleResponse,
    NowPlayingModel, NowPlayingResponse, ScrobbleModel, ScrobbleResponse, SessionModel,
    SessionResponse,
};
use crate::signature::signature;

verus! {

/// The remote operations. Each has its fixed method name.
#[derive(Clone, Copy, Debug, PartialEq, Eq, Structural)]
pub enum ApiOperation {
    AuthWebSession,
    AuthMobileSession,
    NowPlaying,
    Scrobble,
}

impl ApiOperation {
    /// The name of the remote method.
    pub open spec fn method_name(self) -> Seq<char> {
        match self {
            ApiOperation::AuthWebSession => "auth.getSession"@,
            ApiOperation::AuthMobileSession => "auth.getMobileSession"@,
            ApiOperation::NowPlaying => "track.updateNowPlaying"@,
            ApiOperation::Scrobble => "track.scrobble"@,
        }
    }

    /// The name of the remote method.
    pub fn to_string(&self) -> (name: String)
        ensures
            name@ == self.method_name(),
    {
        match self {
            ApiOperation::AuthWebSession => "auth.getSession",
            ApiOperation::AuthMobileSession => "auth.getMobileSession",
            ApiOperation::NowPlaying => "track.updateNowPlaying",
            ApiOperation::Scrobble => "track.scrobble",
        }.to_owned()
    }

    /// What the operation is called in messages.
    pub open spec fn label(self) -> Seq<char> {
        match self {
            ApiOperation::AuthWebSession => "Authentication"@,
            ApiOperation::AuthMobileSession => "Authentication"@,
            ApiOperation::NowPlaying => "Now playing"@,
            ApiOperation::Scrobble => "Scrobble"@,
        }
    }
}

/// Why an operation gave no result.
#[derive(Debug, PartialEq, Eq)]
pub enum ClientError {
    /// The credentials are not enough to try an authentication.
    InvalidCredentials,
    /// A call that needs a session was tried without one.
    NotAuthenticated,
    /// The service did not grant a session, for the reason given.
    AuthenticationFailed(String),
    /// The call of the operation failed, for the reason given.
    RequestFailed(ApiOperation, String),
    /// The answer to the operation is not what such an answer looks like.
    DecodeFailed(ApiOperation),
}

/// An error as the contracts see it.
pub enum Failure {
    InvalidCredentials,
    NotAuthenticated,
    AuthenticationFailed(Seq<char>),
    RequestFailed(ApiOperation, Seq<char>),
    DecodeFailed(ApiOperation),
}

impl View for ClientError {
    type V = Failure;

    open spec fn view(&self) -> Failure {
        match self {
            ClientError::InvalidCredentials => Failure::InvalidCredentials,
            ClientError::NotAuthenticated => Failure::NotAuthenticated,
            ClientError::AuthenticationFailed(reason) => Failure::AuthenticationFailed(reason@),
            ClientError::RequestFailed(operation, reason) => Failure::RequestFailed(
                *operation,
                reason@,
            ),
            ClientError::DecodeFailed(operation) => Failure::DecodeFailed(*operation),
        }
    }
}

impl Failure {
    /// The error in words.
    pub open spec fn message(self) -> Seq<char> {
        match self {
            Failure::InvalidCredentials => "Invalid credentials"@,
            Failure::NotAuthenticated => "Not authenticated"@,
            Failure::AuthenticationFailed(reason) => "Authentication failed: "@ + reason,
            Failure::RequestFailed(operation, reason) => operation.label()
                + " request failed: "@ + reason,
            Failure::DecodeFailed(operation) => operation.label()
                + " response could not be decoded"@,
        }
    }
}

/// What an operation is called in messages.
fn label_text(operation: ApiOperation) -> (label: String)
    ensures
        label@ == operation.label(),
{
    match operation {
        ApiOperation::AuthWebSession => "Authentication",
        ApiOperation::AuthMobileSession => "Authentication",
        ApiOperation::NowPlaying => "Now playing",
        ApiOperation::Scrobble => "Scrobble",
    }.to_owned()
}

impl ClientError {
    /// The error in words.
    pub fn message(&self) -> (text: String)
        ensures
            text@ == self@.message(),
    {
        match self {
            ClientError::InvalidCredentials => "Invalid credentials".to_owned(),
            ClientError::NotAuthenticated => "Not authenticated".to_owned(),
            ClientError::AuthenticationFailed(reason) => {
                let mut text = "Authentication failed: ".to_owned();
                text.append(reason.as_str());
                text
            },
            ClientError::RequestFailed(operation, reason) => {
                let mut text = label_text(*operation);
                text.append(" request failed: ");
                text.append(reason.as_str());
                text
            },
            ClientError::DecodeFailed(operation) => {
                let mut text = label_text(*operation);
                text.append(" response could not be decoded");
                text
            },
        }
    }
}

/// The status that an answer counts as: its code, and 500 where the
/// transfer gave none.
pub open spec fn status_of(response: HttpResponse) -> int {
    match response.code {
        Some(code) => code as int,
        None => 500,
    }
}

/// What an answer hands to the decoder: its body, where the status is 200
/// and the body could be read; else the reason why there is none.
pub open spec fn response_body(response: HttpResponse) -> Result<Seq<char>, Seq<char>> {
    if status_of(response) != 200 {
        Err("Non Success status ("@ + decimal(status_of(response)) + ")"@)
    } else {
        match response.data {
            Ok(body) => Ok(body@),
            Err(_) => Err("Failed to read response body"@),
        }
    }
}

/// Reads the body out of an answer, or says why there is none.
pub fn read_response(response: HttpResponse) -> (body: Result<String, String>)
    ensures
        match body {
            Ok(body) => response_body(response) == Ok::<Seq<char>, Seq<char>>(body@),
            Err(reason) => response_body(response) == Err::<Seq<char>, Seq<char>>(reason@),
        },
{
    let status: u32 = match response.code {
        Some(code) => code,
        None => 500,
    };
    if status != 200 {
        let mut reason = "Non Success status (".to_owned();
        append_decimal(&mut reason, status as i64);
        reason.append(")");
        return Err(reason);
    }
    match response.data {
        Ok(body) => Ok(body),
        Err(_) => Err("Failed to read response body".to_owned()),
    }
}

/// The address of the service. The response format is asked for here and is
/// no parameter of the request.
pub open spec fn api_url() -> Seq<char> {
    "https://ws.audioscrobbler.com/2.0/?format=json"@
}

/// The fields of a signed request: the parameters, then the method's name
/// under `method`, then, last of all, the signature under `api_sig`. The
/// signature is computed before it is added; a value that the parameters
/// gave it is overwritten.
pub open spec fn request_fields(
    params: Map<Seq<char>, Seq<char>>,
    method: Seq<char>,
    secret: Seq<char>,
) -> Map<Seq<char>, Seq<char>> {
    params.insert("method"@, method).insert("api_sig"@, signature(params, method, secret))
}

/// `request` is the signed call of `operation` with `params`: a POST to the
/// service's address that carries the fields as its query string and has no
/// body of its own.
pub open spec fn is_signed_request(
    request: HttpRequest,
    operation: ApiOperation,
    params: Map<Seq<char>, Seq<char>>,
    secret: Seq<char>,
) -> bool {
    &&& request.url@ == api_url()
    &&& request.method == HttpMethod::POST
    &&& request.body is None
    &&& request.query is Some
    &&& request.query->0@ == query_text(request_fields(params, operation.method_name(), secret))
}

/// What the answer to an authentication amounts to.
pub open spec fn session_outcome(operation: ApiOperation, response: HttpResponse) -> Result<
    SessionModel,
    Failure,
> {
    match response_body(response) {
        Err(reason) => Err(Failure::AuthenticationFailed(reason)),
        Ok(body) => match parsed_json(body) {
            Some(doc) => match session_of(doc) {
                Some(session) => Ok(session),
                None => Err(Failure::DecodeFailed(operation)),
            },
            None => Err(Failure::DecodeFailed(operation)),
        },
    }
}

/// What the answer to a now-playing update amounts to.
pub open spec fn now_playing_outcome(response: HttpResponse) -> Result<NowPlayingModel, Failure> {
    match response_body(response) {
        Err(reason) => Err(Failure::RequestFailed(ApiOperation::NowPlaying, reason)),
        Ok(body) => match parsed_json(body) {
            Some(doc) => match now_playing_of(doc) {
                Some(echo) => Ok(echo),
                None => Err(Failure::DecodeFailed(ApiOperation::NowPlaying)),
            },
            None => Err(Failure::DecodeFailed(ApiOperation::NowPlaying)),
        },
    }
}

/// What the answer to a single scrobble amounts to.
pub open spec fn scrobble_outcome(response: HttpResponse) -> Result<ScrobbleModel, Failure> {
    match response_body(response) {
        Err(reason) => Err(Failure::RequestFailed(ApiOperation::Scrobble, reason)),
        Ok(body) => match parsed_json(body) {
            Some(doc) => match single_scrobble_of(doc) {
                Some(result) => Ok(result),
                None => Err(Failure::DecodeFailed(ApiOperation::Scrobble)),
            },
            None => Err(Failure::DecodeFailed(ApiOperation::Scrobble)),
        },
    }
}

/// What the answer to a batch of scrobbles amounts to.
pub open spec fn batch_outcome(response: HttpResponse) -> Result<BatchModel, Failure> {
    match response_body(response) {
        Err(reason) => Err(Failure::RequestFailed(ApiOperation::Scrobble, reason)),
        Ok(body) => match parsed_json(body) {
            Some(doc) => match batch_of(doc) {
                Some(batch) => Ok(batch),
                None => Err(Failure::DecodeFailed(ApiOperation::Scrobble)),
            },
            None => Err(Failure::DecodeFailed(ApiOperation::Scrobble)),
        },
    }
}

/// A client of the scrobble API. It holds the credentials and, once
/// authenticated, the session key.
#[derive(Debug, PartialEq, Eq)]
pub struct LastFmClient {
    auth: AuthCredentials,
}

impl View for LastFmClient {
    type V = Credentials;

    closed spec fn view(&self) -> Credentials {
        self.auth@
    }
}

impl LastFmClient {
    /// A client of the application with the given key and secret, without
    /// user and session.
    pub fn new(api_key: String, api_secret: String) -> (client: LastFmClient)
        ensures
            client@ == (Credentials {
                api_key: api_key@,
                api_secret: api_secret@,
                username: Seq::empty(),
                password: Seq::empty(),
                user_token: None,
                session_key: None,
            }),
    {
        LastFmClient { auth: AuthCredentials::new_partial(api_key, api_secret) }
    }

    /// Sets the user's name and password, and drops the session.
    pub fn set_user_credentials(&mut self, username: String, password: String)
        ensures
            final(self)@ == (Credentials {
                username: username@,
                password: password@,
                session_key: None,
                ..old(self)@
            }),
    {
        self.auth.set_user_credentials(username, password);
    }

    /// Sets the token for the web-session exchange, and drops the session.
    pub fn set_user_token(&mut self, token: String)
        ensures
            final(self)@ == (Credentials {
                user_token: Some(token@),
                session_key: None,
                ..old(self)@
            }),
    {
        self.auth.set_user_token(token);
    }

    /// Takes a session key that the caller got elsewhere. The service is
    /// not asked: the key is trusted as it is.
    pub fn authenticate_with_session_key(&mut self, session_key: String)
        ensures
            final(self)@ == (Credentials { session_key: Some(session_key@), ..old(self)@ }),
    {
        self.auth.set_session_key(session_key)
    }

    /// The session key, if there is one.
    pub fn session_key(&self) -> (key: Option<String>)
        ensures
            crate::auth::text_of(key) == self@.session_key,
    {
        self.auth.session_key()
    }

    /// Whether the credentials are enough to try an authentication.
    pub fn is_valid(&self) -> (valid: bool)
        ensures
            valid == self@.is_valid(),
    {
        self.auth.is_valid()
    }

    /// Whether the client has valid credentials and a session key.
    pub fn is_authenticated(&self) -> (authenticated: bool)
        ensures
            authenticated == self@.is_authenticated(),
    {
        self.auth.is_authenticated()
    }

    /// The signed request for `operation` with `params`.
    pub fn send_request(&self, operation: ApiOperation, params: Params) -> (request: HttpRequest)
        ensures
            is_signed_request(request, operation, params@, self@.api_secret),
    {
        let signature = self.auth.get_signature(operation.to_string(), &params);
        let mut fields = params;
        fields.insert("method".to_owned(), operation.to_string());
        fields.insert("api_sig".to_owned(), signature);
        let mut query = QueryString::new();
        let entries = fields.entries();
        let ghost all = fields.pairs();
        let mut i: usize = 0;
        assert(all.take(0) =~= seq![]);
        assert(crate::params::as_map(all.take(0)) =~= Map::<Seq<char>, Seq<char>>::empty());
        while i < entries.len()
            invariant
                i <= entries@.len(),
                pairs_of(entries@) == all,
                crate::params::ascending(all),
                query@ == crate::params::as_map(all.take(i as int)),
            decreases entries@.len() - i,
        {
            proof {
                lemma_take_step(all, i as int);
            }
            query.add_opt(entries[i].key.as_str(), Some(entries[i].value.clone()));
            i += 1;
        }
        assert(all.take(i as int) =~= all);
        HttpRequest {
            url: "https://ws.audioscrobbler.com/2.0/?format=json".to_owned(),
            query: Some(query.build()),
            body: None,
            method: HttpMethod::POST,
        }
    }

    /// The request of a call that needs a session: the caller's parameters
    /// on top of the application's key and the session key, signed. Without
    /// a session there is no request, and nothing to send.
    pub fn send_authenticated_request(&self, operation: ApiOperation, params: &Params) -> (request:
        Result<HttpRequest, ClientError>)
        ensures
            match request {
                Ok(request) => self@.is_authenticated() && is_signed_request(
                    request,
                    operation,
                    self@.base_params().union_prefer_right(params@),
                    self@.api_secret,
                ),
                Err(error) => !self@.is_authenticated() && error@ == Failure::NotAuthenticated,
            },
    {
        if !self.auth.is_authenticated() {
            return Err(ClientError::NotAuthenticated);
        }
        let mut request_params = self.auth.get_request_params();
        request_params.extend(params);
        Ok(self.send_request(operation, request_params))
    }

    /// The request that asks for a session with the user's name and
    /// password.
    pub fn authenticate_with_password(&self) -> (request: Result<HttpRequest, ClientError>)
        ensures
            match request {
                Ok(request) => self@.is_valid() && is_signed_request(
                    request,
                    ApiOperation::AuthMobileSession,
                    self@.auth_params(),
                    self@.api_secret,
                ),
                Err(error) => !self@.is_valid() && error@ == Failure::InvalidCredentials,
            },
    {
        match self.auth.get_auth_request_params() {
            Ok(params) => Ok(self.send_request(ApiOperation::AuthMobileSession, params)),
            Err(_) => Err(ClientError::InvalidCredentials),
        }
    }

    /// The request that asks for a session with the user's token.
    pub fn authenticate_with_token(&self) -> (request: Result<HttpRequest, ClientError>)
        ensures
            match request {
                Ok(request) => self@.is_valid() && is_signed_request(
                    request,
                    ApiOperation::AuthWebSession,
                    self@.token_params(),
                    self@.api_secret,
                ),
                Err(error) => !self@.is_valid() && error@ == Failure::InvalidCredentials,
            },
    {
        match self.auth.get_token_request_params() {
            Ok(params) => Ok(self.send_request(ApiOperation::AuthWebSession, params)),
            Err(_) => Err(ClientError::InvalidCredentials),
        }
    }

    /// Takes the answer to an authentication. A session in it is stored and
    /// handed out; any failure leaves the client as it was.
    pub fn receive_session(&mut self, operation: ApiOperation, response: HttpResponse) -> (session:
        Result<SessionResponse, ClientError>)
        ensures
            match session {
                Ok(session) => session_outcome(operation, response) == Ok::<SessionModel, Failure>(
                    session@,
                ) && final(self)@ == (Credentials {
                    session_key: Some(session@.key),
                    ..old(self)@
                }),
                Err(error) => session_outcome(operation, response) == Err::<SessionModel, Failure>(
                    error@,
                ) && final(self)@ == old(self)@,
            },
    {
        match read_response(response) {
            Ok(body) => match SessionResponse::from_json(body.as_str()) {
                Some(session) => {
                    self.auth.set_session_key(session.key.clone());
                    Ok(session)
                },
                None => Err(ClientError::DecodeFailed(operation)),
            },
            Err(reason) => Err(ClientError::AuthenticationFailed(reason)),
        }
    }

    /// The request of a now-playing update.
    pub fn send_now_playing(&self, params: &Params) -> (request: Result<HttpRequest, ClientError>)
        ensures
            match request {
                Ok(request) => self@.is_authenticated() && is_signed_request(
                    request,
                    ApiOperation::NowPlaying,
                    self@.base_params().union_prefer_right(params@),
                    self@.api_secret,
                ),
                Err(error) => !self@.is_authenticated() && error@ == Failure::NotAuthenticated,
            },
    {
        self.send_authenticated_request(ApiOperation::NowPlaying, params)
    }

    /// Takes the answer to a now-playing update.
    pub fn receive_now_playing(&self, response: HttpResponse) -> (echo: Result<
        NowPlayingResponse,
        ClientError,
    >)
        ensures
            match echo {
                Ok(echo) => now_playing_outcome(response) == Ok::<NowPlayingModel, Failure>(echo@),
                Err(error) => now_playing_outcome(response) == Err::<NowPlayingModel, Failure>(
                    error@,
                ),
            },
    {
        match read_response(response) {
            Ok(body) => match NowPlayingResponse::from_json(body.as_str()) {
                Some(echo) => Ok(echo),
                None => Err(ClientError::DecodeFailed(ApiOperation::NowPlaying)),
            },
            Err(reason) => Err(ClientError::RequestFailed(ApiOperation::NowPlaying, reason)),
        }
    }

    /// The request of a single scrobble.
    pub fn send_scrobble(&self, params: &Params) -> (request: Result<HttpRequest, ClientError>)
        ensures
            match request {
                Ok(request) => self@.is_authenticated() && is_signed_request(
                    request,
                    ApiOperation::Scrobble,
                    self@.base_params().union_prefer_right(params@),
                    self@.api_secret,
                ),
                Err(error) => !self@.is_authenticated() && error@ == Failure::NotAuthenticated,
            },
    {
        self.send_authenticated_request(ApiOperation::Scrobble, params)
    }

    /// Takes the answer to a single scrobble.
    pub fn receive_scrobble(&self, response: HttpResponse) -> (result: Result<
        ScrobbleResponse,
        ClientError,
    >)
        ensures
            match result {
                Ok(result) => scrobble_outcome(response) == Ok::<ScrobbleModel, Failure>(result@),
                Err(error) => scrobble_outcome(response) == Err::<ScrobbleModel, Failure>(error@),
            },
    {
        match read_response(response) {
            Ok(body) => match ScrobbleResponse::from_json(body.as_str()) {
                Some(result) => Ok(result),
                None => Err(ClientError::DecodeFailed(ApiOperation::Scrobble)),
            },
            Err(reason) => Err(ClientError::RequestFailed(ApiOperation::Scrobble, reason)),
        }
    }

    /// The request of a batch of scrobbles. It is the same remote method as
    /// for a single one; the caller's parameters carry an index for each
    /// track and are sent on as they are.
    pub fn send_batch_scrobbles(&self, params: &Params) -> (request: Result<
        HttpRequest,
        ClientError,
    >)
        ensures
            match request {
                Ok(request) => self@.is_authenticated() && is_signed_request(
                    request,
                    ApiOperation::Scrobble,
                    self@.base_params().union_prefer_right(params@),
                    self@.api_secret,
                ),
                Err(error) => !self@.is_authenticated() && error@ == Failure::NotAuthenticated,
            },
    {
        self.send_authenticated_request(ApiOperation::Scrobble, params)
    }

    /// Takes the answer to a batch of scrobbles.
    pub fn receive_batch_scrobbles(&self, response: HttpResponse) -> (batch: Result<
        BatchScrobbleResponse,
        ClientError,
    >)
        ensures
            match batch {
                Ok(batch) => batch_outcome(response) == Ok::<BatchModel, Failure>(batch@),
                Err(error) => batch_outcome(response) == Err::<BatchModel, Failure>(error@),
            },
    {
        match read_response(response) {
            Ok(body) => match BatchScrobbleResponse::from_json(body.as_str()) {
                Some(batch) => Ok(batch),
                None => Err(ClientError::DecodeFailed(ApiOperation::Scrobble)),
            },
            Err(reason) => Err(ClientError::RequestFailed(ApiOperation::Scrobble, reason)),
        }
    }
}

} // verus!
