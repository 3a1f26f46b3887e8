//! What the client authenticates with, and the decisions around its session:
//! when a session is renewed, with which credentials one is opened, and what
//! a failed attempt amounts to. Opening a session is the caller's work.

use vstd::prelude::*;
use crate::config::{Configs, SessionSettings, SessionSettingsView};
use crate::error::ClientError;

verus! {

/// The settings and the login that sessions are opened with.
#[derive(Debug, PartialEq, Eq)]
pub struct AuthConfig {
    pub session_config: SessionSettings,
    pub login_info: (String, String),
}

/// The view of [`AuthConfig`]: the same, with texts and lists as sequences.
pub struct AuthConfigView {
    pub session_config: SessionSettingsView,
    pub login_info: (Seq<char>, Seq<char>),
}

impl View for AuthConfig {
    type V = AuthConfigView;

    open spec fn view(&self) -> AuthConfigView {
        AuthConfigView {
            session_config: self.session_config@,
            login_info: (self.login_info.0@, self.login_info.1@),
        }
    }
}

/// The authentication of a client that was given none: default session
/// settings and an empty login.
pub open spec fn default_auth_config() -> AuthConfigView {
    AuthConfigView {
        session_config: SessionSettingsView { proxy: None, ap_port: None },
        login_info: (Seq::empty(), Seq::empty()),
    }
}

impl Default for AuthConfig {
    fn default() -> (config: AuthConfig)
        ensures
            config@ == default_auth_config(),
    {
        AuthConfig {
            session_config: SessionSettings { proxy: None, ap_port: None },
            login_info: (String::new(), String::new()),
        }
    }
}

impl AuthConfig {
    /// The authentication that the given configuration asks for: its session
    /// settings and its login.
    pub fn new(configs: &Configs) -> (config: AuthConfig)
        ensures
            config@.login_info == configs@.login_info,
            config@.session_config == configs.app_config.session_config_spec(),
    {
        AuthConfig {
            session_config: configs.app_config.session_config(),
            login_info: (configs.login_info.0.clone(), configs.login_info.1.clone()),
        }
    }
}

/// What is done about the session before a request.
#[derive(Clone, Copy, Debug, PartialEq, Eq, Structural)]
pub enum SessionAction {
    /// The session is usable: nothing is done.
    Keep,
    /// The session is invalid: a new one is opened and takes its place.
    Renew,
}

/// What is done about a session that is, or is not, invalid.
pub open spec fn session_action(invalid: bool) -> SessionAction {
    if invalid {
        SessionAction::Renew
    } else {
        SessionAction::Keep
    }
}

/// Whether the session is invalid after the action was carried out: a
/// session that was opened anew is valid.
pub open spec fn invalid_after(invalid: bool, action: SessionAction) -> bool {
    match action {
        SessionAction::Keep => invalid,
        SessionAction::Renew => false,
    }
}

/// Decides what is done about the session before a request.
pub fn check_session(invalid: bool) -> (action: SessionAction)
    ensures
        action == session_action(invalid),
{
    if invalid {
        SessionAction::Renew
    } else {
        SessionAction::Keep
    }
}

/// Keeping the session valid is idempotent: once it has been seen to, seeing
/// to it again does nothing.
pub proof fn lemma_session_check_idempotent(invalid: bool)
    ensures
        session_action(invalid_after(invalid, session_action(invalid))) == SessionAction::Keep,
        !invalid ==> session_action(invalid) == SessionAction::Keep,
{
}

/// Seeing to a valid session leaves the token as it is, however often it is
/// done; seeing to an invalid one leaves no token behind.
pub proof fn lemma_token_kept_while_valid(held: Option<Seq<char>>, invalid: bool)
    ensures
        !invalid ==> token_after(held, session_action(invalid)) == held,
        invalid ==> token_after(held, session_action(invalid)) is None,
        token_after(
            token_after(held, session_action(invalid)),
            session_action(invalid_after(invalid, session_action(invalid))),
        ) == token_after(held, session_action(invalid)),
{
}

/// The access token that the client holds for its current session.
///
/// A token belongs to the session that handed it out. When the session is
/// renewed the token is let go, so that the next request fetches one from the
/// new session.
#[derive(Debug, PartialEq, Eq)]
pub struct TokenSource {
    token: Option<String>,
}

impl View for TokenSource {
    type V = Option<Seq<char>>;

    closed spec fn view(&self) -> Option<Seq<char>> {
        self.token.deep_view()
    }
}

/// The token that is held once the session was seen to: none after a
/// renewal, and else the one held before.
pub open spec fn token_after(held: Option<Seq<char>>, action: SessionAction) -> Option<Seq<char>> {
    match action {
        SessionAction::Keep => held,
        SessionAction::Renew => None,
    }
}

impl TokenSource {
    /// A source that holds no token yet.
    pub fn new() -> (source: TokenSource)
        ensures
            source@ is None,
    {
        TokenSource { token: None }
    }

    /// Sees to the session before a request: says whether it must be
    /// renewed, and lets the token go if so. On a valid session this does
    /// nothing.
    pub fn ensure_valid(&mut self, session_invalid: bool) -> (action: SessionAction)
        ensures
            action == session_action(session_invalid),
            final(self)@ == token_after(old(self)@, action),
    {
        let action = check_session(session_invalid);
        match action {
            SessionAction::Keep => {},
            SessionAction::Renew => {
                self.token = None;
            },
        }
        action
    }

    /// Takes the token that the session handed out.
    pub fn store(&mut self, token: String)
        ensures
            final(self)@ == Some(token@),
    {
        self.token = Some(token);
    }

    /// The token to send with the next request; without one the request
    /// fails as unauthenticated.
    pub fn current_token(&self) -> (token: Result<&str, ClientError>)
        ensures
            match token {
                Ok(text) => self@ == Some(text@),
                Err(error) => self@ is None && error == ClientError::Auth,
            },
    {
        match &self.token {
            Some(token) => Ok(token.as_str()),
            None => Err(ClientError::Auth),
        }
    }
}

/// How a new session is opened.
#[derive(Clone, Copy, Debug, PartialEq, Eq, Structural)]
pub enum SessionPlan {
    /// Connect with the credentials that an earlier session left behind.
    UseCached,
    /// Connect with the login of the user.
    Authenticate,
    /// Connect with nothing: there are no credentials, and asking for the
    /// login was not allowed.
    Refuse,
}

/// How a new session is opened, given whether credentials are cached and
/// whether the user may be authenticated anew.
pub open spec fn session_plan(cached: bool, reauth: bool) -> SessionPlan {
    if cached {
        SessionPlan::UseCached
    } else if reauth {
        SessionPlan::Authenticate
    } else {
        SessionPlan::Refuse
    }
}

/// Decides how a new session is opened.
pub fn new_session(cached: bool, reauth: bool) -> (plan: SessionPlan)
    ensures
        plan == session_plan(cached, reauth),
{
    if cached {
        SessionPlan::UseCached
    } else if reauth {
        SessionPlan::Authenticate
    } else {
        SessionPlan::Refuse
    }
}

/// Why an attempt to connect failed.
#[derive(Clone, Copy, Debug, PartialEq, Eq, Structural)]
pub enum ConnectFailure {
    /// The service did not accept the credentials.
    Authentication,
    /// The service could not be reached.
    Io,
}

/// What the outcome of a plan amounts to for the operation that needed the
/// session: a refusal and rejected credentials are failures of
/// authentication, an unreachable service is one of transport.
pub open spec fn session_outcome(plan: SessionPlan, failure: Option<ConnectFailure>) -> Result<
    (),
    ClientError,
> {
    match plan {
        SessionPlan::Refuse => Err(ClientError::Auth),
        _ => match failure {
            None => Ok(()),
            Some(ConnectFailure::Authentication) => Err(ClientError::Auth),
            Some(ConnectFailure::Io) => Err(ClientError::Transport),
        },
    }
}

/// Says what the outcome of a plan amounts to.
pub fn conclude_session(plan: SessionPlan, failure: Option<ConnectFailure>) -> (outcome: Result<
    (),
    ClientError,
>)
    ensures
        outcome == session_outcome(plan, failure),
{
    match plan {
        SessionPlan::Refuse => Err(ClientError::Auth),
        _ => match failure {
            None => Ok(()),
            Some(ConnectFailure::Authentication) => Err(ClientError::Auth),
            Some(ConnectFailure::Io) => Err(ClientError::Transport),
        },
    }
}

} // verus!
