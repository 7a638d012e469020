//! The session manager: the one stored credential, its acquisition through
//! the redirect listener and the token exchange, and its verification.
//!
//! Network calls are made by the caller; their outcomes come back here as
//! plain values, and each method says what it does for every one of them.
use vstd::prelude::*;
use crate::exchange::{is_success, is_success_status, json_string_at, json_string_field, ExchangeError};
use crate::listener::{AuthorizationResult, REDIRECT_URI};
use crate::models::{opt_string_view, strings_view, AppConfig, AppConfigModel, AuthStatus};
use crate::text::{url_encode, url_encoded};

verus! {

pub const AUTHORIZE_ENDPOINT: &'static str = "https://github.com/login/oauth/authorize";

/// The scopes requested, separated by spaces.
pub const OAUTH_SCOPE: &'static str = "repo read:user read:org";

/// The URL the user's browser is sent to in order to grant access.
pub open spec fn authorization_url(client_id: Seq<char>) -> Seq<char> {
    AUTHORIZE_ENDPOINT@ + "?client_id="@ + client_id + "&redirect_uri="@ + url_encoded(
        REDIRECT_URI@,
    ) + "&scope="@ + url_encoded(OAUTH_SCOPE@)
}

/// Builds the authorization URL for `client_id`.
pub fn start_oauth_flow(client_id: &str) -> (r: String)
    ensures
        r@ == authorization_url(client_id@),
{
    let mut url = String::from_str(AUTHORIZE_ENDPOINT);
    url.append("?client_id=");
    url.append(client_id);
    url.append("&redirect_uri=");
    let redirect = url_encode(REDIRECT_URI);
    url.append(redirect.as_str());
    url.append("&scope=");
    let scope = url_encode(OAUTH_SCOPE);
    url.append(scope.as_str());
    url
}

/// Placeholder client id that marks a build without real credentials.
pub const DEFAULT_CLIENT_ID: &'static str = "REPLACE_WITH_YOUR_CLIENT_ID";

/// Placeholder client secret that marks a build without real credentials.
pub const DEFAULT_CLIENT_SECRET: &'static str = "REPLACE_WITH_YOUR_CLIENT_SECRET";

/// Which client credential to use: the one compiled in unless it is the
/// placeholder, else the one from the running environment, else the
/// placeholder.
pub open spec fn chosen_credential(compiled: Option<Seq<char>>, runtime: Option<Seq<char>>, placeholder: Seq<char>) -> Seq<char> {
    match compiled {
        Some(c) if c != placeholder => c,
        _ => match runtime {
            Some(r) => r,
            None => placeholder,
        },
    }
}

/// Picks the client credential (id or secret) to present to the provider.
pub fn choose_credential(compiled: Option<&str>, runtime: Option<String>, placeholder: &str) -> (r: String)
    ensures
        r@ == chosen_credential(
            match compiled {
                Some(c) => Some(c@),
                None => None,
            },
            opt_string_view(runtime),
            placeholder@,
        ),
{
    if let Some(c) = compiled {
        let c = String::from_str(c);
        let p = String::from_str(placeholder);
        if !(c == p) {
            return c;
        }
    }
    match runtime {
        Some(r) => r,
        None => String::from_str(placeholder),
    }
}

/// Why an authentication operation did not succeed.
#[derive(Clone, Debug, PartialEq, Eq)]
pub enum AuthError {
    /// The redirect listener could not bind its port.
    PortUnavailable(String),
    /// Another acquisition is under way.
    AcquisitionInProgress,
    /// The provider reported this error instead of a code.
    Denied(String),
    TimedOut,
    Cancelled,
    Exchange(ExchangeError),
    /// The identity check rejected the token (or could not be made).
    InvalidToken,
    /// The identity check accepted the token but its body could not be read.
    UnreadableIdentity(String),
    /// No credential is stored.
    NotAuthenticated,
}

/// A stored credential.
#[derive(Clone, Debug, PartialEq, Eq)]
pub struct Session {
    pub access_token: String,
    pub obtained_at_ms: u64,
}

/// The answer to an authenticated "who am I" call.
#[derive(Clone, Debug, PartialEq, Eq)]
pub enum IdentityResponse {
    /// The call did not get through.
    Transport(String),
    Reply { status: u16, body: String },
}

pub enum IdentityResponseModel {
    Transport(Seq<char>),
    Reply { status: u16, body: Seq<char> },
}

impl View for IdentityResponse {
    type V = IdentityResponseModel;

    open spec fn view(&self) -> IdentityResponseModel {
        match self {
            IdentityResponse::Transport(m) => IdentityResponseModel::Transport(m@),
            IdentityResponse::Reply { status, body } => IdentityResponseModel::Reply {
                status: *status,
                body: body@,
            },
        }
    }
}

/// Whether a response says the token is valid: a 2xx reply.
pub open spec fn accepts(r: IdentityResponseModel) -> bool {
    r matches IdentityResponseModel::Reply { status, .. } && is_success(status)
}

/// What an identity check comes to.
pub enum IdentityOutcome {
    SignedOut,
    SignedIn(Seq<char>),
    /// The token was accepted but the body did not name a user.
    Unreadable(Seq<char>),
}

pub struct SessionModel {
    pub config: AppConfigModel,
    pub obtained_at_ms: Option<u64>,
    pub acquiring: bool,
}

/// Owner of the stored credential and the preferences that depend on it.
pub struct SessionManager {
    pub config: AppConfig,
    pub obtained_at_ms: Option<u64>,
    /// Whether an acquisition attempt holds the redirect listener.
    pub acquiring: bool,
}

impl View for SessionManager {
    type V = SessionModel;

    open spec fn view(&self) -> SessionModel {
        SessionModel {
            config: self.config@,
            obtained_at_ms: self.obtained_at_ms,
            acquiring: self.acquiring,
        }
    }
}

/// The model with the credential removed.
pub open spec fn signed_out(m: SessionModel) -> SessionModel {
    SessionModel {
        config: AppConfigModel { access_token: None, ..m.config },
        obtained_at_ms: None,
        ..m
    }
}

/// The login the body of an identity reply names, as serde_json reads it.
pub open spec fn login_in(r: IdentityResponseModel) -> Option<Seq<char>> {
    match r {
        IdentityResponseModel::Reply { body, .. } => json_string_at(body, "login"@),
        IdentityResponseModel::Transport(_) => None,
    }
}

/// An identity check decided from the provider's answer and the login read
/// from it: the next model and the outcome. Without a session nothing is
/// asked; a rejected token is dropped.
pub open spec fn identity_decision(m: SessionModel, r: IdentityResponseModel, login: Option<Seq<char>>) -> (SessionModel, IdentityOutcome) {
    if m.config.access_token is None {
        (m, IdentityOutcome::SignedOut)
    } else if !accepts(r) {
        (signed_out(m), IdentityOutcome::SignedOut)
    } else {
        match login {
            Some(l) => (m, IdentityOutcome::SignedIn(l)),
            None => (m, IdentityOutcome::Unreadable(r->Reply_body)),
        }
    }
}

/// One identity check against the stored session.
pub open spec fn identity_step(m: SessionModel, r: IdentityResponseModel) -> (SessionModel, IdentityOutcome) {
    identity_decision(m, r, login_in(r))
}

/// Whether an identity result is the one an outcome describes.
pub open spec fn identity_result_is(r: Result<Option<String>, AuthError>, o: IdentityOutcome) -> bool {
    match o {
        IdentityOutcome::SignedOut => r matches Ok(None),
        IdentityOutcome::SignedIn(l) => r matches Ok(Some(x)) && x@ == l,
        IdentityOutcome::Unreadable(b) => r matches Err(AuthError::UnreadableIdentity(x)) && x@ == b,
    }
}

/// Checking the identity twice with no session change in between, against
/// the same provider answer, gives the same result both times, and the second
/// check changes nothing.
pub proof fn lemma_identity_check_idempotent(m: SessionModel, r: IdentityResponseModel)
    ensures
        ({
            let (m1, o1) = identity_step(m, r);
            let (m2, o2) = identity_step(m1, r);
            &&& m2 == m1
            &&& o2 == o1
        }),
{
}

/// The model with the acquisition flag set to `b`.
pub open spec fn with_acquiring(m: SessionModel, b: bool) -> SessionModel {
    SessionModel { acquiring: b, ..m }
}

/// The model with `token` stored as the session, obtained at `at`.
pub open spec fn with_token(m: SessionModel, token: Seq<char>, at: u64) -> SessionModel {
    SessionModel {
        config: AppConfigModel { access_token: Some(token), ..m.config },
        obtained_at_ms: Some(at),
        ..m
    }
}

/// The model with the repository selection replaced.
pub open spec fn with_selection(m: SessionModel, repos: Seq<Seq<char>>) -> SessionModel {
    SessionModel { config: AppConfigModel { selected_repos: repos, ..m.config }, ..m }
}

/// The model after signing out: no credential, no selection.
pub open spec fn logged_out(m: SessionModel) -> SessionModel {
    with_selection(signed_out(m), seq![])
}

/// Whether a status is what an identity outcome turns into.
pub open spec fn status_is(r: Result<AuthStatus, AuthError>, o: IdentityOutcome) -> bool {
    match o {
        IdentityOutcome::SignedOut => r matches Ok(s) && !s.authenticated && s.username is None,
        IdentityOutcome::SignedIn(l) => r matches Ok(s) && s.authenticated && opt_string_view(
            s.username,
        ) == Some(l),
        IdentityOutcome::Unreadable(b) => r matches Err(AuthError::UnreadableIdentity(x)) && x@ == b,
    }
}

/// The timestamp a session reports: when it was obtained, or 0 when the
/// credential came from the stored configuration.
pub open spec fn reported_obtained_at(m: SessionModel) -> u64 {
    match m.obtained_at_ms {
        Some(at) => at,
        None => 0,
    }
}

impl SessionManager {
    /// A manager over the loaded configuration, with no acquisition running.
    pub fn new(config: AppConfig) -> (r: SessionManager)
        ensures
            r@.config == config@,
            r@.obtained_at_ms is None,
            !r@.acquiring,
    {
        SessionManager { config, obtained_at_ms: None, acquiring: false }
    }

    /// The stored credential, if any.
    pub fn get_token(&self) -> (r: Option<String>)
        ensures
            opt_string_view(r) == self@.config.access_token,
    {
        self.config.access_token.clone()
    }

    /// The stored session, if any.
    pub fn session(&self) -> (r: Option<Session>)
        ensures
            r is Some <==> self@.config.access_token is Some,
            r matches Some(s) ==> Some(s.access_token@) == self@.config.access_token,
            r matches Some(s) ==> s.obtained_at_ms == reported_obtained_at(self@),
    {
        match &self.config.access_token {
            Some(t) => {
                let obtained_at_ms = match self.obtained_at_ms {
                    Some(at) => at,
                    None => 0,
                };
                Some(Session { access_token: t.clone(), obtained_at_ms })
            },
            None => None,
        }
    }

    /// Claims the redirect listener for a new acquisition attempt.
    pub fn begin_acquisition(&mut self) -> (r: Result<(), AuthError>)
        ensures
            old(self)@.acquiring ==> r == Err::<(), AuthError>(AuthError::AcquisitionInProgress),
            old(self)@.acquiring ==> final(self)@ == old(self)@,
            !old(self)@.acquiring ==> r is Ok,
            !old(self)@.acquiring ==> final(self)@ == with_acquiring(old(self)@, true),
    {
        if self.acquiring {
            return Err(AuthError::AcquisitionInProgress);
        }
        self.acquiring = true;
        Ok(())
    }

    /// The listener could not be bound: the attempt ends with nothing stored.
    pub fn listener_failed(&mut self, reason: String) -> (r: AuthError)
        ensures
            r matches AuthError::PortUnavailable(x) && x@ == reason@,
            final(self)@ == with_acquiring(old(self)@, false),
    {
        self.acquiring = false;
        AuthError::PortUnavailable(reason)
    }

    /// The listener produced its result. A code is handed back for the
    /// exchange (the attempt goes on); anything else ends the attempt with
    /// the matching error and nothing stored.
    pub fn authorization_received(&mut self, result: AuthorizationResult) -> (r: Result<String, AuthError>)
        ensures
            result matches AuthorizationResult::Code(c) ==> r matches Ok(x) && x@ == c@,
            result matches AuthorizationResult::Denied(e) ==> r matches Err(AuthError::Denied(x)) && x@ == e@,
            result is TimedOut ==> r matches Err(AuthError::TimedOut),
            result is Cancelled ==> r matches Err(AuthError::Cancelled),
            result is Code ==> final(self)@ == old(self)@,
            !(result is Code) ==> final(self)@ == with_acquiring(old(self)@, false),
    {
        match result {
            AuthorizationResult::Code(c) => Ok(c),
            AuthorizationResult::Denied(e) => {
                self.acquiring = false;
                Err(AuthError::Denied(e))
            },
            AuthorizationResult::TimedOut => {
                self.acquiring = false;
                Err(AuthError::TimedOut)
            },
            AuthorizationResult::Cancelled => {
                self.acquiring = false;
                Err(AuthError::Cancelled)
            },
        }
    }

    /// The exchange finished: on success the token replaces any stored
    /// session; on failure the prior session is left untouched. Either way
    /// the attempt is over.
    pub fn exchange_finished(&mut self, exchanged: Result<String, ExchangeError>, now_ms: u64) -> (r: Result<Session, AuthError>)
        ensures
            exchanged matches Ok(t) ==> r matches Ok(s) && s.access_token@ == t@ && s.obtained_at_ms == now_ms,
            exchanged matches Ok(t) ==> final(self)@ == with_acquiring(with_token(old(self)@, t@, now_ms), false),
            exchanged matches Err(e) ==> r == Err::<Session, AuthError>(AuthError::Exchange(e)),
            exchanged is Err ==> final(self)@ == with_acquiring(old(self)@, false),
    {
        self.acquiring = false;
        match exchanged {
            Ok(t) => {
                let session = Session { access_token: t.clone(), obtained_at_ms: now_ms };
                self.config.access_token = Some(t);
                self.obtained_at_ms = Some(now_ms);
                Ok(session)
            },
            Err(e) => Err(AuthError::Exchange(e)),
        }
    }

    /// Stores a user-supplied token once the identity check accepted it; a
    /// rejected or failed check stores nothing.
    pub fn set_token(&mut self, token: String, check: IdentityResponse, now_ms: u64) -> (r: Result<(), AuthError>)
        ensures
            accepts(check@) ==> r is Ok,
            accepts(check@) ==> final(self)@ == with_token(old(self)@, token@, now_ms),
            !accepts(check@) ==> r == Err::<(), AuthError>(AuthError::InvalidToken),
            !accepts(check@) ==> final(self)@ == old(self)@,
    {
        let accepted = match check {
            IdentityResponse::Reply { status, body: _ } => is_success_status(status),
            IdentityResponse::Transport(_) => false,
        };
        if !accepted {
            return Err(AuthError::InvalidToken);
        }
        self.config.access_token = Some(token);
        self.obtained_at_ms = Some(now_ms);
        Ok(())
    }

    /// Decides an identity check from the provider's answer and the login
    /// read from its body (`None`: the body names no user).
    pub fn identity_from(&mut self, response: IdentityResponse, login: Option<String>) -> (r: Result<Option<String>, AuthError>)
        ensures
            final(self)@ == identity_decision(old(self)@, response@, opt_string_view(login)).0,
            identity_result_is(r, identity_decision(old(self)@, response@, opt_string_view(login)).1),
    {
        if self.config.access_token.is_none() {
            return Ok(None);
        }
        match response {
            IdentityResponse::Reply { status, body } => {
                if !is_success_status(status) {
                    self.config.access_token = None;
                    self.obtained_at_ms = None;
                    return Ok(None);
                }
                match login {
                    Some(login) => Ok(Some(login)),
                    None => Err(AuthError::UnreadableIdentity(body)),
                }
            },
            IdentityResponse::Transport(_) => {
                self.config.access_token = None;
                self.obtained_at_ms = None;
                Ok(None)
            },
        }
    }

    /// Verifies the stored session against the provider's answer to the
    /// identity call: the user's login, or `None` when signed out. A rejected
    /// token is cleared and degrades to `None` rather than to an error.
    pub fn current_identity(&mut self, response: IdentityResponse) -> (r: Result<Option<String>, AuthError>)
        ensures
            final(self)@ == identity_step(old(self)@, response@).0,
            identity_result_is(r, identity_step(old(self)@, response@).1),
    {
        let login = match &response {
            IdentityResponse::Reply { status: _, body } => json_string_field(body.as_str(), "login"),
            IdentityResponse::Transport(_) => None,
        };
        self.identity_from(response, login)
    }

    /// The identity check as a sign-in status.
    pub fn get_auth_status(&mut self, response: IdentityResponse) -> (r: Result<AuthStatus, AuthError>)
        ensures
            final(self)@ == identity_step(old(self)@, response@).0,
            status_is(r, identity_step(old(self)@, response@).1),
    {
        match self.current_identity(response) {
            Ok(Some(login)) => Ok(AuthStatus { authenticated: true, username: Some(login) }),
            Ok(None) => Ok(AuthStatus { authenticated: false, username: None }),
            Err(e) => Err(e),
        }
    }

    /// Signs out: drops the credential and the repository selection, which
    /// only makes sense under a session.
    pub fn logout(&mut self)
        ensures
            final(self)@ == logged_out(old(self)@),
    {
        self.config.access_token = None;
        self.config.selected_repos = Vec::new();
        self.obtained_at_ms = None;
        assert(strings_view(self.config.selected_repos@) =~= seq![]);
    }

    /// Replaces the repository selection.
    pub fn set_selected_repos(&mut self, repos: Vec<String>)
        ensures
            final(self)@ == with_selection(old(self)@, strings_view(repos@)),
    {
        self.config.selected_repos = repos;
    }

    /// The repository selection.
    pub fn get_selected_repos(&self) -> (r: Vec<String>)
        ensures
            strings_view(r@) == self@.config.selected_repos,
    {
        self.config.selected_repos.clone()
    }

    /// The stored token, or `NotAuthenticated`.
    pub fn require_token(&self) -> (r: Result<String, AuthError>)
        ensures
            self@.config.access_token matches Some(t) ==> r matches Ok(x) && x@ == t,
            self@.config.access_token is None ==> r matches Err(AuthError::NotAuthenticated),
    {
        match &self.config.access_token {
            Some(t) => Ok(t.clone()),
            None => Err(AuthError::NotAuthenticated),
        }
    }
}

} // verus!
