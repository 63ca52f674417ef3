//! The conversation with Rancher that authenticates one request.
//!
//! Two documents are fetched, one after the other: the list of users that the token stands for,
//! whose first entry is the user, and the list of that user's global role bindings. `AuthSession`
//! holds where the conversation stands. It does no input or output itself: `AuthAction` says what
//! is to be done next, and `AuthEvent` tells what came of it.
use crate::rancher_auth;
use crate::rancher_auth::{
    AuthContext, AuthContextView, AuthError, AuthErrorView, GlobalRoleBinding, RancherCollection,
    RancherUser, RancherUserView,
};
use crate::web;
use vstd::prelude::*;
use vstd::string::*;

verus! {

// ---------------------------------------------------------------------------
// What is fetched, and what failures are called
// ---------------------------------------------------------------------------

/// Where Rancher lists the users that a token stands for.
pub open spec fn users_url(rancher_url: Seq<char>) -> Seq<char> {
    rancher_url + "/v3/users?me"@
}

/// Where Rancher lists the global role bindings of a user.
pub open spec fn bindings_url(rancher_url: Seq<char>, user_id: Seq<char>) -> Seq<char> {
    rancher_url + "/v3/globalRoleBindings?userId="@ + user_id
}

/// The request got no response.
pub open spec fn unreachable_error(url: Seq<char>, detail: Seq<char>) -> AuthErrorView {
    AuthErrorView::RancherUnreachable(url + ": "@ + detail)
}

/// The response was not one of success.
pub open spec fn refused_error(url: Seq<char>, status: u16, body: Seq<char>) -> AuthErrorView {
    AuthErrorView::InvalidToken(
        "Rancher returned "@ + web::status_in_print(status) + " for "@ + url + ". Body: "@ + body,
    )
}

/// The response was one of success, and its body was not the document asked for.
pub open spec fn unparsed_error(url: Seq<char>, detail: Seq<char>) -> AuthErrorView {
    AuthErrorView::BadGateway("failed to parse "@ + url + ": "@ + detail)
}

/// The name by which a user is known.
pub open spec fn username_of(user: RancherUserView) -> Seq<char> {
    match user.username {
        Some(name) => name,
        None => "unknown"@,
    }
}

/// The end of the conversation: the user passes if one of the bindings is to the required role.
pub open spec fn verdict(
    required_role: Seq<char>,
    username: Seq<char>,
    roles: Seq<Seq<char>>,
) -> Result<AuthContextView, AuthErrorView> {
    if roles.contains(required_role) {
        Ok(AuthContextView { display_name: username, roles })
    } else {
        Err(AuthErrorView::Forbidden { username, required_role, actual_roles: roles })
    }
}

/// Writes where Rancher lists the users that a token stands for.
fn make_users_url(rancher_url: &str) -> (r: String)
    ensures
        r@ == users_url(rancher_url@),
        r@ == rancher_url@ + "/v3/users?me"@,
{
    rancher_url.to_owned().concat("/v3/users?me")
}

/// Writes where Rancher lists the global role bindings of a user.
fn make_bindings_url(rancher_url: &str, user_id: &str) -> (r: String)
    ensures
        r@ == bindings_url(rancher_url@, user_id@),
        r@ == rancher_url@ + "/v3/globalRoleBindings?userId="@ + user_id@,
{
    rancher_url.to_owned().concat("/v3/globalRoleBindings?userId=").concat(user_id)
}

/// The error for a request that got no response.
fn make_unreachable_error(url: &str, detail: &str) -> (r: AuthError)
    ensures
        r@ == unreachable_error(url@, detail@),
{
    AuthError::RancherUnreachable(url.to_owned().concat(": ").concat(detail))
}

/// The error for a response that was not one of success.
fn make_refused_error(url: &str, status: u16, body: &str) -> (r: AuthError)
    requires
        web::is_status(status),
    ensures
        r@ == refused_error(url@, status, body@),
{
    let mut detail: String = "Rancher returned ".to_owned();
    detail.append(web::status_text(status).as_str());
    detail.append(" for ");
    detail.append(url);
    detail.append(". Body: ");
    detail.append(body);
    AuthError::InvalidToken(detail)
}

/// The error for a body that was not the document asked for.
fn make_unparsed_error(url: &str, detail: &str) -> (r: AuthError)
    ensures
        r@ == unparsed_error(url@, detail@),
{
    AuthError::BadGateway("failed to parse ".to_owned().concat(url).concat(": ").concat(detail))
}

// ---------------------------------------------------------------------------
// States, events and actions
// ---------------------------------------------------------------------------

/// Which document the conversation is about.
#[derive(Debug, PartialEq, Eq)]
enum Phase {
    Identifying,
    Checking { username: String, user_id: String },
    Finished,
}

/// How far the exchange over one document has come.
#[derive(Debug, Clone, Copy, PartialEq, Eq)]
pub enum Exchange {
    /// The request was handed out.
    Sending,
    /// The server refused; its explanation is being read.
    ReadingRefusal { status: u16 },
    /// The server agreed; the document is being read.
    ReadingDocument,
}

/// A conversation with Rancher over one request.
#[derive(Debug, PartialEq, Eq)]
pub struct AuthSession {
    required_role: String,
    token: String,
    rancher_url: String,
    phase: Phase,
    exchange: Exchange,
}

/// What came of an action.
#[derive(Debug, PartialEq, Eq)]
pub enum AuthEvent {
    /// The request got no response, for the reason given.
    Unreachable(String),
    /// A response came, with this status code.
    Status(u16),
    /// The body, read as text.
    Text(String),
    /// The body could not be read as text.
    Unread,
    /// The body, read as a list of users.
    Users(RancherCollection<RancherUser>),
    /// The body, read as a list of bindings.
    Bindings(RancherCollection<GlobalRoleBinding>),
    /// The body could not be read as the document asked for, for the reason given.
    Unparsed(String),
}

/// What is to be done next.
#[derive(Debug, PartialEq, Eq)]
pub enum AuthAction {
    /// Send a GET request with the token as bearer.
    Get { url: String, token: String },
    /// Read the body of the response as text.
    ReadText,
    /// Read the body of the response as a list of users.
    ReadUsers,
    /// Read the body of the response as a list of bindings.
    ReadBindings,
    /// The conversation is over, with this outcome.
    Finish(Result<AuthContext, AuthError>),
}

/// `Phase` over sequences of characters.
pub enum PhaseView {
    Identifying,
    Checking { username: Seq<char>, user_id: Seq<char> },
    Finished,
}

/// `AuthSession` over sequences of characters.
pub struct AuthSessionView {
    pub required_role: Seq<char>,
    pub token: Seq<char>,
    pub rancher_url: Seq<char>,
    pub phase: PhaseView,
    pub exchange: Exchange,
}

/// `AuthEvent` over sequences of characters.
pub enum AuthEventView {
    Unreachable(Seq<char>),
    Status(u16),
    Text(Seq<char>),
    Unread,
    Users(Seq<RancherUserView>),
    Bindings(Seq<Seq<char>>),
    Unparsed(Seq<char>),
}

/// `AuthAction` over sequences of characters.
pub enum AuthActionView {
    Get { url: Seq<char>, token: Seq<char> },
    ReadText,
    ReadUsers,
    ReadBindings,
    Finish(Result<AuthContextView, AuthErrorView>),
}

impl View for Phase {
    type V = PhaseView;

    closed spec fn view(&self) -> PhaseView {
        match *self {
            Phase::Identifying => PhaseView::Identifying,
            Phase::Checking { username, user_id } => PhaseView::Checking {
                username: username@,
                user_id: user_id@,
            },
            Phase::Finished => PhaseView::Finished,
        }
    }
}

impl View for AuthSession {
    type V = AuthSessionView;

    closed spec fn view(&self) -> AuthSessionView {
        AuthSessionView {
            required_role: self.required_role@,
            token: self.token@,
            rancher_url: self.rancher_url@,
            phase: self.phase@,
            exchange: self.exchange,
        }
    }
}

impl View for AuthEvent {
    type V = AuthEventView;

    open spec fn view(&self) -> AuthEventView {
        match *self {
            AuthEvent::Unreachable(detail) => AuthEventView::Unreachable(detail@),
            AuthEvent::Status(status) => AuthEventView::Status(status),
            AuthEvent::Text(body) => AuthEventView::Text(body@),
            AuthEvent::Unread => AuthEventView::Unread,
            AuthEvent::Users(users) => AuthEventView::Users(users.data.deep_view()),
            AuthEvent::Bindings(bindings) => AuthEventView::Bindings(bindings.data.deep_view()),
            AuthEvent::Unparsed(detail) => AuthEventView::Unparsed(detail@),
        }
    }
}

/// An outcome over sequences of characters.
pub open spec fn outcome_view(outcome: Result<AuthContext, AuthError>) -> Result<
    AuthContextView,
    AuthErrorView,
> {
    match outcome {
        Ok(context) => Ok(context@),
        Err(error) => Err(error@),
    }
}

impl View for AuthAction {
    type V = AuthActionView;

    open spec fn view(&self) -> AuthActionView {
        match *self {
            AuthAction::Get { url, token } => AuthActionView::Get { url: url@, token: token@ },
            AuthAction::ReadText => AuthActionView::ReadText,
            AuthAction::ReadUsers => AuthActionView::ReadUsers,
            AuthAction::ReadBindings => AuthActionView::ReadBindings,
            AuthAction::Finish(outcome) => AuthActionView::Finish(outcome_view(outcome)),
        }
    }
}

// ---------------------------------------------------------------------------
// Transitions
// ---------------------------------------------------------------------------

impl AuthSessionView {
    /// A conversation before anything was sent.
    pub open spec fn started(
        required_role: Seq<char>,
        token: Seq<char>,
        rancher_url: Seq<char>,
    ) -> AuthSessionView {
        AuthSessionView {
            required_role,
            token,
            rancher_url,
            phase: PhaseView::Identifying,
            exchange: Exchange::Sending,
        }
    }

    /// Where the document is that the conversation is about.
    pub open spec fn url(self) -> Seq<char> {
        match self.phase {
            PhaseView::Checking { user_id, .. } => bindings_url(self.rancher_url, user_id),
            _ => users_url(self.rancher_url),
        }
    }

    /// The action that the conversation waits on.
    pub open spec fn pending(self) -> AuthActionView {
        match self.exchange {
            Exchange::Sending => AuthActionView::Get { url: self.url(), token: self.token },
            Exchange::ReadingRefusal { .. } => AuthActionView::ReadText,
            Exchange::ReadingDocument => match self.phase {
                PhaseView::Checking { .. } => AuthActionView::ReadBindings,
                _ => AuthActionView::ReadUsers,
            },
        }
    }

    /// The event can come of the action that the conversation waits on.
    pub open spec fn expects(self, event: AuthEventView) -> bool {
        &&& !(self.phase is Finished)
        &&& match self.exchange {
            Exchange::Sending => match event {
                AuthEventView::Unreachable(_) => true,
                AuthEventView::Status(status) => web::is_status(status),
                _ => false,
            },
            Exchange::ReadingRefusal { .. } => event is Text || event is Unread,
            Exchange::ReadingDocument => match event {
                AuthEventView::Users(_) => self.phase is Identifying,
                AuthEventView::Bindings(_) => self.phase is Checking,
                AuthEventView::Unparsed(_) => true,
                _ => false,
            },
        }
    }

    /// The conversation, over.
    pub open spec fn finished(self) -> AuthSessionView {
        AuthSessionView { phase: PhaseView::Finished, ..self }
    }

    /// The conversation at another point of the same exchange.
    pub open spec fn at(self, exchange: Exchange) -> AuthSessionView {
        AuthSessionView { exchange, ..self }
    }

    /// The conversation once the user is known, about to ask for the bindings.
    pub open spec fn identified(self, user: RancherUserView) -> AuthSessionView {
        AuthSessionView {
            phase: PhaseView::Checking { username: username_of(user), user_id: user.id },
            exchange: Exchange::Sending,
            ..self
        }
    }

    /// Where the conversation stands after an event that it expects, and what is to be done then.
    pub open spec fn after(self, event: AuthEventView) -> (AuthSessionView, AuthActionView) {
        match event {
            AuthEventView::Unreachable(detail) => (
                self.finished(),
                AuthActionView::Finish(Err(unreachable_error(self.url(), detail))),
            ),
            AuthEventView::Status(status) => {
                let next = if web::success_status(status) {
                    self.at(Exchange::ReadingDocument)
                } else {
                    self.at(Exchange::ReadingRefusal { status })
                };
                (next, next.pending())
            },
            AuthEventView::Text(body) => (
                self.finished(),
                AuthActionView::Finish(
                    Err(refused_error(self.url(), self.exchange->status, body)),
                ),
            ),
            AuthEventView::Unread => (
                self.finished(),
                AuthActionView::Finish(Err(refused_error(self.url(), self.exchange->status, ""@))),
            ),
            AuthEventView::Unparsed(detail) => (
                self.finished(),
                AuthActionView::Finish(Err(unparsed_error(self.url(), detail))),
            ),
            AuthEventView::Users(users) => if users.len() == 0 {
                (
                    self.finished(),
                    AuthActionView::Finish(Err(AuthErrorView::InvalidToken("empty user list"@))),
                )
            } else {
                let next = self.identified(users[0]);
                (next, next.pending())
            },
            AuthEventView::Bindings(roles) => (
                self.finished(),
                AuthActionView::Finish(
                    verdict(self.required_role, self.phase->username, roles),
                ),
            ),
        }
    }
}

impl AuthSession {
    /// A status code that the conversation remembers is one, and not one of success.
    #[verifier::type_invariant]
    spec fn inv(self) -> bool {
        self.exchange matches Exchange::ReadingRefusal { status } ==> web::is_status(status)
            && !web::success_status(status)
    }

    /// Starts a conversation. The first action is to ask who the user is.
    pub fn start(required_role: String, token: String, rancher_url: String) -> (r: (
        AuthSession,
        AuthAction,
    ))
        ensures
            r.0@ == AuthSessionView::started(required_role@, token@, rancher_url@),
            r.1@ == r.0@.pending(),
            r.1 is Get,
            r.1->url@ == rancher_url@ + "/v3/users?me"@,
            r.1->token@ == token@,
    {
        let action: AuthAction = AuthAction::Get {
            url: make_users_url(rancher_url.as_str()),
            token: token.clone(),
        };
        let session: AuthSession = AuthSession {
            required_role,
            token,
            rancher_url,
            phase: Phase::Identifying,
            exchange: Exchange::Sending,
        };
        (session, action)
    }

    /// Whether the event can come of the action that the conversation waits on.
    pub fn expects(&self, event: &AuthEvent) -> (r: bool)
        ensures
            r == self@.expects(event@),
    {
        let identifying: bool = matches!(self.phase, Phase::Identifying);
        let checking: bool = matches!(self.phase, Phase::Checking { .. });
        (identifying || checking) && match self.exchange {
            Exchange::Sending => match event {
                AuthEvent::Unreachable(_) => true,
                AuthEvent::Status(status) => 100 <= *status && *status <= 999,
                _ => false,
            },
            Exchange::ReadingRefusal { .. } => match event {
                AuthEvent::Text(_) => true,
                AuthEvent::Unread => true,
                _ => false,
            },
            Exchange::ReadingDocument => match event {
                AuthEvent::Users(_) => identifying,
                AuthEvent::Bindings(_) => checking,
                AuthEvent::Unparsed(_) => true,
                _ => false,
            },
        }
    }

    /// Where the document is that the conversation is about.
    fn url(&self) -> (r: String)
        ensures
            r@ == self@.url(),
    {
        match &self.phase {
            Phase::Checking { user_id, .. } => make_bindings_url(
                self.rancher_url.as_str(),
                user_id.as_str(),
            ),
            _ => make_users_url(self.rancher_url.as_str()),
        }
    }

    /// The error for the refusal that the conversation is reading, explained by `body`.
    fn refused(&self, url: &str, body: &str) -> (r: AuthError)
        requires
            self@.exchange is ReadingRefusal,
        ensures
            r@ == refused_error(url@, self@.exchange->status, body@),
    {
        proof {
            use_type_invariant(self);
        }
        match self.exchange {
            Exchange::ReadingRefusal { status } => make_refused_error(url, status, body),
            _ => vstd::pervasive::unreached(),
        }
    }

    /// The address of the Rancher server.
    pub fn rancher_url(&self) -> (r: &String)
        ensures
            r@ == self@.rancher_url,
    {
        &self.rancher_url
    }

    /// The name and the id of the user, while the user's bindings are being asked for.
    pub fn user(&self) -> (r: Option<(&String, &String)>)
        ensures
            r is Some <==> self@.phase is Checking,
            r matches Some(user) ==> self@.phase == (PhaseView::Checking {
                username: user.0@,
                user_id: user.1@,
            }),
    {
        match &self.phase {
            Phase::Checking { username, user_id } => Some((username, user_id)),
            _ => None,
        }
    }

    /// Ends the conversation.
    fn finish(self, outcome: Result<AuthContext, AuthError>) -> (r: (AuthSession, AuthAction))
        ensures
            r.0@ == self@.finished(),
            r.1@ == AuthActionView::Finish(outcome_view(outcome)),
    {
        proof {
            use_type_invariant(&self);
        }
        let mut session: AuthSession = self;
        session.phase = Phase::Finished;
        (session, AuthAction::Finish(outcome))
    }

    /// Takes the event in and says what is to be done next.
    pub fn step(self, event: AuthEvent) -> (r: (AuthSession, AuthAction))
        requires
            self@.expects(event@),
        ensures
            (r.0@, r.1@) == self@.after(event@),
    {
        proof {
            use_type_invariant(&self);
        }
        let url: String = self.url();
        let mut session: AuthSession = self;
        match event {
            AuthEvent::Unreachable(detail) => {
                let error: AuthError = make_unreachable_error(url.as_str(), detail.as_str());
                session.finish(Err(error))
            },
            AuthEvent::Status(status) => {
                if web::is_success(status) {
                    session.exchange = Exchange::ReadingDocument;
                    let action: AuthAction = match &session.phase {
                        Phase::Checking { .. } => AuthAction::ReadBindings,
                        _ => AuthAction::ReadUsers,
                    };
                    (session, action)
                } else {
                    session.exchange = Exchange::ReadingRefusal { status };
                    (session, AuthAction::ReadText)
                }
            },
            AuthEvent::Text(body) => {
                let error: AuthError = session.refused(url.as_str(), body.as_str());
                session.finish(Err(error))
            },
            AuthEvent::Unread => {
                let error: AuthError = session.refused(url.as_str(), "");
                session.finish(Err(error))
            },
            AuthEvent::Unparsed(detail) => {
                let error: AuthError = make_unparsed_error(url.as_str(), detail.as_str());
                session.finish(Err(error))
            },
            AuthEvent::Users(users) => {
                if users.data.len() == 0 {
                    session.finish(Err(AuthError::InvalidToken("empty user list".to_owned())))
                } else {
                    assert(users.data.deep_view()[0] == users.data[0].deep_view());
                    let user_id: String = users.data[0].id.clone();
                    let username: String = match &users.data[0].username {
                        Some(name) => name.clone(),
                        None => "unknown".to_owned(),
                    };
                    let action: AuthAction = AuthAction::Get {
                        url: make_bindings_url(session.rancher_url.as_str(), user_id.as_str()),
                        token: session.token.clone(),
                    };
                    session.phase = Phase::Checking { username, user_id };
                    session.exchange = Exchange::Sending;
                    (session, action)
                }
            },
            AuthEvent::Bindings(bindings) => {
                let roles: Vec<String> = rancher_auth::role_ids(&bindings.data);
                let username: String = match &session.phase {
                    Phase::Checking { username, .. } => username.clone(),
                    _ => vstd::pervasive::unreached(),
                };
                let outcome: Result<AuthContext, AuthError> = if rancher_auth::holds_role(
                    &roles,
                    &session.required_role,
                ) {
                    Ok(AuthContext { display_name: username, roles })
                } else {
                    Err(
                        AuthError::Forbidden {
                            username,
                            required_role: session.required_role.clone(),
                            actual_roles: roles,
                        },
                    )
                };
                session.finish(outcome)
            },
        }
    }
}

// ---------------------------------------------------------------------------
// The conversation as a whole
// ---------------------------------------------------------------------------

/// What came of fetching one document.
pub enum Fetched<T> {
    Unreachable { detail: Seq<char> },
    /// The body is there if it could be read.
    Refused { status: u16, body: Option<Seq<char>> },
    Unparsed { status: u16, detail: Seq<char> },
    Read { status: u16, document: T },
}

impl<T> Fetched<T> {
    /// The status code is one, and says success exactly where the document was tried.
    pub open spec fn possible(self) -> bool {
        match self {
            Fetched::Unreachable { .. } => true,
            Fetched::Refused { status, .. } => web::is_status(status) && !web::success_status(
                status,
            ),
            Fetched::Unparsed { status, .. } => web::success_status(status),
            Fetched::Read { status, .. } => web::success_status(status),
        }
    }
}

/// The document that was fetched from `url`, or what its failing is called.
pub open spec fn get_json<T>(url: Seq<char>, fetched: Fetched<T>) -> Result<T, AuthErrorView> {
    match fetched {
        Fetched::Unreachable { detail } => Err(unreachable_error(url, detail)),
        Fetched::Refused { status, body } => Err(
            refused_error(
                url,
                status,
                match body {
                    Some(explanation) => explanation,
                    None => ""@,
                },
            ),
        ),
        Fetched::Unparsed { detail, .. } => Err(unparsed_error(url, detail)),
        Fetched::Read { document, .. } => Ok(document),
    }
}

/// The user that a token stands for: the first that Rancher lists.
pub open spec fn identified_user(
    rancher_url: Seq<char>,
    users: Fetched<Seq<RancherUserView>>,
) -> Result<RancherUserView, AuthErrorView> {
    match get_json(users_url(rancher_url), users) {
        Err(error) => Err(error),
        Ok(list) => if list.len() == 0 {
            Err(AuthErrorView::InvalidToken("empty user list"@))
        } else {
            Ok(list[0])
        },
    }
}

/// The outcome of authenticating against the Rancher server at `rancher_url`, where fetching the
/// list of users and, if it gave a user, the list of bindings came out as given.
pub open spec fn authenticated(
    required_role: Seq<char>,
    rancher_url: Seq<char>,
    users: Fetched<Seq<RancherUserView>>,
    bindings: Fetched<Seq<Seq<char>>>,
) -> Result<AuthContextView, AuthErrorView> {
    match identified_user(rancher_url, users) {
        Err(error) => Err(error),
        Ok(user) => match get_json(bindings_url(rancher_url, user.id), bindings) {
            Err(error) => Err(error),
            Ok(roles) => verdict(required_role, username_of(user), roles),
        },
    }
}

/// The event by which a conversation learns how a refusal was explained.
pub open spec fn refusal_event(body: Option<Seq<char>>) -> AuthEventView {
    match body {
        Some(explanation) => AuthEventView::Text(explanation),
        None => AuthEventView::Unread,
    }
}

/// The events by which a conversation learns what came of fetching the list of users.
pub open spec fn user_events(users: Fetched<Seq<RancherUserView>>) -> Seq<AuthEventView> {
    match users {
        Fetched::Unreachable { detail } => seq![AuthEventView::Unreachable(detail)],
        Fetched::Refused { status, body } => seq![
            AuthEventView::Status(status),
            refusal_event(body),
        ],
        Fetched::Unparsed { status, detail } => seq![
            AuthEventView::Status(status),
            AuthEventView::Unparsed(detail),
        ],
        Fetched::Read { status, document } => seq![
            AuthEventView::Status(status),
            AuthEventView::Users(document),
        ],
    }
}

/// The events by which a conversation learns what came of fetching the list of bindings.
pub open spec fn binding_events(bindings: Fetched<Seq<Seq<char>>>) -> Seq<AuthEventView> {
    match bindings {
        Fetched::Unreachable { detail } => seq![AuthEventView::Unreachable(detail)],
        Fetched::Refused { status, body } => seq![
            AuthEventView::Status(status),
            refusal_event(body),
        ],
        Fetched::Unparsed { status, detail } => seq![
            AuthEventView::Status(status),
            AuthEventView::Unparsed(detail),
        ],
        Fetched::Read { status, document } => seq![
            AuthEventView::Status(status),
            AuthEventView::Bindings(document),
        ],
    }
}

/// From `session` with `action` to do, the events come in this order, each expected when it
/// comes, and leave the conversation at `last_session` with `last_action` to do.
pub open spec fn leads_to(
    session: AuthSessionView,
    action: AuthActionView,
    events: Seq<AuthEventView>,
    last_session: AuthSessionView,
    last_action: AuthActionView,
) -> bool
    decreases events.len(),
{
    if events.len() == 0 {
        last_session == session && last_action == action
    } else {
        &&& session.expects(events[0])
        &&& leads_to(
            session.after(events[0]).0,
            session.after(events[0]).1,
            events.skip(1),
            last_session,
            last_action,
        )
    }
}

/// The conversation comes to the outcome that the two fetches decide. The list of bindings is
/// asked for only where the list of users gave a user.
pub proof fn law_conversation_decides(
    required_role: Seq<char>,
    token: Seq<char>,
    rancher_url: Seq<char>,
    users: Fetched<Seq<RancherUserView>>,
    bindings: Fetched<Seq<Seq<char>>>,
)
    requires
        users.possible(),
        bindings.possible(),
    ensures
        ({
            let start = AuthSessionView::started(required_role, token, rancher_url);
            let outcome = authenticated(required_role, rancher_url, users, bindings);
            match identified_user(rancher_url, users) {
                Err(_) => exists|last: AuthSessionView|
                    last.phase is Finished && #[trigger] leads_to(
                        start,
                        start.pending(),
                        user_events(users),
                        last,
                        AuthActionView::Finish(outcome),
                    ),
                Ok(user) => {
                    &&& leads_to(
                        start,
                        start.pending(),
                        user_events(users),
                        start.at(Exchange::ReadingDocument).identified(user),
                        AuthActionView::Get {
                            url: bindings_url(rancher_url, user.id),
                            token,
                        },
                    )
                    &&& exists|last: AuthSessionView|
                        last.phase is Finished && #[trigger] leads_to(
                            start,
                            start.pending(),
                            user_events(users) + binding_events(bindings),
                            last,
                            AuthActionView::Finish(outcome),
                        )
                },
            }
        }),
{
    let start = AuthSessionView::started(required_role, token, rancher_url);
    let outcome = authenticated(required_role, rancher_url, users, bindings);
    reveal_with_fuel(leads_to, 3);
    let first = user_events(users);
    match identified_user(rancher_url, users) {
        Err(_) => {
            let last = if first.len() == 1 {
                start.after(first[0]).0
            } else {
                start.after(first[0]).0.after(first[1]).0
            };
            assert(leads_to(
                start,
                start.pending(),
                first,
                last,
                AuthActionView::Finish(outcome),
            ));
        },
        Ok(user) => {
            let middle = start.at(Exchange::ReadingDocument).identified(user);
            assert(leads_to(start, start.pending(), first, middle, middle.pending()));
            let second = binding_events(bindings);
            let last = if second.len() == 1 {
                middle.after(second[0]).0
            } else {
                middle.after(second[0]).0.after(second[1]).0
            };
            assert(leads_to(
                middle,
                middle.pending(),
                second,
                last,
                AuthActionView::Finish(outcome),
            ));
            lemma_leads_on(
                start,
                start.pending(),
                first,
                middle,
                middle.pending(),
                second,
                last,
                AuthActionView::Finish(outcome),
            );
        },
    }
}

/// Two stretches of a conversation make one.
proof fn lemma_leads_on(
    session: AuthSessionView,
    action: AuthActionView,
    first: Seq<AuthEventView>,
    middle: AuthSessionView,
    middle_action: AuthActionView,
    second: Seq<AuthEventView>,
    last: AuthSessionView,
    last_action: AuthActionView,
)
    requires
        leads_to(session, action, first, middle, middle_action),
        leads_to(middle, middle_action, second, last, last_action),
    ensures
        leads_to(session, action, first + second, last, last_action),
    decreases first.len(),
{
    if first.len() == 0 {
        assert(first + second == second);
    } else {
        lemma_leads_on(
            session.after(first[0]).0,
            session.after(first[0]).1,
            first.skip(1),
            middle,
            middle_action,
            second,
            last,
            last_action,
        );
        assert((first + second).skip(1) == first.skip(1) + second);
    }
}

/// Nobody passes without the required role, and whoever passes is the first user that Rancher
/// lists, with the roles that Rancher lists for that user.
pub proof fn law_no_pass_without_role(
    required_role: Seq<char>,
    rancher_url: Seq<char>,
    users: Fetched<Seq<RancherUserView>>,
    bindings: Fetched<Seq<Seq<char>>>,
    context: AuthContextView,
)
    requires
        authenticated(required_role, rancher_url, users, bindings) == Ok::<
            AuthContextView,
            AuthErrorView,
        >(context),
    ensures
        context.roles.contains(required_role),
        users is Read,
        users->document.len() > 0,
        context.display_name == username_of(users->document[0]),
        bindings is Read,
        context.roles == bindings->Read_document,
{
}

/// Whoever holds the required role passes, once both documents could be read.
pub proof fn law_role_holder_passes(
    required_role: Seq<char>,
    rancher_url: Seq<char>,
    users: Fetched<Seq<RancherUserView>>,
    bindings: Fetched<Seq<Seq<char>>>,
)
    requires
        users is Read,
        users->document.len() > 0,
        bindings is Read,
        bindings->document.contains(required_role),
    ensures
        authenticated(required_role, rancher_url, users, bindings) == Ok::<
            AuthContextView,
            AuthErrorView,
        >(
            AuthContextView {
                display_name: username_of(users->document[0]),
                roles: bindings->document,
            },
        ),
{
}

/// What a request is answered that does not pass. 403 says that the user lacks the role. 401 says
/// that Rancher did not accept the token, or knows no user by it. 502 says that Rancher could not
/// be reached, or sent something else than the document asked for.
pub proof fn law_refusals_are_told_apart(
    required_role: Seq<char>,
    rancher_url: Seq<char>,
    users: Fetched<Seq<RancherUserView>>,
    bindings: Fetched<Seq<Seq<char>>>,
    error: AuthErrorView,
)
    requires
        authenticated(required_role, rancher_url, users, bindings) == Err::<
            AuthContextView,
            AuthErrorView,
        >(error),
    ensures
        error.status() == 403 <==> {
            &&& users is Read && users->document.len() > 0
            &&& bindings is Read && !bindings->document.contains(required_role)
        },
        error.status() == 401 <==> {
            ||| users is Refused
            ||| users is Read && users->document.len() == 0
            ||| users is Read && bindings is Refused
        },
        error.status() == 502 <==> {
            ||| users is Unreachable || users is Unparsed
            ||| users is Read && users->document.len() > 0 && (bindings is Unreachable
                || bindings is Unparsed)
        },
        error.status() == 401 || error.status() == 403 || error.status() == 502,
{
}

/// How many events are still to come at most.
pub open spec fn events_left(session: AuthSessionView) -> nat {
    let this = if session.exchange is Sending {
        2nat
    } else {
        1nat
    };
    match session.phase {
        PhaseView::Identifying => this + 2,
        PhaseView::Checking { .. } => this,
        PhaseView::Finished => 0,
    }
}

/// The conversation ends after at most four events, and says so: each event leaves fewer to
/// come, and the action is to finish exactly where the conversation is over. Until then the
/// action is the one that the conversation waits on.
pub proof fn law_conversation_ends(session: AuthSessionView, event: AuthEventView)
    requires
        session.expects(event),
    ensures
        events_left(session) <= 4,
        events_left(session.after(event).0) < events_left(session),
        session.after(event).1 is Finish <==> session.after(event).0.phase is Finished,
        !(session.after(event).1 is Finish) ==> session.after(event).1 == session.after(
            event,
        ).0.pending(),
{
}

/// The role, the token and the server never change in the course of a conversation, and the
/// token is sent to nobody but that server.
pub proof fn law_token_goes_to_its_server(session: AuthSessionView, event: AuthEventView)
    ensures
        session.after(event).0.required_role == session.required_role,
        session.after(event).0.token == session.token,
        session.after(event).0.rancher_url == session.rancher_url,
        only_to_server(session, session.pending()),
        only_to_server(session, session.after(event).1),
{
    reveal_strlit("/v3/");
    reveal_strlit("/v3/users?me");
    reveal_strlit("/v3/globalRoleBindings?userId=");
    let prefix = session.rancher_url + "/v3/"@;
    if session.pending() is Get {
        assert(prefix =~= session.pending()->url.subrange(0, prefix.len() as int));
    }
    if session.after(event).1 is Get {
        assert(prefix =~= session.after(event).1->url.subrange(0, prefix.len() as int));
    }
}

/// A request that the action sends carries the token of the conversation, and goes to a path
/// under `/v3/` of the Rancher server.
pub open spec fn only_to_server(session: AuthSessionView, action: AuthActionView) -> bool {
    action matches AuthActionView::Get { url, token } ==> {
        &&& token == session.token
        &&& (session.rancher_url + "/v3/"@).is_prefix_of(url)
    }
}

} // verus!
