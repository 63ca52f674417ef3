//! Authentication against a Rancher server.
//!
//! A request that carries Rancher credentials is let through once the server has named its user
//! and listed a binding of that user to the required global role. The conversation with the
//! server is a state machine: `AuthSession` says what to do next, and is told what came of it.
use crate::session::{AuthAction, AuthActionView, AuthSession, AuthSessionView};
use crate::text;
use crate::web;
use vstd::prelude::*;
use vstd::string::*;

verus! {

// ---------------------------------------------------------------------------
// Errors and the responses to them
// ---------------------------------------------------------------------------

/// Why a request was not let through.
#[derive(Debug, PartialEq, Eq)]
pub enum AuthError {
    MissingHeaders,
    RancherUnreachable(String),
    InvalidToken(String),
    BadGateway(String),
    Forbidden { username: String, required_role: String, actual_roles: Vec<String> },
}

/// `AuthError` over sequences of characters.
pub enum AuthErrorView {
    MissingHeaders,
    RancherUnreachable(Seq<char>),
    InvalidToken(Seq<char>),
    BadGateway(Seq<char>),
    Forbidden { username: Seq<char>, required_role: Seq<char>, actual_roles: Seq<Seq<char>> },
}

impl View for AuthError {
    type V = AuthErrorView;

    open spec fn view(&self) -> AuthErrorView {
        match *self {
            AuthError::MissingHeaders => AuthErrorView::MissingHeaders,
            AuthError::RancherUnreachable(detail) => AuthErrorView::RancherUnreachable(detail@),
            AuthError::InvalidToken(detail) => AuthErrorView::InvalidToken(detail@),
            AuthError::BadGateway(detail) => AuthErrorView::BadGateway(detail@),
            AuthError::Forbidden { username, required_role, actual_roles } =>
                AuthErrorView::Forbidden {
                    username: username@,
                    required_role: required_role@,
                    actual_roles: actual_roles.deep_view(),
                },
        }
    }
}

/// What a user without the required role is told.
pub open spec fn forbidden_text(username: Seq<char>, required_role: Seq<char>) -> Seq<char> {
    "Forbidden: user \""@ + username + "\" does not have the required role \""@ + required_role
        + "\""@
}

impl AuthErrorView {
    /// The status code of the response.
    pub open spec fn status(self) -> u16 {
        match self {
            AuthErrorView::MissingHeaders => 401,
            AuthErrorView::RancherUnreachable(_) => 502,
            AuthErrorView::InvalidToken(_) => 401,
            AuthErrorView::BadGateway(_) => 502,
            AuthErrorView::Forbidden { .. } => 403,
        }
    }

    /// The body of the response.
    pub open spec fn body(self) -> Seq<char> {
        match self {
            AuthErrorView::MissingHeaders =>
                "Unauthorized: R_token and R_url headers are required"@,
            AuthErrorView::RancherUnreachable(_) =>
                "Authentication failed: unable to reach Rancher server"@,
            AuthErrorView::InvalidToken(_) =>
                "Unauthorized: invalid or expired Rancher token"@,
            AuthErrorView::BadGateway(_) =>
                "Authentication failed: unexpected response from Rancher"@,
            AuthErrorView::Forbidden { username, required_role, .. } =>
                forbidden_text(username, required_role),
        }
    }
}

/// A response of status code and plain text.
#[derive(Debug, PartialEq, Eq)]
pub struct ErrorResponse {
    pub status: u16,
    pub body: String,
}

/// Writes what a user without the required role is told.
pub fn forbidden_message(username: &str, required_role: &str) -> (r: String)
    ensures
        r@ == forbidden_text(username@, required_role@),
{
    let mut message: String = "Forbidden: user \"".to_owned();
    message.append(username);
    message.append("\" does not have the required role \"");
    message.append(required_role);
    message.append("\"");
    message
}

impl AuthError {
    /// The response that the client gets.
    pub fn into_response(self) -> (r: ErrorResponse)
        ensures
            self matches AuthError::Forbidden { username, required_role, .. } ==> r.status == 403
                && r.body@ == "Forbidden: user \""@ + username@
                + "\" does not have the required role \""@ + required_role@ + "\""@,
            self is MissingHeaders || self is InvalidToken ==> r.status == 401,
            self is RancherUnreachable || self is BadGateway ==> r.status == 502,
            r.status == self@.status(),
            r.body@ == self@.body(),
    {
        match self {
            AuthError::MissingHeaders => ErrorResponse {
                status: 401,
                body: "Unauthorized: R_token and R_url headers are required".to_owned(),
            },
            AuthError::RancherUnreachable(_) => ErrorResponse {
                status: 502,
                body: "Authentication failed: unable to reach Rancher server".to_owned(),
            },
            AuthError::InvalidToken(_) => ErrorResponse {
                status: 401,
                body: "Unauthorized: invalid or expired Rancher token".to_owned(),
            },
            AuthError::BadGateway(_) => ErrorResponse {
                status: 502,
                body: "Authentication failed: unexpected response from Rancher".to_owned(),
            },
            AuthError::Forbidden { username, required_role, actual_roles: _ } => ErrorResponse {
                status: 403,
                body: forbidden_message(username.as_str(), required_role.as_str()),
            },
        }
    }
}

/// What went wrong between this server and Rancher is not shown to the client, nor are the roles
/// that a user holds: the response to an error is the same whatever its detail.
pub proof fn law_details_stay_inside(
    a: Seq<char>,
    b: Seq<char>,
    username: Seq<char>,
    required_role: Seq<char>,
    roles_a: Seq<Seq<char>>,
    roles_b: Seq<Seq<char>>,
)
    ensures
        AuthErrorView::RancherUnreachable(a).status() == AuthErrorView::RancherUnreachable(
            b,
        ).status(),
        AuthErrorView::RancherUnreachable(a).body() == AuthErrorView::RancherUnreachable(b).body(),
        AuthErrorView::InvalidToken(a).status() == AuthErrorView::InvalidToken(b).status(),
        AuthErrorView::InvalidToken(a).body() == AuthErrorView::InvalidToken(b).body(),
        AuthErrorView::BadGateway(a).status() == AuthErrorView::BadGateway(b).status(),
        AuthErrorView::BadGateway(a).body() == AuthErrorView::BadGateway(b).body(),
        ({
            let one = AuthErrorView::Forbidden { username, required_role, actual_roles: roles_a };
            let other = AuthErrorView::Forbidden { username, required_role, actual_roles: roles_b };
            one.status() == other.status() && one.body() == other.body()
        }),
{
}

// ---------------------------------------------------------------------------
// Rancher API types
// ---------------------------------------------------------------------------

/// A user as Rancher describes it.
#[derive(Debug, PartialEq, Eq)]
pub struct RancherUser {
    pub id: String,
    pub username: Option<String>,
}

/// A list as Rancher sends it.
#[derive(Debug, PartialEq, Eq)]
pub struct RancherCollection<T> {
    pub data: Vec<T>,
}

/// A binding of a user to a global role.
#[derive(Debug, PartialEq, Eq)]
pub struct GlobalRoleBinding {
    pub global_role_id: String,
}

/// `RancherUser` over sequences of characters.
pub struct RancherUserView {
    pub id: Seq<char>,
    pub username: Option<Seq<char>>,
}

impl DeepView for RancherUser {
    type V = RancherUserView;

    open spec fn deep_view(&self) -> RancherUserView {
        RancherUserView { id: self.id@, username: self.username.deep_view() }
    }
}

impl DeepView for GlobalRoleBinding {
    type V = Seq<char>;

    open spec fn deep_view(&self) -> Seq<char> {
        self.global_role_id@
    }
}

/// Who is behind a request that was let through.
#[derive(Debug, Clone, PartialEq, Eq)]
pub struct AuthContext {
    pub display_name: String,
    pub roles: Vec<String>,
}

/// `AuthContext` over sequences of characters.
pub struct AuthContextView {
    pub display_name: Seq<char>,
    pub roles: Seq<Seq<char>>,
}

impl View for AuthContext {
    type V = AuthContextView;

    open spec fn view(&self) -> AuthContextView {
        AuthContextView { display_name: self.display_name@, roles: self.roles.deep_view() }
    }
}

impl AuthContext {
    /// Whether the user holds `role`.
    pub fn has_role(&self, role: &String) -> (r: bool)
        ensures
            r == self@.roles.contains(role@),
            r <==> exists|i: int| 0 <= i < self.roles@.len() && (#[trigger] self.roles@[i])@ == role@,
    {
        holds_role(&self.roles, role)
    }
}

/// Whether `role` is one of `roles`.
pub(crate) fn holds_role(roles: &Vec<String>, role: &String) -> (r: bool)
    ensures
        r == roles.deep_view().contains(role@),
        r <==> exists|i: int| 0 <= i < roles@.len() && (#[trigger] roles@[i])@ == role@,
{
    let mut i: usize = 0;
    while i < roles.len()
        invariant
            i <= roles.len(),
            forall|j: int| 0 <= j < i ==> #[trigger] roles.deep_view()[j] != role@,
            forall|j: int| 0 <= j < i ==> (#[trigger] roles@[j])@ != role@,
        decreases roles.len() - i,
    {
        if roles[i] == *role {
            assert(roles.deep_view()[i as int] == role@);
            return true;
        }
        i = i + 1;
    }
    false
}

/// The role ids of a list of bindings, in its order.
pub(crate) fn role_ids(bindings: &Vec<GlobalRoleBinding>) -> (r: Vec<String>)
    ensures
        r.deep_view() == bindings.deep_view(),
        r@.len() == bindings@.len(),
        forall|i: int| 0 <= i < r@.len() ==> (#[trigger] r@[i])@ == bindings@[i].global_role_id@,
{
    let mut ids: Vec<String> = Vec::new();
    let mut i: usize = 0;
    while i < bindings.len()
        invariant
            i <= bindings.len(),
            ids.len() == i,
            forall|j: int| 0 <= j < i ==> (#[trigger] ids[j])@ == bindings.deep_view()[j],
            forall|j: int| 0 <= j < i ==> (#[trigger] ids@[j])@ == bindings@[j].global_role_id@,
        decreases bindings.len() - i,
    {
        ids.push(bindings[i].global_role_id.clone());
        i = i + 1;
    }
    assert(ids.deep_view() =~= bindings.deep_view());
    ids
}

// ---------------------------------------------------------------------------
// Auth state and the decision on a request
// ---------------------------------------------------------------------------

/// The settings of the authentication: the role that it takes to pass, and how the HTTP client
/// that talks to Rancher is to be built.
#[derive(Debug, Clone, PartialEq, Eq)]
pub struct RancherAuthState {
    pub required_role: String,
    /// After how many seconds a request to Rancher is given up.
    pub timeout_secs: u64,
    /// Whether certificates that do not verify are accepted.
    pub accept_invalid_certs: bool,
}

impl RancherAuthState {
    /// Settings for a required role, with or without verification of TLS certificates.
    pub fn new(required_role: String, tls_verify: bool) -> (r: Self)
        ensures
            r.required_role@ == required_role@,
            r.timeout_secs == 5,
            r.accept_invalid_certs == !tls_verify,
    {
        RancherAuthState { required_role, timeout_secs: 5, accept_invalid_certs: !tls_verify }
    }

    /// Starts the conversation with the Rancher server at `rancher_url` about `token`.
    pub fn authenticate(&self, token: &str, rancher_url: &str) -> (r: (AuthSession, AuthAction))
        ensures
            r.0@ == AuthSessionView::started(self.required_role@, token@, rancher_url@),
            r.1@ == r.0@.pending(),
            r.0@.required_role == self.required_role@,
            r.0@.token == token@,
            r.0@.rancher_url == rancher_url@,
    {
        AuthSession::start(self.required_role.clone(), token.to_owned(), rancher_url.to_owned())
    }
}

/// What is done with a request.
#[derive(Debug, PartialEq, Eq)]
pub enum Gate {
    /// It goes on, with nobody behind it.
    PassThrough,
    /// It is answered with the response to the error.
    Reject(AuthError),
    /// Its credentials are put to Rancher, and the outcome decides.
    Authenticate { session: AuthSession, action: AuthAction },
}

/// `Gate` over sequences of characters.
pub enum GateView {
    PassThrough,
    Reject(AuthErrorView),
    Authenticate { session: AuthSessionView, action: AuthActionView },
}

impl View for Gate {
    type V = GateView;

    open spec fn view(&self) -> GateView {
        match *self {
            Gate::PassThrough => GateView::PassThrough,
            Gate::Reject(error) => GateView::Reject(error@),
            Gate::Authenticate { session, action } => GateView::Authenticate {
                session: session@,
                action: action@,
            },
        }
    }
}

/// What is done with a request that carries the given token and address of a Rancher server. A
/// request without either goes on, so that the tools can be listed. One with only one of them is
/// rejected. The address is taken without the slashes that it ends in.
pub open spec fn gate(
    required_role: Seq<char>,
    r_token: Option<Seq<char>>,
    r_url: Option<Seq<char>>,
) -> GateView {
    match (r_token, r_url) {
        (None, None) => GateView::PassThrough,
        (Some(token), Some(url)) => {
            let session = AuthSessionView::started(
                required_role,
                token,
                text::without_trailing(url, '/'),
            );
            GateView::Authenticate { session, action: session.pending() }
        },
        _ => GateView::Reject(AuthErrorView::MissingHeaders),
    }
}

/// Decides on a request by its credentials.
pub fn decide(state: &RancherAuthState, r_token: Option<String>, r_url: Option<String>) -> (r: Gate)
    ensures
        r@ == gate(state.required_role@, r_token.deep_view(), r_url.deep_view()),
        r is PassThrough <==> r_token is None && r_url is None,
        r_token is Some != r_url is Some ==> r == Gate::Reject(AuthError::MissingHeaders),
        r_token is Some && r_url is Some ==> {
            &&& r is Authenticate
            &&& r->session@.required_role == state.required_role@
            &&& r->session@.token == r_token->0@
        },
{
    match (r_token, r_url) {
        (None, None) => Gate::PassThrough,
        (Some(token), Some(url)) => {
            let (session, action) = state.authenticate(
                token.as_str(),
                text::trim_trailing(url.as_str(), '/'),
            );
            Gate::Authenticate { session, action }
        },
        _ => Gate::Reject(AuthError::MissingHeaders),
    }
}

/// Decides on a request by its headers `R_token` and `R_url`.
pub fn rancher_auth_middleware(state: &RancherAuthState, headers: &http::HeaderMap) -> (r: Gate)
    ensures
        r@ == gate(
            state.required_role@,
            web::header_text(*headers, "R_token"@),
            web::header_text(*headers, "R_url"@),
        ),
{
    proof {
        reveal_strlit("R_token");
        reveal_strlit("R_url");
    }
    let r_token: Option<String> = web::read_header(headers, "R_token");
    let r_url: Option<String> = web::read_header(headers, "R_url");
    decide(state, r_token, r_url)
}

/// Takes the outcome of a conversation in. A request whose user passed goes on, with the user
/// attached to it. Otherwise it is answered with the response to the error.
pub fn let_through(
    extensions: &mut http::Extensions,
    outcome: Result<AuthContext, AuthError>,
) -> (r: Result<(), AuthError>)
    ensures
        outcome matches Ok(context) ==> web::attached_contexts(*final(extensions)) == seq![
            context@,
        ],
        match outcome {
            Ok(context) => r is Ok && web::attached_context(*final(extensions)) == Some(context@),
            Err(error) => r is Err && r->Err_0@ == error@ && *final(extensions) == *old(extensions),
        },
{
    match outcome {
        Ok(context) => {
            web::attach_context(extensions, context);
            Ok(())
        },
        Err(error) => Err(error),
    }
}

/// Slashes at the end of the address make no difference.
pub proof fn law_trailing_slash_is_ignored(
    required_role: Seq<char>,
    r_token: Option<Seq<char>>,
    url: Seq<char>,
)
    ensures
        gate(required_role, r_token, Some(url.push('/'))) == gate(
            required_role,
            r_token,
            Some(url),
        ),
{
    assert(url.push('/').drop_last() == url);
}

/// A request with exactly one of the two credentials is answered with 401, whatever it holds.
pub proof fn law_half_credentials_are_refused(
    required_role: Seq<char>,
    r_token: Option<Seq<char>>,
    r_url: Option<Seq<char>>,
)
    requires
        r_token is Some != r_url is Some,
    ensures
        gate(required_role, r_token, r_url) == GateView::Reject(AuthErrorView::MissingHeaders),
        AuthErrorView::MissingHeaders.status() == 401,
{
}

} // verus!
