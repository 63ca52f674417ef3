use beer_mcp::rancher_auth::{
    decide, let_through, rancher_auth_middleware, AuthContext, AuthError, Gate, GlobalRoleBinding,
    RancherAuthState, RancherCollection, RancherUser,
};
use beer_mcp::beer::{BeerOrderService, OrderBeerParams};
use beer_mcp::session::{AuthAction, AuthEvent, AuthSession};
use http::{HeaderMap, HeaderValue};

fn state() -> RancherAuthState {
    RancherAuthState::new("susecon-beer".to_string(), true)
}

fn users(list: Vec<(&str, Option<&str>)>) -> AuthEvent {
    AuthEvent::Users(RancherCollection {
        data: list
            .into_iter()
            .map(|(id, name)| RancherUser {
                id: id.to_string(),
                username: name.map(|n| n.to_string()),
            })
            .collect(),
    })
}

fn bindings(list: Vec<&str>) -> AuthEvent {
    AuthEvent::Bindings(RancherCollection {
        data: list
            .into_iter()
            .map(|id| GlobalRoleBinding { global_role_id: id.to_string() })
            .collect(),
    })
}

fn feed(events: Vec<AuthEvent>) -> (AuthSession, AuthAction) {
    let (mut session, mut action) = state().authenticate("secret", "https://rancher.example.com");
    for event in events {
        assert!(session.expects(&event));
        let next = session.step(event);
        session = next.0;
        action = next.1;
    }
    (session, action)
}

fn get(url: &str) -> AuthAction {
    AuthAction::Get { url: url.to_string(), token: "secret".to_string() }
}

// --- settings of the client -------------------------------------------------

#[test]
fn client_settings_follow_tls_verification() {
    let strict = RancherAuthState::new("r".to_string(), true);
    assert_eq!(strict.required_role, "r");
    assert_eq!(strict.timeout_secs, 5);
    assert!(!strict.accept_invalid_certs);
    assert!(RancherAuthState::new("r".to_string(), false).accept_invalid_certs);
}

// --- headers ----------------------------------------------------------------

#[test]
fn request_without_credentials_goes_on() {
    let mut headers = HeaderMap::new();
    assert_eq!(rancher_auth_middleware(&state(), &headers), Gate::PassThrough);
    headers.insert("r_token", HeaderValue::from_static(""));
    headers.insert("r_url", HeaderValue::from_bytes(b"https://caf\xe9").unwrap());
    headers.insert("x_token", HeaderValue::from_static("secret"));
    assert_eq!(rancher_auth_middleware(&state(), &headers), Gate::PassThrough);
}

#[test]
fn request_with_half_the_credentials_is_rejected() {
    let mut headers = HeaderMap::new();
    headers.insert("R_token", HeaderValue::from_static("secret"));
    assert_eq!(
        rancher_auth_middleware(&state(), &headers),
        Gate::Reject(AuthError::MissingHeaders)
    );
    let mut headers = HeaderMap::new();
    headers.insert("R_url", HeaderValue::from_static("https://rancher.example.com"));
    assert_eq!(
        rancher_auth_middleware(&state(), &headers),
        Gate::Reject(AuthError::MissingHeaders)
    );
    assert_eq!(
        decide(&state(), None, Some("u".to_string())),
        Gate::Reject(AuthError::MissingHeaders)
    );
}

#[test]
fn request_with_credentials_is_put_to_rancher() {
    let mut headers = HeaderMap::new();
    headers.insert("r_token", HeaderValue::from_static("secret"));
    headers.append("r_token", HeaderValue::from_static("second"));
    headers.insert("R_URL", HeaderValue::from_static("https://rancher.example.com//"));
    match rancher_auth_middleware(&state(), &headers) {
        Gate::Authenticate { session: _, action } => {
            assert_eq!(action, get("https://rancher.example.com/v3/users?me"));
        }
        other => panic!("unexpected decision: {other:?}"),
    }
}

#[test]
fn trailing_slashes_make_no_difference() {
    let plain = decide(&state(), Some("t".to_string()), Some("https://r".to_string()));
    let slashed = decide(&state(), Some("t".to_string()), Some("https://r/".to_string()));
    assert_eq!(plain, slashed);
    match plain {
        Gate::Authenticate { session: _, action } => assert_eq!(
            action,
            AuthAction::Get { url: "https://r/v3/users?me".to_string(), token: "t".to_string() }
        ),
        other => panic!("unexpected decision: {other:?}"),
    }
}

// --- the conversation -------------------------------------------------------

#[test]
fn user_with_the_role_passes() {
    let (session, action) = feed(vec![]);
    assert_eq!(action, get("https://rancher.example.com/v3/users?me"));
    assert!(!session.expects(&AuthEvent::Text(String::new())));
    assert!(!session.expects(&AuthEvent::Unread));
    assert_eq!(session.rancher_url(), "https://rancher.example.com");
    assert!(session.user().is_none());
    assert!(!session.expects(&AuthEvent::Status(99)));
    assert!(!session.expects(&AuthEvent::Status(1000)));
    assert!(session.expects(&AuthEvent::Status(100)));

    let (session, action) = feed(vec![AuthEvent::Status(200)]);
    assert_eq!(action, AuthAction::ReadUsers);
    assert!(!session.expects(&bindings(vec![])));

    let (session, action) = feed(vec![
        AuthEvent::Status(200),
        users(vec![("u-1", Some("alice")), ("u-2", Some("bob"))]),
    ]);
    assert_eq!(session.user(), Some((&"alice".to_string(), &"u-1".to_string())));
    assert_eq!(
        action,
        get("https://rancher.example.com/v3/globalRoleBindings?userId=u-1")
    );

    let (session, action) = feed(vec![
        AuthEvent::Status(200),
        users(vec![("u-1", Some("alice"))]),
        AuthEvent::Status(299),
    ]);
    assert_eq!(action, AuthAction::ReadBindings);
    assert!(!session.expects(&users(vec![])));

    let (session, action) = feed(vec![
        AuthEvent::Status(200),
        users(vec![("u-1", Some("alice"))]),
        AuthEvent::Status(200),
        bindings(vec!["user", "susecon-beer"]),
    ]);
    let context = AuthContext {
        display_name: "alice".to_string(),
        roles: vec!["user".to_string(), "susecon-beer".to_string()],
    };
    let svc = BeerOrderService::new("susecon-beer".to_string());
    assert_eq!(svc.authorize(Some(&context)), Ok(()));
    assert_eq!(action, AuthAction::Finish(Ok(context)));
    assert!(!session.expects(&AuthEvent::Status(200)));
}

#[test]
fn nameless_user_is_called_unknown() {
    let (_, action) = feed(vec![
        AuthEvent::Status(200),
        users(vec![("u-1", None)]),
        AuthEvent::Status(200),
        bindings(vec!["susecon-beer"]),
    ]);
    assert_eq!(
        action,
        AuthAction::Finish(Ok(AuthContext {
            display_name: "unknown".to_string(),
            roles: vec!["susecon-beer".to_string()],
        }))
    );
}

#[test]
fn user_without_the_role_is_forbidden() {
    let (_, action) = feed(vec![
        AuthEvent::Status(200),
        users(vec![("u-1", Some("alice"))]),
        AuthEvent::Status(200),
        bindings(vec!["user", "susecon"]),
    ]);
    let error = AuthError::Forbidden {
        username: "alice".to_string(),
        required_role: "susecon-beer".to_string(),
        actual_roles: vec!["user".to_string(), "susecon".to_string()],
    };
    assert_eq!(action, AuthAction::Finish(Err(error)));
}

#[test]
fn empty_user_list_is_an_invalid_token() {
    let (_, action) = feed(vec![AuthEvent::Status(200), users(vec![])]);
    assert_eq!(
        action,
        AuthAction::Finish(Err(AuthError::InvalidToken("empty user list".to_string())))
    );
}

#[test]
fn refusal_is_an_invalid_token() {
    let (_, action) = feed(vec![AuthEvent::Status(401)]);
    assert_eq!(action, AuthAction::ReadText);
    let (_, action) = feed(vec![AuthEvent::Status(401), AuthEvent::Unread]);
    assert_eq!(
        action,
        AuthAction::Finish(Err(AuthError::InvalidToken(
            "Rancher returned 401 Unauthorized for https://rancher.example.com/v3/users?me. Body: "
                .to_string()
        )))
    );
    let (_, action) = feed(vec![AuthEvent::Status(404), AuthEvent::Text("nothing".to_string())]);
    assert_eq!(
        action,
        AuthAction::Finish(Err(AuthError::InvalidToken(
            "Rancher returned 404 Not Found for https://rancher.example.com/v3/users?me. \
             Body: nothing"
                .to_string()
        )))
    );
    let (_, action) = feed(vec![
        AuthEvent::Status(200),
        users(vec![("u-1", Some("alice"))]),
        AuthEvent::Status(300),
        AuthEvent::Text(String::new()),
    ]);
    assert_eq!(
        action,
        AuthAction::Finish(Err(AuthError::InvalidToken(
            "Rancher returned 300 Multiple Choices for \
             https://rancher.example.com/v3/globalRoleBindings?userId=u-1. Body: "
                .to_string()
        )))
    );
    let (_, action) = feed(vec![AuthEvent::Status(199), AuthEvent::Text("x".to_string())]);
    assert_eq!(
        action,
        AuthAction::Finish(Err(AuthError::InvalidToken(
            "Rancher returned 199 <unknown status code> for \
             https://rancher.example.com/v3/users?me. Body: x"
                .to_string()
        )))
    );
}

#[test]
fn silence_is_unreachable() {
    let (_, action) = feed(vec![AuthEvent::Unreachable("timed out".to_string())]);
    assert_eq!(
        action,
        AuthAction::Finish(Err(AuthError::RancherUnreachable(
            "https://rancher.example.com/v3/users?me: timed out".to_string()
        )))
    );
}

#[test]
fn unreadable_document_is_a_bad_gateway() {
    let (_, action) = feed(vec![
        AuthEvent::Status(200),
        users(vec![("u-1", Some("alice"))]),
        AuthEvent::Status(200),
        AuthEvent::Unparsed("missing field `data`".to_string()),
    ]);
    assert_eq!(
        action,
        AuthAction::Finish(Err(AuthError::BadGateway(
            "failed to parse https://rancher.example.com/v3/globalRoleBindings?userId=u-1: \
             missing field `data`"
                .to_string()
        )))
    );
}

#[test]
fn user_who_passed_may_order() {
    let svc = BeerOrderService::new("susecon-beer".to_string());
    let mut extensions = http::Extensions::new();
    let (_, action) = feed(vec![
        AuthEvent::Status(200),
        users(vec![("u-1", Some("alice"))]),
        AuthEvent::Status(200),
        bindings(vec!["susecon-beer"]),
    ]);
    match action {
        AuthAction::Finish(outcome) => {
            assert_eq!(let_through(&mut extensions, outcome), Ok(()));
        }
        other => panic!("unexpected action: {other:?}"),
    }
    assert_eq!(
        extensions.get::<AuthContext>().map(|context| context.display_name.as_str()),
        Some("alice")
    );
    assert!(svc.order_beer(&extensions, OrderBeerParams { beer_type: None }).is_ok());
}

#[test]
fn user_who_did_not_pass_is_not_attached() {
    let svc = BeerOrderService::new("susecon-beer".to_string());
    let mut extensions = http::Extensions::new();
    assert_eq!(
        let_through(&mut extensions, Err(AuthError::InvalidToken("x".to_string()))),
        Err(AuthError::InvalidToken("x".to_string()))
    );
    assert!(extensions.get::<AuthContext>().is_none());
    assert!(svc.order_beer(&extensions, OrderBeerParams { beer_type: None }).is_err());
}

// --- responses --------------------------------------------------------------

#[test]
fn errors_are_answered() {
    let cases = vec![
        (
            AuthError::MissingHeaders,
            401,
            "Unauthorized: R_token and R_url headers are required",
        ),
        (
            AuthError::RancherUnreachable("a".to_string()),
            502,
            "Authentication failed: unable to reach Rancher server",
        ),
        (
            AuthError::InvalidToken("b".to_string()),
            401,
            "Unauthorized: invalid or expired Rancher token",
        ),
        (
            AuthError::BadGateway("c".to_string()),
            502,
            "Authentication failed: unexpected response from Rancher",
        ),
        (
            AuthError::Forbidden {
                username: "alice".to_string(),
                required_role: "susecon-beer".to_string(),
                actual_roles: vec!["user".to_string()],
            },
            403,
            "Forbidden: user \"alice\" does not have the required role \"susecon-beer\"",
        ),
    ];
    for (error, status, body) in cases {
        let response = error.into_response();
        assert_eq!(response.status, status);
        assert_eq!(response.body, body);
    }
}

#[test]
fn details_stay_inside() {
    assert_eq!(
        AuthError::InvalidToken("one".to_string()).into_response(),
        AuthError::InvalidToken("another".to_string()).into_response()
    );
    let forbidden = |roles: Vec<String>| AuthError::Forbidden {
        username: "alice".to_string(),
        required_role: "r".to_string(),
        actual_roles: roles,
    };
    assert_eq!(
        forbidden(vec![]).into_response(),
        forbidden(vec!["user".to_string()]).into_response()
    );
}
