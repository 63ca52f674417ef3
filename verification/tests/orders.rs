use beer_mcp::beer::{
    fill_template, health, resolve_beer_name, BeerOrderService, OrderBeerParams, OrderError, PendingOrder,
    ProtocolVersion, INSTRUCTIONS, RESPONSES,
};
use beer_mcp::rancher_auth::AuthContext;

fn authed() -> AuthContext {
    AuthContext {
        display_name: "test-user".to_string(),
        roles: vec!["test-role".to_string()],
    }
}

fn make_authed_parts() -> http::request::Parts {
    let (mut parts, _) = http::Request::new(()).into_parts();
    parts.extensions.insert(authed());
    parts
}

// --- resolve_beer_name ------------------------------------------------------

#[test]
fn beer_name_from_none_defaults_to_beer() {
    assert_eq!(resolve_beer_name(None), "beer");
}

#[test]
fn beer_name_from_empty_string_defaults_to_beer() {
    assert_eq!(resolve_beer_name(Some(String::new())), "beer");
}

#[test]
fn beer_name_from_whitespace_defaults_to_beer() {
    assert_eq!(resolve_beer_name(Some("   ".to_string())), "beer");
}

#[test]
fn beer_name_from_specified_type_is_preserved() {
    assert_eq!(resolve_beer_name(Some("IPA".to_string())), "IPA");
}

#[test]
fn beer_name_keeps_the_white_space_around_it() {
    assert_eq!(resolve_beer_name(Some("  pale ale ".to_string())), "  pale ale ");
    assert_eq!(resolve_beer_name(Some("\t\u{3000}\n".to_string())), "beer");
}

// --- RESPONSES --------------------------------------------------------------

#[test]
fn responses_is_non_empty() {
    assert!(!RESPONSES.is_empty());
}

#[test]
fn all_response_templates_contain_placeholder() {
    for template in RESPONSES {
        assert!(
            template.contains("{beer}"),
            "template missing {{beer}} placeholder: {template}"
        );
    }
}

#[test]
fn templates_are_filled_in() {
    assert_eq!(
        fill_template(RESPONSES[0], "stout"),
        "Order confirmed! Your stout is being pulled from the tap right now. \
         A human is on their way to you. Cheers! 🍺"
    );
    assert_eq!(
        fill_template(RESPONSES[3], "Weißbier"),
        "Your Weißbier has been ordered. We've activated the human delivery protocol \
         — our most reliable operative is en route."
    );
    assert_eq!(fill_template("{beer}{beer} {bee}", "{beer}"), "{beer}{beer} {bee}");
    for template in RESPONSES {
        assert_eq!(fill_template(template, "IPA"), template.replace("{beer}", "IPA"));
    }
}

// --- order_beer -------------------------------------------------------------

#[test]
fn order_beer_with_named_type_mentions_beer_in_response() {
    let svc = BeerOrderService::new("test-role".to_string());
    let order = svc
        .order_beer(
            &make_authed_parts().extensions,
            OrderBeerParams { beer_type: Some("stout".to_string()) },
        )
        .expect("order_beer should succeed");
    let text = order.confirm();
    assert!(text.contains("stout"), "response should mention the beer type: {text}");
}

#[test]
fn order_beer_with_no_type_defaults_to_beer() {
    let svc = BeerOrderService::new("test-role".to_string());
    let order = svc
        .order_beer(&make_authed_parts().extensions, OrderBeerParams { beer_type: None })
        .expect("order_beer should succeed");
    assert_eq!(order.beer(), "beer");
    let text = order.confirm();
    assert!(text.contains("beer"), "response should contain 'beer': {text}");
}

#[test]
fn order_without_authentication_is_refused() {
    let svc = BeerOrderService::new("test-role".to_string());
    let error = svc
        .order_beer(&http::Extensions::new(), OrderBeerParams { beer_type: Some("stout".to_string()) })
        .expect_err("nobody is behind the order");
    assert_eq!(error, OrderError::Unauthenticated);
    assert_eq!(error.code(), -32600);
    assert_eq!(
        error.message(),
        "Authentication required to order beer. Please provide R_token and R_url headers."
    );
}

#[test]
fn order_without_the_role_is_refused() {
    let svc = BeerOrderService::new("other-role".to_string());
    let error = svc
        .order_beer(&make_authed_parts().extensions, OrderBeerParams { beer_type: None })
        .expect_err("the role is missing");
    assert_eq!(
        error,
        OrderError::Forbidden {
            display_name: "test-user".to_string(),
            required_role: "other-role".to_string(),
        }
    );
    assert_eq!(error.code(), -32600);
    assert_eq!(
        error.message(),
        "Forbidden: user \"test-user\" does not have the required role \"other-role\""
    );
}

#[test]
fn service_keeps_its_role() {
    assert_eq!(BeerOrderService::new("test-role".to_string()).required_role(), "test-role");
}

#[test]
fn health_check_is_answered() {
    assert_eq!(health(), "OK");
}

#[test]
fn default_service_requires_the_empty_role() {
    let svc = BeerOrderService::default();
    assert_eq!(svc.required_role(), "");
    let context = authed();
    assert!(svc.authorize(Some(&context)).is_err());
    let nameless = AuthContext {
        display_name: "x".to_string(),
        roles: vec!["a".to_string(), String::new()],
    };
    assert_eq!(svc.authorize(Some(&nameless)), Ok(()));
}

#[test]
fn processing_takes_two_to_four_seconds() {
    let svc = BeerOrderService::new("test-role".to_string());
    let parts = make_authed_parts();
    let mut seen = Vec::new();
    for _ in 0..300 {
        let order = svc
            .order_beer(&parts.extensions, OrderBeerParams { beer_type: None })
            .expect("order_beer should succeed");
        let half = order.half_ms();
        assert!(1000 <= half && half <= 2000);
        if !seen.contains(&half) {
            seen.push(half);
        }
    }
    assert!(seen.len() > 1);
}

#[test]
fn halves_are_rounded_down() {
    assert_eq!(PendingOrder::lasting("lager".to_string(), 2000).half_ms(), 1000);
    assert_eq!(PendingOrder::lasting("lager".to_string(), 3001).half_ms(), 1500);
    assert_eq!(PendingOrder::lasting("lager".to_string(), 4000).half_ms(), 2000);
}

#[test]
fn confirmations_come_from_the_templates() {
    let order = PendingOrder::lasting("lager".to_string(), 2500);
    let possible: Vec<String> = RESPONSES.iter().map(|t| t.replace("{beer}", "lager")).collect();
    let mut seen = Vec::new();
    for _ in 0..300 {
        let text = order.confirm();
        assert!(possible.contains(&text));
        if !seen.contains(&text) {
            seen.push(text);
        }
    }
    assert!(seen.len() > 1);
}

// --- get_info ---------------------------------------------------------------

#[test]
fn get_info_advertises_tools_capability() {
    let svc = BeerOrderService::new("test-role".to_string());
    let info = svc.get_info();
    assert!(
        info.capabilities.tools.is_some(),
        "server should advertise tools capability"
    );
}

#[test]
fn get_info_says_how_to_order() {
    let info = BeerOrderService::default().get_info();
    assert_eq!(info.protocol_version, ProtocolVersion::V20241105);
    assert_eq!(info.instructions, INSTRUCTIONS);
    assert_eq!(
        info.instructions,
        "Beer ordering service for SUSECON. Call order_beer to place a beer order. \
         A human will deliver the beer to you after the order is confirmed."
    );
}
