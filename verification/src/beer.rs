//! Orders for beer: who may place them, what is ordered, and how they are confirmed.
use crate::chance;
use crate::rancher_auth;
use crate::rancher_auth::{AuthContext, AuthContextView};
use crate::session;
use crate::text;
use crate::web;
use vstd::prelude::*;
use vstd::string::*;

verus! {

// ---------------------------------------------------------------------------
// Response messages, one of which is chosen at random per order
// ---------------------------------------------------------------------------

/// What stands for the beer in a response template.
pub const PLACEHOLDER: &'static str = "{beer}";

/// The templates of the confirmations.
pub const RESPONSES: [&'static str; 8] = [
    "Order confirmed! Your {beer} is being pulled from the tap right now. \
     A human is on their way to you. Cheers! 🍺",
    "Beer ordered successfully! Our finest human courier is already heading \
     your way with your {beer}. Shouldn't be long!",
    "Done! The order went through. A real, live human is currently en route \
     with your {beer}. ETA: very soon. 🍻",
    "Your {beer} has been ordered. We've activated the human delivery protocol \
     — our most reliable operative is en route.",
    "Order received and confirmed! A friendly human has been dispatched with \
     your {beer}. They are extremely motivated.",
    "🍺 Tap room notified! Your {beer} is being poured and a human delivery \
     agent is heading your way as we speak.",
    "Confirmed! The {beer} order went through. A human — fully biological, \
     highly motivated — is on their way right now.",
    "Order placed! Your {beer} awaits. A human (the best delivery system ever \
     invented) is currently en route with your order.",
];

/// A template with the beer in the place of every placeholder.
pub open spec fn filled(template: Seq<char>, beer: Seq<char>) -> Seq<char> {
    text::replaced(template, PLACEHOLDER@, beer)
}

/// Puts the beer in the place of every placeholder.
pub fn fill_template(template: &str, beer: &str) -> (r: String)
    ensures
        r@ == filled(template@, beer@),
{
    proof {
        reveal_strlit("{beer}");
    }
    text::replace_all(template, PLACEHOLDER, beer)
}

/// Every template has a placeholder.
pub proof fn law_templates_have_placeholder(i: int)
    requires
        0 <= i < RESPONSES.len(),
    ensures
        text::occurs(RESPONSES[i]@, PLACEHOLDER@),
{
    reveal_strlit("{beer}");
    let template = RESPONSES[i]@;
    if i == 0 {
        reveal_strlit("Order confirmed! Your {beer} is being pulled from the tap right now. A human is on their way to you. Cheers! 🍺");
        assert(template.subrange(22, 28) =~= "{beer}"@);
        assert(text::occurs_at(template, PLACEHOLDER@, 22));
    }
    if i == 1 {
        reveal_strlit("Beer ordered successfully! Our finest human courier is already heading your way with your {beer}. Shouldn't be long!");
        assert(template.subrange(90, 96) =~= "{beer}"@);
        assert(text::occurs_at(template, PLACEHOLDER@, 90));
    }
    if i == 2 {
        reveal_strlit("Done! The order went through. A real, live human is currently en route with your {beer}. ETA: very soon. 🍻");
        assert(template.subrange(81, 87) =~= "{beer}"@);
        assert(text::occurs_at(template, PLACEHOLDER@, 81));
    }
    if i == 3 {
        reveal_strlit("Your {beer} has been ordered. We've activated the human delivery protocol — our most reliable operative is en route.");
        assert(template.subrange(5, 11) =~= "{beer}"@);
        assert(text::occurs_at(template, PLACEHOLDER@, 5));
    }
    if i == 4 {
        reveal_strlit("Order received and confirmed! A friendly human has been dispatched with your {beer}. They are extremely motivated.");
        assert(template.subrange(77, 83) =~= "{beer}"@);
        assert(text::occurs_at(template, PLACEHOLDER@, 77));
    }
    if i == 5 {
        reveal_strlit("🍺 Tap room notified! Your {beer} is being poured and a human delivery agent is heading your way as we speak.");
        assert(template.subrange(26, 32) =~= "{beer}"@);
        assert(text::occurs_at(template, PLACEHOLDER@, 26));
    }
    if i == 6 {
        reveal_strlit("Confirmed! The {beer} order went through. A human — fully biological, highly motivated — is on their way right now.");
        assert(template.subrange(15, 21) =~= "{beer}"@);
        assert(text::occurs_at(template, PLACEHOLDER@, 15));
    }
    if i == 7 {
        reveal_strlit("Order placed! Your {beer} awaits. A human (the best delivery system ever invented) is currently en route with your order.");
        assert(template.subrange(19, 25) =~= "{beer}"@);
        assert(text::occurs_at(template, PLACEHOLDER@, 19));
    }
}

/// Every confirmation mentions the beer that was ordered.
pub proof fn law_confirmation_mentions_beer(i: int, beer: Seq<char>)
    requires
        0 <= i < RESPONSES.len(),
    ensures
        text::occurs(filled(RESPONSES[i]@, beer), beer),
{
    reveal_strlit("{beer}");
    law_templates_have_placeholder(i);
    text::lemma_replaced_holds_replacement(RESPONSES[i]@, PLACEHOLDER@, beer);
}

// ---------------------------------------------------------------------------
// What is ordered
// ---------------------------------------------------------------------------

/// The parameters of an order.
#[derive(Debug, PartialEq, Eq)]
pub struct OrderBeerParams {
    /// The type of beer to order (e.g. "lager", "IPA", "stout").
    /// If not specified, any beer will do.
    pub beer_type: Option<String>,
}

/// The name of the beer: the one asked for, just as it was written, or `beer` where none is
/// asked for or nothing but white space.
pub open spec fn beer_name(beer_type: Option<Seq<char>>) -> Seq<char> {
    match beer_type {
        Some(name) => if text::is_blank(name) {
            "beer"@
        } else {
            name
        },
        None => "beer"@,
    }
}

/// Finds the name of the beer.
pub fn resolve_beer_name(beer_type: Option<String>) -> (r: String)
    ensures
        r@ == beer_name(beer_type.deep_view()),
{
    match beer_type {
        Some(name) => {
            if text::blank(name.as_str()) {
                "beer".to_owned()
            } else {
                name
            }
        },
        None => "beer".to_owned(),
    }
}

/// There is always something to name: the name of the beer is never blank.
pub proof fn law_beer_name_is_not_blank(beer_type: Option<Seq<char>>)
    ensures
        !text::is_blank(beer_name(beer_type)),
{
    reveal_strlit("beer");
    assert(!text::is_white_space("beer"@[0]));
}

// ---------------------------------------------------------------------------
// Who may order
// ---------------------------------------------------------------------------

/// Why an order was not taken.
#[derive(Debug, PartialEq, Eq)]
pub enum OrderError {
    Unauthenticated,
    Forbidden { display_name: String, required_role: String },
}

/// `OrderError` over sequences of characters.
pub enum OrderErrorView {
    Unauthenticated,
    Forbidden { display_name: Seq<char>, required_role: Seq<char> },
}

impl View for OrderError {
    type V = OrderErrorView;

    open spec fn view(&self) -> OrderErrorView {
        match *self {
            OrderError::Unauthenticated => OrderErrorView::Unauthenticated,
            OrderError::Forbidden { display_name, required_role } => OrderErrorView::Forbidden {
                display_name: display_name@,
                required_role: required_role@,
            },
        }
    }
}

impl OrderErrorView {
    /// What the client is told.
    pub open spec fn message(self) -> Seq<char> {
        match self {
            OrderErrorView::Unauthenticated =>
                "Authentication required to order beer. Please provide R_token and R_url headers."@,
            OrderErrorView::Forbidden { display_name, required_role } =>
                rancher_auth::forbidden_text(display_name, required_role),
        }
    }
}

impl OrderError {
    /// The JSON-RPC error code that the client gets: every refusal is that of an invalid request.
    pub fn code(&self) -> (r: i32)
        ensures
            r == -32600,
    {
        -32600
    }

    /// What the client is told.
    pub fn message(&self) -> (r: String)
        ensures
            r@ == self@.message(),
            self matches OrderError::Forbidden { display_name, required_role } ==> r@
                == "Forbidden: user \""@ + display_name@
                + "\" does not have the required role \""@ + required_role@ + "\""@,
    {
        match self {
            OrderError::Unauthenticated =>
                "Authentication required to order beer. Please provide R_token and R_url headers.".to_owned(),
            OrderError::Forbidden { display_name, required_role } =>
                rancher_auth::forbidden_message(display_name.as_str(), required_role.as_str()),
        }
    }
}

/// Why an order is not taken, if it is not: there has to be somebody behind it, who holds the
/// required role.
pub open spec fn objection(
    required_role: Seq<char>,
    auth: Option<AuthContextView>,
) -> Option<OrderErrorView> {
    match auth {
        None => Some(OrderErrorView::Unauthenticated),
        Some(context) => if context.roles.contains(required_role) {
            None
        } else {
            Some(
                OrderErrorView::Forbidden { display_name: context.display_name, required_role },
            )
        },
    }
}

/// Whoever passed the authentication for a role may order where that role is required, by a
/// request that the context of the authentication is attached to.
pub proof fn law_authenticated_user_may_order(
    required_role: Seq<char>,
    rancher_url: Seq<char>,
    users: session::Fetched<Seq<rancher_auth::RancherUserView>>,
    bindings: session::Fetched<Seq<Seq<char>>>,
    context: AuthContextView,
    extensions: http::Extensions,
)
    requires
        web::attached_context(extensions) == Some(context),
        session::authenticated(required_role, rancher_url, users, bindings) == Ok::<
            AuthContextView,
            rancher_auth::AuthErrorView,
        >(context),
    ensures
        objection(required_role, web::attached_context(extensions)) is None,
{
    session::law_no_pass_without_role(required_role, rancher_url, users, bindings, context);
}

/// A request without credentials is let through, so that the tools can be listed, but nothing
/// can be ordered by it.
pub proof fn law_anonymous_request_cannot_order(required_role: Seq<char>)
    ensures
        rancher_auth::gate(required_role, None, None) is PassThrough,
        objection(required_role, None) == Some(OrderErrorView::Unauthenticated),
{
}

// ---------------------------------------------------------------------------
// The service
// ---------------------------------------------------------------------------

/// The shortest time that an order takes, in milliseconds.
pub const MIN_PROCESSING_MS: u64 = 2000;

/// The longest time that an order takes, in milliseconds.
pub const MAX_PROCESSING_MS: u64 = 4000;

/// An order that was taken and is being processed.
#[derive(Debug, PartialEq, Eq)]
pub struct PendingOrder {
    beer: String,
    total_ms: u64,
}

impl PendingOrder {
    #[verifier::type_invariant]
    spec fn inv(self) -> bool {
        MIN_PROCESSING_MS <= self.total_ms <= MAX_PROCESSING_MS
    }

    /// The beer that was ordered.
    pub closed spec fn ordered(self) -> Seq<char> {
        self.beer@
    }

    /// The time that the order takes, in milliseconds.
    pub closed spec fn duration_ms(self) -> u64 {
        self.total_ms
    }

    /// An order for `beer` that takes the given time.
    pub fn lasting(beer: String, total_ms: u64) -> (r: PendingOrder)
        requires
            MIN_PROCESSING_MS <= total_ms <= MAX_PROCESSING_MS,
        ensures
            r.ordered() == beer@,
            r.duration_ms() == total_ms,
    {
        PendingOrder { beer, total_ms }
    }

    /// The beer that was ordered.
    pub fn beer(&self) -> (r: &String)
        ensures
            r@ == self.ordered(),
    {
        &self.beer
    }

    /// How long each of the two halves of the processing takes, in milliseconds.
    pub fn half_ms(&self) -> (r: u64)
        ensures
            r == self.duration_ms() / 2,
            MIN_PROCESSING_MS <= 2 * r <= MAX_PROCESSING_MS,
    {
        proof {
            use_type_invariant(self);
        }
        self.total_ms / 2
    }

    /// Confirms the order by one of the templates, drawn at random.
    pub fn confirm(&self) -> (r: String)
        ensures
            exists|i: int|
                0 <= i < RESPONSES.len() && r@ == filled(#[trigger] RESPONSES[i]@, self.ordered()),
            text::occurs(r@, self.ordered()),
    {
        match chance::choose_text(&RESPONSES) {
            Some(template) => {
                proof {
                    let i = choose|i: int| 0 <= i < RESPONSES.len() && RESPONSES[i] == *template;
                    law_confirmation_mentions_beer(i, self.beer@);
                    assert(filled(RESPONSES[i]@, self.beer@) == filled(template@, self.beer@));
                }
                fill_template(template, self.beer.as_str())
            },
            None => vstd::pervasive::unreached(),
        }
    }
}

/// The protocol versions that the server can name.
#[derive(Debug, Clone, Copy, PartialEq, Eq)]
pub enum ProtocolVersion {
    /// The version of 5 November 2024.
    V20241105,
}

/// The capability to offer tools.
#[derive(Debug, Clone, Copy, PartialEq, Eq)]
pub struct ToolsCapability {}

/// What the server can do.
#[derive(Debug, Clone, Copy, PartialEq, Eq)]
pub struct ServerCapabilities {
    pub tools: Option<ToolsCapability>,
}

/// How the server introduces itself.
#[derive(Debug, PartialEq, Eq)]
pub struct ServerInfo {
    pub capabilities: ServerCapabilities,
    pub protocol_version: ProtocolVersion,
    pub instructions: String,
}

/// The service that takes orders.
#[derive(Debug, Clone, PartialEq, Eq)]
pub struct BeerOrderService {
    required_role: String,
}

impl Default for BeerOrderService {
    fn default() -> (r: Self)
        ensures
            r.role() == Seq::<char>::empty(),
    {
        BeerOrderService { required_role: String::new() }
    }
}

impl BeerOrderService {
    /// The role that it takes to order.
    pub closed spec fn role(self) -> Seq<char> {
        self.required_role@
    }

    /// A service that takes orders of those who hold the given role.
    pub fn new(required_role: String) -> (r: Self)
        ensures
            r.role() == required_role@,
    {
        let mut service: BeerOrderService = BeerOrderService::default();
        service.required_role = required_role;
        service
    }

    /// The role that it takes to order.
    pub fn required_role(&self) -> (r: &String)
        ensures
            r@ == self.role(),
    {
        &self.required_role
    }

    /// Whether an order is taken of whoever is behind the request.
    pub fn authorize(&self, auth: Option<&AuthContext>) -> (r: Result<(), OrderError>)
        ensures
            r is Ok <==> objection(self.role(), context_view(auth)) is None,
            r matches Err(error) ==> objection(self.role(), context_view(auth)) == Some(error@),
            auth is None ==> r == Err::<(), OrderError>(OrderError::Unauthenticated),
            auth matches Some(context) ==> {
                &&& r is Ok <==> exists|i: int|
                    0 <= i < context.roles@.len() && (#[trigger] context.roles@[i])@ == self.role()
                &&& r is Err ==> {
                    &&& r->Err_0 is Forbidden
                    &&& r->Err_0->display_name@ == context.display_name@
                    &&& r->Err_0->required_role@ == self.role()
                }
            },
    {
        match auth {
            None => Err(OrderError::Unauthenticated),
            Some(context) => {
                if context.has_role(&self.required_role) {
                    Ok(())
                } else {
                    Err(
                        OrderError::Forbidden {
                            display_name: context.display_name.clone(),
                            required_role: self.required_role.clone(),
                        },
                    )
                }
            },
        }
    }

    /// Takes an order by a request with the given attachments, or says why not. How long its
    /// processing takes is drawn at random.
    pub fn order_beer(&self, extensions: &http::Extensions, params: OrderBeerParams) -> (r: Result<
        PendingOrder,
        OrderError,
    >)
        ensures
            r is Ok <==> objection(self.role(), web::attached_context(*extensions)) is None,
            r matches Err(error) ==> objection(self.role(), web::attached_context(*extensions))
                == Some(error@),
            r matches Ok(order) ==> {
                &&& order.ordered() == beer_name(params.beer_type.deep_view())
                &&& MIN_PROCESSING_MS <= order.duration_ms() <= MAX_PROCESSING_MS
                &&& 2000 <= order.duration_ms() <= 4000
            },
    {
        match self.authorize(web::context_of(extensions)) {
            Err(error) => Err(error),
            Ok(()) => {
                let beer: String = resolve_beer_name(params.beer_type);
                let total_ms: u64 = chance::random_between(MIN_PROCESSING_MS, MAX_PROCESSING_MS);
                Ok(PendingOrder::lasting(beer, total_ms))
            },
        }
    }

    /// How the server introduces itself: it offers tools, and says how to order.
    pub fn get_info(&self) -> (r: ServerInfo)
        ensures
            r.capabilities.tools is Some,
            r.protocol_version is V20241105,
            r.instructions@ == INSTRUCTIONS@,
    {
        ServerInfo {
            capabilities: ServerCapabilities { tools: Some(ToolsCapability {  }) },
            protocol_version: ProtocolVersion::V20241105,
            instructions: INSTRUCTIONS.to_owned(),
        }
    }
}

/// What a health check is answered.
pub fn health() -> (r: &'static str)
    ensures
        r@ == "OK"@,
{
    "OK"
}

/// How to order, for a client that asks.
pub const INSTRUCTIONS: &'static str = "Beer ordering service for SUSECON. \
     Call order_beer to place a beer order. \
     A human will deliver the beer to you after the order is confirmed.";

/// Who is behind a request, over sequences of characters.
pub open spec fn context_view(auth: Option<&AuthContext>) -> Option<AuthContextView> {
    match auth {
        Some(context) => Some(context@),
        None => None,
    }
}

} // verus!
