//! What the service promises, in terms of what goes in and what comes out.
use crate::beer;
use crate::rancher_auth;
use crate::rancher_auth::{
    AuthContext, AuthContextView, AuthError, AuthErrorView, GateView, GlobalRoleBinding,
    RancherCollection, RancherUser, RancherUserView,
};
use crate::session;
use crate::session::{
    AuthAction, AuthActionView, AuthEvent, AuthEventView, AuthSessionView, Exchange, PhaseView,
};
use crate::settings;
use crate::text;
use crate::web;
use vstd::prelude::*;

verus! {

// ---------------------------------------------------------------------------
// Confirmations
// ---------------------------------------------------------------------------

/// Where a template is `a + "{beer}" + b` and holds the placeholder nowhere else, the beer takes
/// the place of the placeholder, and what stands before and after it is kept.
pub proof fn law_beer_takes_the_place(a: Seq<char>, b: Seq<char>, name: Seq<char>)
    requires
        forall|x: Seq<char>, y: Seq<char>|
            a + "{beer}"@ + b == #[trigger] (x + "{beer}"@ + y) ==> x.len() == a.len(),
    ensures
        beer::filled(a + "{beer}"@ + b, name) == a + name + b,
{
    reveal_strlit("{beer}");
    text::law_only_occurrence_gives_way(a, "{beer}"@, b, name);
}

/// Where a template holds several placeholders, each gives way to the beer: the first one does,
/// and the rest of the template is filled in behind it.
pub proof fn law_each_placeholder_gives_way(a: Seq<char>, b: Seq<char>, name: Seq<char>)
    requires
        forall|x: Seq<char>, y: Seq<char>|
            a + "{beer}"@ + b == #[trigger] (x + "{beer}"@ + y) ==> x.len() >= a.len(),
    ensures
        beer::filled(a + "{beer}"@ + b, name) == a + name + beer::filled(b, name),
{
    reveal_strlit("{beer}");
    text::law_first_occurrence_gives_way(a, "{beer}"@, b, name);
}

/// A template without a placeholder is the confirmation as it stands.
pub proof fn law_template_without_placeholder(s: Seq<char>, name: Seq<char>)
    requires
        forall|x: Seq<char>, y: Seq<char>| s != #[trigger] (x + "{beer}"@ + y),
    ensures
        beer::filled(s, name) == s,
{
    reveal_strlit("{beer}");
    text::law_other_text_is_kept(s, "{beer}"@, name);
}

/// Two texts without a brace hold no placeholder but the one that is put between them.
proof fn lemma_only_brace(a: Seq<char>, b: Seq<char>)
    requires
        forall|j: int| 0 <= j < a.len() ==> #[trigger] a[j] != '{',
        forall|j: int| 0 <= j < b.len() ==> #[trigger] b[j] != '{',
    ensures
        forall|x: Seq<char>, y: Seq<char>|
            a + "{beer}"@ + b == #[trigger] (x + "{beer}"@ + y) ==> x.len() == a.len(),
{
    reveal_strlit("{beer}");
    let s = a + "{beer}"@ + b;
    assert forall|x: Seq<char>, y: Seq<char>|
        s == #[trigger] (x + "{beer}"@ + y) implies x.len() == a.len() by {
        let k = x.len() as int;
        assert((x + "{beer}"@ + y)[k] == '{');
        assert(s[k] == '{');
        assert(k + 6 <= s.len()) by {
            assert((x + "{beer}"@ + y).len() == k + 6 + y.len());
        }
        if k < a.len() {
            assert(s[k] == a[k]);
        } else if k >= a.len() + 6 {
            assert(s[k] == b[k - a.len() - 6]);
        } else {
            assert(s[k] == "{beer}"@[k - a.len()]);
        }
    }
}

/// The confirmation by template 0 of the list.
proof fn lemma_confirmation_0(name: Seq<char>)
    ensures
        beer::filled(beer::RESPONSES[0]@, name) == "Order confirmed! Your "@ + name + " is being pulled from the tap right now. A human is on their way to you. Cheers! 🍺"@,
{
    let a = "Order confirmed! Your "@;
    let b = " is being pulled from the tap right now. A human is on their way to you. Cheers! 🍺"@;
    reveal_strlit("{beer}");
    reveal_strlit("Order confirmed! Your {beer} is being pulled from the tap right now. A human is on their way to you. Cheers! 🍺");
    reveal_strlit("Order confirmed! Your ");
    reveal_strlit(" is being pulled from the tap right now. A human is on their way to you. Cheers! 🍺");
    assert(beer::RESPONSES[0]@ =~= a + "{beer}"@ + b);
    assert(forall|j: int| 0 <= j < a.len() ==> #[trigger] a[j] != '{');
    assert(forall|j: int| 0 <= j < b.len() ==> #[trigger] b[j] != '{');
    lemma_only_brace(a, b);
    law_beer_takes_the_place(a, b, name);
}

/// The confirmation by template 1 of the list.
proof fn lemma_confirmation_1(name: Seq<char>)
    ensures
        beer::filled(beer::RESPONSES[1]@, name) == "Beer ordered successfully! Our finest human courier is already heading your way with your "@ + name + ". Shouldn't be long!"@,
{
    let a = "Beer ordered successfully! Our finest human courier is already heading your way with your "@;
    let b = ". Shouldn't be long!"@;
    reveal_strlit("{beer}");
    reveal_strlit("Beer ordered successfully! Our finest human courier is already heading your way with your {beer}. Shouldn't be long!");
    reveal_strlit("Beer ordered successfully! Our finest human courier is already heading your way with your ");
    reveal_strlit(". Shouldn't be long!");
    assert(beer::RESPONSES[1]@ =~= a + "{beer}"@ + b);
    assert(forall|j: int| 0 <= j < a.len() ==> #[trigger] a[j] != '{');
    assert(forall|j: int| 0 <= j < b.len() ==> #[trigger] b[j] != '{');
    lemma_only_brace(a, b);
    law_beer_takes_the_place(a, b, name);
}

/// The confirmation by template 2 of the list.
proof fn lemma_confirmation_2(name: Seq<char>)
    ensures
        beer::filled(beer::RESPONSES[2]@, name) == "Done! The order went through. A real, live human is currently en route with your "@ + name + ". ETA: very soon. 🍻"@,
{
    let a = "Done! The order went through. A real, live human is currently en route with your "@;
    let b = ". ETA: very soon. 🍻"@;
    reveal_strlit("{beer}");
    reveal_strlit("Done! The order went through. A real, live human is currently en route with your {beer}. ETA: very soon. 🍻");
    reveal_strlit("Done! The order went through. A real, live human is currently en route with your ");
    reveal_strlit(". ETA: very soon. 🍻");
    assert(beer::RESPONSES[2]@ =~= a + "{beer}"@ + b);
    assert(forall|j: int| 0 <= j < a.len() ==> #[trigger] a[j] != '{');
    assert(forall|j: int| 0 <= j < b.len() ==> #[trigger] b[j] != '{');
    lemma_only_brace(a, b);
    law_beer_takes_the_place(a, b, name);
}

/// The confirmation by template 3 of the list.
proof fn lemma_confirmation_3(name: Seq<char>)
    ensures
        beer::filled(beer::RESPONSES[3]@, name) == "Your "@ + name + " has been ordered. We've activated the human delivery protocol — our most reliable operative is en route."@,
{
    let a = "Your "@;
    let b = " has been ordered. We've activated the human delivery protocol — our most reliable operative is en route."@;
    reveal_strlit("{beer}");
    reveal_strlit("Your {beer} has been ordered. We've activated the human delivery protocol — our most reliable operative is en route.");
    reveal_strlit("Your ");
    reveal_strlit(" has been ordered. We've activated the human delivery protocol — our most reliable operative is en route.");
    assert(beer::RESPONSES[3]@ =~= a + "{beer}"@ + b);
    assert(forall|j: int| 0 <= j < a.len() ==> #[trigger] a[j] != '{');
    assert(forall|j: int| 0 <= j < b.len() ==> #[trigger] b[j] != '{');
    lemma_only_brace(a, b);
    law_beer_takes_the_place(a, b, name);
}

/// The confirmation by template 4 of the list.
proof fn lemma_confirmation_4(name: Seq<char>)
    ensures
        beer::filled(beer::RESPONSES[4]@, name) == "Order received and confirmed! A friendly human has been dispatched with your "@ + name + ". They are extremely motivated."@,
{
    let a = "Order received and confirmed! A friendly human has been dispatched with your "@;
    let b = ". They are extremely motivated."@;
    reveal_strlit("{beer}");
    reveal_strlit("Order received and confirmed! A friendly human has been dispatched with your {beer}. They are extremely motivated.");
    reveal_strlit("Order received and confirmed! A friendly human has been dispatched with your ");
    reveal_strlit(". They are extremely motivated.");
    assert(beer::RESPONSES[4]@ =~= a + "{beer}"@ + b);
    assert(forall|j: int| 0 <= j < a.len() ==> #[trigger] a[j] != '{');
    assert(forall|j: int| 0 <= j < b.len() ==> #[trigger] b[j] != '{');
    lemma_only_brace(a, b);
    law_beer_takes_the_place(a, b, name);
}

/// The confirmation by template 5 of the list.
proof fn lemma_confirmation_5(name: Seq<char>)
    ensures
        beer::filled(beer::RESPONSES[5]@, name) == "🍺 Tap room notified! Your "@ + name + " is being poured and a human delivery agent is heading your way as we speak."@,
{
    let a = "🍺 Tap room notified! Your "@;
    let b = " is being poured and a human delivery agent is heading your way as we speak."@;
    reveal_strlit("{beer}");
    reveal_strlit("🍺 Tap room notified! Your {beer} is being poured and a human delivery agent is heading your way as we speak.");
    reveal_strlit("🍺 Tap room notified! Your ");
    reveal_strlit(" is being poured and a human delivery agent is heading your way as we speak.");
    assert(beer::RESPONSES[5]@ =~= a + "{beer}"@ + b);
    assert(forall|j: int| 0 <= j < a.len() ==> #[trigger] a[j] != '{');
    assert(forall|j: int| 0 <= j < b.len() ==> #[trigger] b[j] != '{');
    lemma_only_brace(a, b);
    law_beer_takes_the_place(a, b, name);
}

/// The confirmation by template 6 of the list.
proof fn lemma_confirmation_6(name: Seq<char>)
    ensures
        beer::filled(beer::RESPONSES[6]@, name) == "Confirmed! The "@ + name + " order went through. A human — fully biological, highly motivated — is on their way right now."@,
{
    let a = "Confirmed! The "@;
    let b = " order went through. A human — fully biological, highly motivated — is on their way right now."@;
    reveal_strlit("{beer}");
    reveal_strlit("Confirmed! The {beer} order went through. A human — fully biological, highly motivated — is on their way right now.");
    reveal_strlit("Confirmed! The ");
    reveal_strlit(" order went through. A human — fully biological, highly motivated — is on their way right now.");
    assert(beer::RESPONSES[6]@ =~= a + "{beer}"@ + b);
    assert(forall|j: int| 0 <= j < a.len() ==> #[trigger] a[j] != '{');
    assert(forall|j: int| 0 <= j < b.len() ==> #[trigger] b[j] != '{');
    lemma_only_brace(a, b);
    law_beer_takes_the_place(a, b, name);
}

/// The confirmation by template 7 of the list.
proof fn lemma_confirmation_7(name: Seq<char>)
    ensures
        beer::filled(beer::RESPONSES[7]@, name) == "Order placed! Your "@ + name + " awaits. A human (the best delivery system ever invented) is currently en route with your order."@,
{
    let a = "Order placed! Your "@;
    let b = " awaits. A human (the best delivery system ever invented) is currently en route with your order."@;
    reveal_strlit("{beer}");
    reveal_strlit("Order placed! Your {beer} awaits. A human (the best delivery system ever invented) is currently en route with your order.");
    reveal_strlit("Order placed! Your ");
    reveal_strlit(" awaits. A human (the best delivery system ever invented) is currently en route with your order.");
    assert(beer::RESPONSES[7]@ =~= a + "{beer}"@ + b);
    assert(forall|j: int| 0 <= j < a.len() ==> #[trigger] a[j] != '{');
    assert(forall|j: int| 0 <= j < b.len() ==> #[trigger] b[j] != '{');
    lemma_only_brace(a, b);
    law_beer_takes_the_place(a, b, name);
}

/// The confirmations in full: for every beer, the text around its name is the same.
pub proof fn law_confirmation_texts(name: Seq<char>)
    ensures
        beer::RESPONSES.len() == 8,
        beer::filled(beer::RESPONSES[0]@, name) == "Order confirmed! Your "@ + name
            + " is being pulled from the tap right now. A human is on their way to you. Cheers! 🍺"@,
        beer::filled(beer::RESPONSES[1]@, name) == "Beer ordered successfully! Our finest human courier is already heading your way with your "@ + name
            + ". Shouldn't be long!"@,
        beer::filled(beer::RESPONSES[2]@, name) == "Done! The order went through. A real, live human is currently en route with your "@ + name
            + ". ETA: very soon. 🍻"@,
        beer::filled(beer::RESPONSES[3]@, name) == "Your "@ + name
            + " has been ordered. We've activated the human delivery protocol — our most reliable operative is en route."@,
        beer::filled(beer::RESPONSES[4]@, name) == "Order received and confirmed! A friendly human has been dispatched with your "@ + name
            + ". They are extremely motivated."@,
        beer::filled(beer::RESPONSES[5]@, name) == "🍺 Tap room notified! Your "@ + name
            + " is being poured and a human delivery agent is heading your way as we speak."@,
        beer::filled(beer::RESPONSES[6]@, name) == "Confirmed! The "@ + name
            + " order went through. A human — fully biological, highly motivated — is on their way right now."@,
        beer::filled(beer::RESPONSES[7]@, name) == "Order placed! Your "@ + name
            + " awaits. A human (the best delivery system ever invented) is currently en route with your order."@,
{
    lemma_confirmation_0(name);
    lemma_confirmation_1(name);
    lemma_confirmation_2(name);
    lemma_confirmation_3(name);
    lemma_confirmation_4(name);
    lemma_confirmation_5(name);
    lemma_confirmation_6(name);
    lemma_confirmation_7(name);
}

// ---------------------------------------------------------------------------
// Orders
// ---------------------------------------------------------------------------

/// A name that holds a character other than white space is kept, whatever it is. Any other, or
/// none, gives `beer`.
pub proof fn law_name_is_kept(name: Seq<char>, i: int)
    ensures
        0 <= i < name.len() && !text::is_white_space(name[i]) ==> beer::beer_name(Some(name)) == name,
        (forall|j: int| 0 <= j < name.len() ==> text::is_white_space(#[trigger] name[j]))
            ==> beer::beer_name(Some(name)) == "beer"@,
        beer::beer_name(None) == "beer"@,
{
}

/// An order is objected to unless somebody is behind it, one of whose roles is the required one.
/// The objection names the user and the role.
pub proof fn law_only_role_holders_order(required_role: Seq<char>, context: AuthContextView)
    ensures
        beer::objection(required_role, None) == Some(beer::OrderErrorView::Unauthenticated),
        beer::objection(required_role, Some(context)) is None <==> exists|i: int|
            0 <= i < context.roles.len() && #[trigger] context.roles[i] == required_role,
        !context.roles.contains(required_role) ==> beer::objection(required_role, Some(context))
            == Some(
            beer::OrderErrorView::Forbidden { display_name: context.display_name, required_role },
        ),
{
}

/// Who is behind a request is the context that is attached to it.
pub proof fn law_attached_context(extensions: http::Extensions, context: AuthContextView)
    ensures
        web::attached_contexts(extensions) == Seq::<AuthContextView>::empty()
            ==> web::attached_context(extensions) is None,
        web::attached_contexts(extensions) == seq![context] ==> web::attached_context(extensions)
            == Some(context),
{
}

/// The texts of the objections.
pub proof fn law_objections_are_worded(display_name: Seq<char>, required_role: Seq<char>)
    ensures
        beer::OrderErrorView::Unauthenticated.message()
            == "Authentication required to order beer. Please provide R_token and R_url headers."@,
        (beer::OrderErrorView::Forbidden { display_name, required_role }).message()
            == "Forbidden: user \""@ + display_name + "\" does not have the required role \""@
            + required_role + "\""@,
{
}

/// An order takes two to four seconds.
pub proof fn law_processing_bounds()
    ensures
        beer::MIN_PROCESSING_MS == 2000,
        beer::MAX_PROCESSING_MS == 4000,
{
}

// ---------------------------------------------------------------------------
// Configuration
// ---------------------------------------------------------------------------

/// A role that is given is the role, whatever it is. The default is used only where none is given.
pub proof fn law_given_role_is_required(role: Seq<char>)
    ensures
        settings::required_role_of(Some(role)) == role,
        settings::required_role_of(None) == "susecon-beer"@,
{
}

/// Certificates are verified except for the two values that switch it off.
pub proof fn law_tls_verification(value: Seq<char>)
    ensures
        settings::tls_verify_of(Some(value)) <==> !(value == "false"@ || value == "0"@),
        settings::tls_verify_of(None),
{
}

/// The port is the number that is given, where it is one: each further digit counts, and whatever
/// is not a number below 65536 gives the default.
pub proof fn law_port(value: Seq<char>)
    ensures
        settings::port_of(None) == 3000,
        text::u16_written(value) is None ==> settings::port_of(Some(value)) == 3000,
        text::u16_written(value) matches Some(n) ==> settings::port_of(Some(value)) == n,
{
}

/// The address to listen on ends in the writing of the port, and no two ports share one.
pub proof fn law_bind_address(port: u16, other: u16)
    ensures
        settings::bind_address_of(port).take(8) == "0.0.0.0:"@,
        text::u16_written(settings::bind_address_of(port).skip(8)) == Some(port),
        settings::bind_address_of(port).len() > 9 ==> settings::bind_address_of(port)[8] != '0',
        port != other ==> settings::bind_address_of(port) != settings::bind_address_of(other),
{
    reveal_strlit("0.0.0.0:");
    text::law_number_writing(port);
    text::law_number_writing(other);
    assert(settings::bind_address_of(port).take(8) =~= "0.0.0.0:"@);
    assert(settings::bind_address_of(port).skip(8) =~= text::decimal(port as nat));
    assert(settings::bind_address_of(other).skip(8) =~= text::decimal(other as nat));
}

// ---------------------------------------------------------------------------
// Requests
// ---------------------------------------------------------------------------

/// A header is read as the text of its bytes, where they are visible ASCII or tabs and there is
/// at least one. Anything else counts as no header. It is looked up by its name in lower case.
pub proof fn law_headers_are_read(headers: http::HeaderMap, name: Seq<char>, key: Seq<char>)
    requires
        key.len() == name.len(),
        forall|i: int|
            0 <= i < name.len() ==> if 'A' <= #[trigger] name[i] <= 'Z' {
                key[i] as int == name[i] as int + 32
            } else {
                key[i] == name[i]
            },
    ensures
        web::header_text(headers, name) is Some <==> {
            &&& web::header_values(headers).contains_key(key)
            &&& web::header_values(headers)[key].len() > 0
            &&& forall|i: int|
                0 <= i < web::header_values(headers)[key].len() ==> 32
                    <= #[trigger] web::header_values(headers)[key][i] <= 126
                    || web::header_values(headers)[key][i] == 9
        },
        web::header_text(headers, name) matches Some(read) ==> {
            &&& read.len() == web::header_values(headers)[key].len()
            &&& forall|i: int|
                0 <= i < read.len() ==> #[trigger] read[i] == web::header_values(
                    headers,
                )[key][i] as char
        },
{
    assert(web::ascii_lowered(name) =~= key);
}

/// A request without credentials goes on, one with half of them is rejected. With both, a
/// conversation is started: it checks for the configured role, carries the token of the request,
/// and is held with the server at the address of the request, but for the slashes at its end. Its
/// first action is to ask that server who the user is.
pub proof fn law_request_is_gated(
    required_role: Seq<char>,
    token: Seq<char>,
    url: Seq<char>,
)
    ensures
        rancher_auth::gate(required_role, None, None) == GateView::PassThrough,
        rancher_auth::gate(required_role, Some(token), None) == GateView::Reject(
            AuthErrorView::MissingHeaders,
        ),
        rancher_auth::gate(required_role, None, Some(url)) == GateView::Reject(
            AuthErrorView::MissingHeaders,
        ),
        ({
            let decision = rancher_auth::gate(required_role, Some(token), Some(url));
            let session = decision->session;
            let server = session.rancher_url;
            &&& decision is Authenticate
            &&& session.required_role == required_role
            &&& session.token == token
            &&& session.phase == PhaseView::Identifying
            &&& session.exchange == Exchange::Sending
            &&& server.len() <= url.len()
            &&& server == url.take(server.len() as int)
            &&& server.len() > 0 ==> server.last() != '/'
            &&& forall|i: int| server.len() <= i < url.len() ==> #[trigger] url[i] == '/'
            &&& decision->action == AuthActionView::Get { url: server + "/v3/users?me"@, token }
        }),
{
    text::law_without_trailing(url, '/');
}

/// Where Rancher answers both questions about a request with credentials, the request passes if
/// the user is bound to the configured role, under the name and with the roles that Rancher gave.
/// Otherwise the outcome is that the user lacks the configured role. The first user of the list
/// is the one whose bindings are asked for.
pub proof fn law_request_is_judged(
    required_role: Seq<char>,
    token: Seq<char>,
    url: Seq<char>,
    first: u16,
    users: Seq<RancherUserView>,
    second: u16,
    roles: Seq<Seq<char>>,
)
    requires
        200 <= first <= 299,
        200 <= second <= 299,
        users.len() > 0,
    ensures
        ({
            let s0 = rancher_auth::gate(required_role, Some(token), Some(url))->session;
            let (s1, a1) = s0.after(AuthEventView::Status(first));
            let (s2, a2) = s1.after(AuthEventView::Users(users));
            let (s3, a3) = s2.after(AuthEventView::Status(second));
            let (s4, a4) = s3.after(AuthEventView::Bindings(roles));
            let name = match users[0].username {
                Some(username) => username,
                None => "unknown"@,
            };
            &&& s0.expects(AuthEventView::Status(first))
            &&& a1 == AuthActionView::ReadUsers
            &&& s1.expects(AuthEventView::Users(users))
            &&& a2 == AuthActionView::Get {
                url: s0.rancher_url + "/v3/globalRoleBindings?userId="@ + users[0].id,
                token,
            }
            &&& s2.expects(AuthEventView::Status(second))
            &&& a3 == AuthActionView::ReadBindings
            &&& s3.expects(AuthEventView::Bindings(roles))
            &&& s4.phase is Finished
            &&& roles.contains(required_role) ==> a4 == AuthActionView::Finish(
                Ok(AuthContextView { display_name: name, roles }),
            )
            &&& !roles.contains(required_role) ==> a4 == AuthActionView::Finish(
                Err(
                    AuthErrorView::Forbidden { username: name, required_role, actual_roles: roles },
                ),
            )
        }),
{
}

// ---------------------------------------------------------------------------
// The conversation with Rancher
// ---------------------------------------------------------------------------

/// The bindings are asked for by the whole id of the user: the address is that of the server, a
/// fixed path, and the id at the end. No two ids share an address.
pub proof fn law_bindings_are_those_of_the_user(
    server: Seq<char>,
    user_id: Seq<char>,
    other_id: Seq<char>,
)
    ensures
        session::bindings_url(server, user_id) == server + "/v3/globalRoleBindings?userId="@
            + user_id,
        session::bindings_url(server, user_id).len() >= user_id.len(),
        session::bindings_url(server, user_id).skip(
            session::bindings_url(server, user_id).len() - user_id.len(),
        ) == user_id,
        user_id != other_id ==> session::bindings_url(server, user_id) != session::bindings_url(
            server,
            other_id,
        ),
{
    let head = server + "/v3/globalRoleBindings?userId="@;
    assert((head + user_id).skip(head.len() as int) =~= user_id);
    assert((head + other_id).skip(head.len() as int) =~= other_id);
}

/// The address of the document that a conversation is about.
proof fn lemma_documents(s: AuthSessionView)
    ensures
        s.phase is Identifying ==> s.url() == s.rancher_url + "/v3/users?me"@,
        s.phase matches PhaseView::Checking { user_id, .. } ==> s.url() == s.rancher_url
            + "/v3/globalRoleBindings?userId="@ + user_id,
{
}

/// A conversation starts with what it was given, and by asking who the user is.
pub proof fn law_conversation_start(required_role: Seq<char>, token: Seq<char>, server: Seq<char>)
    ensures
        ({
            let s = AuthSessionView::started(required_role, token, server);
            &&& s.required_role == required_role
            &&& s.token == token
            &&& s.rancher_url == server
            &&& s.phase == PhaseView::Identifying
            &&& s.exchange == Exchange::Sending
            &&& s.pending() == AuthActionView::Get { url: server + "/v3/users?me"@, token }
        }),
{
}

/// A status code of 200 to 299 leads on to the document that was asked for, any other to the
/// explanation. Nothing else changes.
pub proof fn law_status(s: AuthSessionView, status: u16)
    requires
        !(s.phase is Finished),
    ensures
        200 <= status <= 299 ==> s.after(AuthEventView::Status(status)) == (
            (AuthSessionView { exchange: Exchange::ReadingDocument, ..s }),
            if s.phase is Identifying {
                AuthActionView::ReadUsers
            } else {
                AuthActionView::ReadBindings
            },
        ),
        !(200 <= status <= 299) ==> s.after(AuthEventView::Status(status)) == (
            (AuthSessionView { exchange: Exchange::ReadingRefusal { status }, ..s }),
            AuthActionView::ReadText,
        ),
{
}

/// Where a document could not be had, the conversation is over, and the error says which document
/// it was and all that is known of the failure.
pub proof fn law_failures(s: AuthSessionView, detail: Seq<char>, status: u16)
    requires
        !(s.phase is Finished),
    ensures
        ({
            let url = match s.phase {
                PhaseView::Checking { user_id, .. } => s.rancher_url
                    + "/v3/globalRoleBindings?userId="@ + user_id,
                _ => s.rancher_url + "/v3/users?me"@,
            };
            let refused = "Rancher returned "@ + (text::decimal(status as nat) + " "@
                + web::status_reason(status)) + " for "@ + url + ". Body: "@;
            let over = AuthSessionView { phase: PhaseView::Finished, ..s };
            &&& s.after(AuthEventView::Unreachable(detail)) == (
                over,
                AuthActionView::Finish(
                    Err(AuthErrorView::RancherUnreachable(url + ": "@ + detail)),
                ),
            )
            &&& s.after(AuthEventView::Unparsed(detail)) == (
                over,
                AuthActionView::Finish(
                    Err(AuthErrorView::BadGateway("failed to parse "@ + url + ": "@ + detail)),
                ),
            )
            &&& s.exchange == (Exchange::ReadingRefusal { status }) ==> {
                &&& s.after(AuthEventView::Text(detail)) == (
                    over,
                    AuthActionView::Finish(Err(AuthErrorView::InvalidToken(refused + detail))),
                )
                &&& s.after(AuthEventView::Unread) == (
                    over,
                    AuthActionView::Finish(Err(AuthErrorView::InvalidToken(refused))),
                )
            }
        }),
{
    reveal_strlit("");
    lemma_documents(s);
    let refused = "Rancher returned "@ + (text::decimal(status as nat) + " "@ + web::status_reason(
        status,
    )) + " for "@ + s.url() + ". Body: "@;
    assert(refused + ""@ =~= refused);
}

/// The first user of the list is the user, whose bindings are asked for next. A token that no
/// user is listed for is invalid.
pub proof fn law_user_is_identified(s: AuthSessionView, users: Seq<RancherUserView>)
    ensures
        users.len() == 0 ==> s.after(AuthEventView::Users(users)) == (
            (AuthSessionView { phase: PhaseView::Finished, ..s }),
            AuthActionView::Finish(Err(AuthErrorView::InvalidToken("empty user list"@))),
        ),
        users.len() > 0 ==> s.after(AuthEventView::Users(users)) == (
            (AuthSessionView {
                phase: PhaseView::Checking {
                    username: match users[0].username {
                        Some(username) => username,
                        None => "unknown"@,
                    },
                    user_id: users[0].id,
                },
                exchange: Exchange::Sending,
                ..s
            }),
            AuthActionView::Get {
                url: s.rancher_url + "/v3/globalRoleBindings?userId="@ + users[0].id,
                token: s.token,
            },
        ),
{
}

/// The user passes if one of the bindings is to the role that the conversation checks for.
pub proof fn law_bindings_decide(
    s: AuthSessionView,
    username: Seq<char>,
    user_id: Seq<char>,
    roles: Seq<Seq<char>>,
)
    requires
        s.phase == (PhaseView::Checking { username, user_id }),
    ensures
        s.after(AuthEventView::Bindings(roles)).0 == (AuthSessionView {
            phase: PhaseView::Finished,
            ..s
        }),
        (exists|i: int| 0 <= i < roles.len() && #[trigger] roles[i] == s.required_role) ==> s.after(
            AuthEventView::Bindings(roles),
        ).1 == AuthActionView::Finish(
            Ok(AuthContextView { display_name: username, roles }),
        ),
        (forall|i: int| 0 <= i < roles.len() ==> #[trigger] roles[i] != s.required_role) ==> s.after(
            AuthEventView::Bindings(roles),
        ).1 == AuthActionView::Finish(
            Err(
                AuthErrorView::Forbidden {
                    username,
                    required_role: s.required_role,
                    actual_roles: roles,
                },
            ),
        ),
{
}

/// The action that a conversation waits on: the request for the document it is about, reading the
/// explanation of a refusal, or reading the document.
pub proof fn law_pending_action(s: AuthSessionView)
    requires
        !(s.phase is Finished),
    ensures
        s.exchange is ReadingRefusal ==> s.pending() == AuthActionView::ReadText,
        s.phase is Identifying && s.exchange is ReadingDocument ==> s.pending()
            == AuthActionView::ReadUsers,
        s.phase is Checking && s.exchange is ReadingDocument ==> s.pending()
            == AuthActionView::ReadBindings,
        s.phase is Identifying && s.exchange is Sending ==> s.pending() == (AuthActionView::Get {
            url: s.rancher_url + "/v3/users?me"@,
            token: s.token,
        }),
        s.phase is Checking && s.exchange is Sending ==> s.pending() == (AuthActionView::Get {
            url: s.rancher_url + "/v3/globalRoleBindings?userId="@ + s.phase->user_id,
            token: s.token,
        }),
{
    lemma_documents(s);
}

/// What can come of each action: of a request, silence or a status code; of reading an
/// explanation, the text or nothing; of reading a document, that document or nothing.
pub proof fn law_events_answer_actions(s: AuthSessionView, event: AuthEventView)
    ensures
        s.phase is Finished ==> !s.expects(event),
        !(s.phase is Finished) && s.exchange is Sending ==> (s.expects(event) <==> event
            is Unreachable || (event is Status && 100 <= event->Status_0 <= 999)),
        !(s.phase is Finished) && s.exchange is ReadingRefusal ==> (s.expects(event) <==> event
            is Text || event is Unread),
        s.phase is Identifying && s.exchange is ReadingDocument ==> (s.expects(event) <==> event
            is Users || event is Unparsed),
        s.phase is Checking && s.exchange is ReadingDocument ==> (s.expects(event) <==> event
            is Bindings || event is Unparsed),
{
}

// ---------------------------------------------------------------------------
// Responses
// ---------------------------------------------------------------------------

/// The response to each error. Only the one to a missing role tells anything of the request: the
/// name of the user and the role, in full.
pub proof fn law_responses(
    detail: Seq<char>,
    username: Seq<char>,
    required_role: Seq<char>,
    actual_roles: Seq<Seq<char>>,
)
    ensures
        AuthErrorView::MissingHeaders.status() == 401,
        AuthErrorView::MissingHeaders.body()
            == "Unauthorized: R_token and R_url headers are required"@,
        AuthErrorView::RancherUnreachable(detail).status() == 502,
        AuthErrorView::RancherUnreachable(detail).body()
            == "Authentication failed: unable to reach Rancher server"@,
        AuthErrorView::InvalidToken(detail).status() == 401,
        AuthErrorView::InvalidToken(detail).body()
            == "Unauthorized: invalid or expired Rancher token"@,
        AuthErrorView::BadGateway(detail).status() == 502,
        AuthErrorView::BadGateway(detail).body()
            == "Authentication failed: unexpected response from Rancher"@,
        (AuthErrorView::Forbidden { username, required_role, actual_roles }).status() == 403,
        (AuthErrorView::Forbidden { username, required_role, actual_roles }).body()
            == "Forbidden: user \""@ + username + "\" does not have the required role \""@
            + required_role + "\""@,
{
}

// ---------------------------------------------------------------------------
// Values and what is said of them
// ---------------------------------------------------------------------------

/// What is said of users, bindings and contexts is said of all that they hold.
pub proof fn law_data_is_seen_whole(
    context: AuthContext,
    user: RancherUser,
    binding: GlobalRoleBinding,
)
    ensures
        context@.display_name == context.display_name@,
        context@.roles.len() == context.roles@.len(),
        forall|i: int|
            0 <= i < context.roles@.len() ==> #[trigger] context@.roles[i] == context.roles@[i]@,
        user.deep_view().id == user.id@,
        user.username is None <==> user.deep_view().username is None,
        user.username matches Some(name) ==> user.deep_view().username == Some(name@),
        binding.deep_view() == binding.global_role_id@,
        beer::context_view(Some(&context)) == Some(context@),
        beer::context_view(None) is None,
{
}

/// What is said of errors is said of all that they hold.
pub proof fn law_errors_are_seen_whole(
    detail: String,
    username: String,
    required_role: String,
    actual_roles: Vec<String>,
)
    ensures
        AuthError::MissingHeaders@ == AuthErrorView::MissingHeaders,
        AuthError::RancherUnreachable(detail)@ == AuthErrorView::RancherUnreachable(detail@),
        AuthError::InvalidToken(detail)@ == AuthErrorView::InvalidToken(detail@),
        AuthError::BadGateway(detail)@ == AuthErrorView::BadGateway(detail@),
        (AuthError::Forbidden { username, required_role, actual_roles })@ == (
        AuthErrorView::Forbidden {
            username: username@,
            required_role: required_role@,
            actual_roles: actual_roles.deep_view(),
        }),
        beer::OrderError::Unauthenticated@ == beer::OrderErrorView::Unauthenticated,
        (beer::OrderError::Forbidden { display_name: username, required_role })@ == (
        beer::OrderErrorView::Forbidden { display_name: username@, required_role: required_role@ }),
{
}

/// What is said of events and actions is said of all that they hold.
pub proof fn law_talk_is_seen_whole(
    detail: String,
    status: u16,
    users: Vec<RancherUser>,
    bindings: Vec<GlobalRoleBinding>,
    url: String,
    token: String,
    context: AuthContext,
    error: AuthError,
)
    ensures
        AuthEvent::Unreachable(detail)@ == AuthEventView::Unreachable(detail@),
        AuthEvent::Status(status)@ == AuthEventView::Status(status),
        AuthEvent::Text(detail)@ == AuthEventView::Text(detail@),
        AuthEvent::Unread@ == AuthEventView::Unread,
        AuthEvent::Unparsed(detail)@ == AuthEventView::Unparsed(detail@),
        AuthEvent::Users(RancherCollection { data: users })@ == AuthEventView::Users(
            Seq::new(users@.len(), |i: int| users@[i].deep_view()),
        ),
        AuthEvent::Bindings(RancherCollection { data: bindings })@ == AuthEventView::Bindings(
            Seq::new(bindings@.len(), |i: int| bindings@[i].global_role_id@),
        ),
        (AuthAction::Get { url, token })@ == (AuthActionView::Get { url: url@, token: token@ }),
        AuthAction::ReadText@ == AuthActionView::ReadText,
        AuthAction::ReadUsers@ == AuthActionView::ReadUsers,
        AuthAction::ReadBindings@ == AuthActionView::ReadBindings,
        AuthAction::Finish(Ok(context))@ == AuthActionView::Finish(Ok(context@)),
        AuthAction::Finish(Err(error))@ == AuthActionView::Finish(Err(error@)),
{
    assert(users.deep_view() =~= Seq::new(users@.len(), |i: int| users@[i].deep_view()));
    assert(bindings.deep_view() =~= Seq::new(
        bindings@.len(),
        |i: int| bindings@[i].global_role_id@,
    ));
}

/// A decision is seen as it is.
pub proof fn law_decisions_are_seen_whole(
    error: AuthError,
    session: session::AuthSession,
    action: AuthAction,
)
    ensures
        rancher_auth::Gate::PassThrough@ == GateView::PassThrough,
        rancher_auth::Gate::Reject(error)@ == GateView::Reject(error@),
        (rancher_auth::Gate::Authenticate { session, action })@ == (GateView::Authenticate {
            session: session@,
            action: action@,
        }),
{
}

} // verus!
