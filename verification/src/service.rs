//! The layout of the service: which routes each listener serves, the tier
//! of each route, and the guard that a request passes before a handler may
//! touch the store.
//!
//! There are two listeners. The plaintext one serves the public routes and
//! the protected ones; the TLS one, which asks every client for a
//! certificate, serves the configuration endpoint of a hardened deployment.
//! A request that matches no route of its listener gets the fallback reply.

use vstd::prelude::*;
use vstd::string::StringExecFns;
use crate::access::{
    AccessTier, AccessTierView, Credentials, CredentialsView, RequestState, admission, authorize,
    grants,
};
use crate::http::{Status, TextReply, TextReplyView};
use crate::store::{StoreCall, StoreCallView, StoreModel};

verus! {

/// The role that the protected routes ask for unless told otherwise.
pub const REQUIRED_ROLE: &'static str = "admin";

/// The audience that the protected routes ask for unless told otherwise.
pub const REQUIRED_AUDIENCE: &'static str = "account";

/// The request methods that the service routes.
#[derive(Clone, Copy, Debug, PartialEq, Eq, Structural)]
pub enum Method {
    Get,
    Post,
    Delete,
}

/// The endpoints of the service.
#[derive(Clone, Copy, Debug, PartialEq, Eq, Structural)]
pub enum Endpoint {
    /// `GET /`: the banner.
    Root,
    /// `GET /latest`: the latest firmware image.
    Latest,
    /// `GET /firmware/{file_name}`: a firmware image by name.
    Firmware,
    /// `GET /manifest`: the latest version.
    Manifest,
    /// `POST /firmware/{file_name}`: upload of a firmware image.
    Upload,
    /// `DELETE /firmware/{file_name}`: removal of a firmware image.
    Remove,
    /// `GET /configwg`: a client's VPN configuration.
    Config,
}

/// The two listeners.
#[derive(Clone, Copy, Debug, PartialEq, Eq, Structural)]
pub enum Listener {
    /// Plain HTTP.
    Plain,
    /// TLS with client certificates.
    MutualTls,
}

/// Where the configuration endpoint is served.
#[derive(Clone, Copy, Debug, PartialEq, Eq, Structural)]
pub enum Deployment {
    /// On the plaintext listener, open to everyone.
    Open,
    /// On the TLS listener only.
    Hardened,
}

/// A route: a method and a path template, the endpoint they lead to and the
/// tier of that endpoint.
#[derive(Debug, PartialEq, Eq)]
pub struct Route {
    pub method: Method,
    pub path: String,
    pub endpoint: Endpoint,
    pub tier: AccessTier,
}

/// A route as contracts see it.
pub struct RouteView {
    pub method: Method,
    pub path: Seq<char>,
    pub endpoint: Endpoint,
    pub tier: AccessTierView,
}

impl View for Route {
    type V = RouteView;

    open spec fn view(&self) -> RouteView {
        RouteView {
            method: self.method,
            path: self.path@,
            endpoint: self.endpoint,
            tier: self.tier@,
        }
    }
}

/// The views of a vector of routes.
pub open spec fn route_views(routes: Seq<Route>) -> Seq<RouteView> {
    Seq::new(routes.len(), |i: int| routes[i]@)
}

/// A public route.
pub open spec fn public_route(path: Seq<char>, endpoint: Endpoint) -> RouteView {
    RouteView { method: Method::Get, path, endpoint, tier: AccessTierView::Public }
}

/// The public routes: the read-only endpoints and, in an open deployment,
/// the configuration endpoint.
pub open spec fn public_routes(deployment: Deployment) -> Seq<RouteView> {
    let fixed = seq![
        public_route("/"@, Endpoint::Root),
        public_route("/latest"@, Endpoint::Latest),
        public_route("/firmware/{file_name}"@, Endpoint::Firmware),
        public_route("/manifest"@, Endpoint::Manifest),
    ];
    if deployment == Deployment::Open {
        fixed.push(public_route("/configwg"@, Endpoint::Config))
    } else {
        fixed
    }
}

/// The protected routes: upload and removal of firmware, open to tokens
/// with the given role and audience.
pub open spec fn protected_routes(role: Seq<char>, audience: Seq<char>) -> Seq<RouteView> {
    let tier = AccessTierView::ProtectedByRole { required_role: role, required_audience: audience };
    seq![
        RouteView {
            method: Method::Post,
            path: "/firmware/{file_name}"@,
            endpoint: Endpoint::Upload,
            tier,
        },
        RouteView {
            method: Method::Delete,
            path: "/firmware/{file_name}"@,
            endpoint: Endpoint::Remove,
            tier,
        },
    ]
}

/// The routes of the TLS listener: in a hardened deployment the
/// configuration endpoint, else none.
pub open spec fn mutual_tls_routes(deployment: Deployment) -> Seq<RouteView> {
    if deployment == Deployment::Hardened {
        seq![
            RouteView {
                method: Method::Get,
                path: "/configwg"@,
                endpoint: Endpoint::Config,
                tier: AccessTierView::MutualTls,
            },
        ]
    } else {
        Seq::empty()
    }
}

/// The routes that a listener serves.
pub open spec fn listener_routes(
    listener: Listener,
    deployment: Deployment,
    role: Seq<char>,
    audience: Seq<char>,
) -> Seq<RouteView> {
    match listener {
        Listener::Plain => public_routes(deployment) + protected_routes(role, audience),
        Listener::MutualTls => mutual_tls_routes(deployment),
    }
}

fn public(path: &str, endpoint: Endpoint) -> (r: Route)
    ensures
        r@ == public_route(path@, endpoint),
{
    Route { method: Method::Get, path: String::from_str(path), endpoint, tier: AccessTier::Public }
}

/// Lays out the public routes.
pub fn public_router(deployment: Deployment) -> (r: Vec<Route>)
    ensures
        route_views(r@) == public_routes(deployment),
{
    let mut routes: Vec<Route> = Vec::new();
    routes.push(public("/", Endpoint::Root));
    routes.push(public("/latest", Endpoint::Latest));
    routes.push(public("/firmware/{file_name}", Endpoint::Firmware));
    routes.push(public("/manifest", Endpoint::Manifest));
    match deployment {
        Deployment::Open => {
            routes.push(public("/configwg", Endpoint::Config));
        },
        Deployment::Hardened => {},
    }
    assert(route_views(routes@) =~= public_routes(deployment));
    routes
}

/// Lays out the protected routes for the given role and audience.
pub fn protected_router(required_role: &str, required_audience: &str) -> (r: Vec<Route>)
    ensures
        route_views(r@) == protected_routes(required_role@, required_audience@),
{
    let mut routes: Vec<Route> = Vec::new();
    routes.push(
        Route {
            method: Method::Post,
            path: String::from_str("/firmware/{file_name}"),
            endpoint: Endpoint::Upload,
            tier: AccessTier::ProtectedByRole {
                required_role: String::from_str(required_role),
                required_audience: String::from_str(required_audience),
            },
        },
    );
    routes.push(
        Route {
            method: Method::Delete,
            path: String::from_str("/firmware/{file_name}"),
            endpoint: Endpoint::Remove,
            tier: AccessTier::ProtectedByRole {
                required_role: String::from_str(required_role),
                required_audience: String::from_str(required_audience),
            },
        },
    );
    assert(route_views(routes@) =~= protected_routes(required_role@, required_audience@));
    routes
}

/// Lays out the routes of the TLS listener.
pub fn mutual_tls_router(deployment: Deployment) -> (r: Vec<Route>)
    ensures
        route_views(r@) == mutual_tls_routes(deployment),
{
    let mut routes: Vec<Route> = Vec::new();
    match deployment {
        Deployment::Hardened => {
            routes.push(
                Route {
                    method: Method::Get,
                    path: String::from_str("/configwg"),
                    endpoint: Endpoint::Config,
                    tier: AccessTier::MutualTls,
                },
            );
        },
        Deployment::Open => {},
    }
    assert(route_views(routes@) =~= mutual_tls_routes(deployment));
    routes
}

/// Whatever the deployment and whatever role and audience are asked for,
/// the endpoints that change the store are served on protected routes only,
/// the TLS listener serves no route that is not behind mutual TLS, and the
/// configuration endpoint is served by exactly one listener.
pub proof fn lemma_route_tiers(
    listener: Listener,
    deployment: Deployment,
    role: Seq<char>,
    audience: Seq<char>,
    i: int,
)
    requires
        0 <= i < listener_routes(listener, deployment, role, audience).len(),
    ensures
        ({
            let route = listener_routes(listener, deployment, role, audience)[i];
            &&& (route.endpoint == Endpoint::Upload || route.endpoint == Endpoint::Remove)
                ==> route.tier == (AccessTierView::ProtectedByRole {
                required_role: role,
                required_audience: audience,
            })
            &&& route.tier is ProtectedByRole ==> (route.endpoint == Endpoint::Upload
                || route.endpoint == Endpoint::Remove)
            &&& listener == Listener::MutualTls ==> route.tier is MutualTls
            &&& route.endpoint == Endpoint::Config ==> (listener == Listener::Plain <==> deployment
                == Deployment::Open)
        }),
{
}

/// What becomes of a store call at the guard of an endpoint.
#[derive(Debug, PartialEq, Eq)]
pub enum Clearance {
    /// The request may go on: make the call.
    Proceed(StoreCall),
    /// The request was rejected: answer with this, and make no call.
    Refuse(TextReply),
}

/// A guard's decision as contracts see it.
pub enum ClearanceView {
    Proceed(StoreCallView),
    Refuse(TextReplyView),
}

impl View for Clearance {
    type V = ClearanceView;

    open spec fn view(&self) -> ClearanceView {
        match self {
            Clearance::Proceed(call) => ClearanceView::Proceed(call@),
            Clearance::Refuse(reply) => ClearanceView::Refuse(reply@),
        }
    }
}

/// The reply to a request that was rejected with `status`.
pub open spec fn rejection(status: Status) -> TextReplyView {
    TextReplyView {
        status,
        body: if status == Status::Forbidden {
            "Forbidden"@
        } else {
            "Unauthorized"@
        },
    }
}

/// What becomes of `call` for a request to an endpoint of `tier` that came
/// with `credentials`.
pub open spec fn clearance(
    tier: AccessTierView,
    credentials: CredentialsView,
    call: StoreCallView,
) -> ClearanceView {
    match admission(tier, credentials) {
        RequestState::Rejected(status) => ClearanceView::Refuse(rejection(status)),
        _ => ClearanceView::Proceed(call),
    }
}

/// The store after a request has come past the guard or was turned away.
pub open spec fn store_after_guard(store: StoreModel, decision: ClearanceView) -> StoreModel {
    match decision {
        ClearanceView::Proceed(call) => store.after(call),
        ClearanceView::Refuse(_) => store,
    }
}

/// The reply that turns a request away, if it is to be turned away.
pub open spec fn turned_away(tier: AccessTierView, credentials: CredentialsView) -> Option<
    TextReplyView,
> {
    match admission(tier, credentials) {
        RequestState::Rejected(status) => Some(rejection(status)),
        _ => None,
    }
}

/// The view of an optional reply.
pub open spec fn reply_view(reply: Option<TextReply>) -> Option<TextReplyView> {
    match reply {
        Some(r) => Some(r@),
        None => None,
    }
}

/// Decides whether a request is turned away, before anything of it is read
/// or done: the reply for a request that is rejected, `None` for one that
/// may go on.
pub fn turn_away(tier: &AccessTier, credentials: &Credentials) -> (r: Option<TextReply>)
    ensures
        reply_view(r) == turned_away(tier@, credentials@),
{
    match authorize(tier, credentials) {
        RequestState::Rejected(status) => {
            let body = match status {
                Status::Forbidden => String::from_str("Forbidden"),
                _ => String::from_str("Unauthorized"),
            };
            Some(TextReply { status, body })
        },
        _ => None,
    }
}

/// Decides whether the store call of a request may be made.
///
/// The decision is taken before the handler runs. A rejected request never
/// reaches the store.
pub fn guard(tier: &AccessTier, credentials: &Credentials, call: StoreCall) -> (r: Clearance)
    ensures
        r@ == clearance(tier@, credentials@, call@),
{
    match turn_away(tier, credentials) {
        Some(reply) => Clearance::Refuse(reply),
        None => Clearance::Proceed(call),
    }
}

/// A request to a protected endpoint that comes without a valid token, or
/// with one that lacks the role or the audience, is answered with
/// `Unauthorized` or `Forbidden`, and the store is after it what it was
/// before.
pub proof fn lemma_rejected_request_leaves_store(
    store: StoreModel,
    tier: AccessTierView,
    credentials: CredentialsView,
    call: StoreCallView,
)
    requires
        tier is ProtectedByRole,
        !(credentials matches CredentialsView::Valid(claims) && grants(
            claims,
            tier->required_role,
            tier->required_audience,
        )),
    ensures
        clearance(tier, credentials, call) matches ClearanceView::Refuse(reply) && (reply.status
            == Status::Unauthorized || reply.status == Status::Forbidden),
        !(credentials is Valid) ==> clearance(tier, credentials, call) == ClearanceView::Refuse(
            rejection(Status::Unauthorized),
        ),
        store_after_guard(store, clearance(tier, credentials, call)) == store,
{
}

} // verus!
