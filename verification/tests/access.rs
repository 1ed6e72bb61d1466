use charizhard_ota::access::{
    advance, authorize, claims_grant, names_contain, AccessClaims, AccessTier, Credentials,
    RequestState,
};
use charizhard_ota::gateway::{remove_firmware, store_firmware};
use charizhard_ota::http::{Status, TextReply};
use charizhard_ota::service::{
    guard, mutual_tls_router, protected_router, public_router, turn_away, Clearance, Deployment,
    Endpoint, Method,
    Route, REQUIRED_AUDIENCE, REQUIRED_ROLE,
};

fn names(list: &[&str]) -> Vec<String> {
    list.iter().map(|s| s.to_string()).collect()
}

fn claims(audiences: &[&str], roles: &[&str]) -> AccessClaims {
    AccessClaims { audiences: names(audiences), roles: names(roles) }
}

fn protected() -> AccessTier {
    AccessTier::ProtectedByRole {
        required_role: REQUIRED_ROLE.to_string(),
        required_audience: REQUIRED_AUDIENCE.to_string(),
    }
}

fn admin() -> Credentials {
    Credentials::Valid(claims(&["account"], &["user", "admin"]))
}

fn path_of(tier: &AccessTier, credentials: &Credentials) -> Vec<RequestState> {
    let mut state = RequestState::Received;
    let mut path = vec![state];
    while !state.is_final() {
        state = advance(state, tier, credentials);
        path.push(state);
    }
    path
}

#[test]
fn default_policy() {
    assert_eq!(REQUIRED_ROLE, "admin");
    assert_eq!(REQUIRED_AUDIENCE, "account");
}

#[test]
fn names_contain_is_exact() {
    let list = names(&["admin", "user"]);
    assert!(names_contain(&list, "admin"));
    assert!(names_contain(&list, "user"));
    assert!(!names_contain(&list, "Admin"));
    assert!(!names_contain(&list, ""));
    assert!(!names_contain(&Vec::new(), "admin"));
}

#[test]
fn claims_grant_needs_both() {
    assert!(claims_grant(&claims(&["account"], &["admin"]), "admin", "account"));
    assert!(!claims_grant(&claims(&["account"], &["user"]), "admin", "account"));
    assert!(!claims_grant(&claims(&["other"], &["admin"]), "admin", "account"));
    assert!(!claims_grant(&claims(&[], &[]), "admin", "account"));
}

#[test]
fn missing_token_is_unauthorized() {
    assert_eq!(
        authorize(&protected(), &Credentials::Missing),
        RequestState::Rejected(Status::Unauthorized)
    );
}

#[test]
fn invalid_token_is_unauthorized() {
    assert_eq!(
        authorize(&protected(), &Credentials::Invalid),
        RequestState::Rejected(Status::Unauthorized)
    );
}

#[test]
fn token_without_role_is_forbidden() {
    let credentials = Credentials::Valid(claims(&["account"], &["user"]));
    assert_eq!(
        authorize(&protected(), &credentials),
        RequestState::Rejected(Status::Forbidden)
    );
}

#[test]
fn token_without_audience_is_forbidden() {
    let credentials = Credentials::Valid(claims(&["other"], &["admin"]));
    assert_eq!(
        authorize(&protected(), &credentials),
        RequestState::Rejected(Status::Forbidden)
    );
}

#[test]
fn role_names_are_case_sensitive() {
    let credentials = Credentials::Valid(claims(&["account"], &["Admin"]));
    assert_eq!(
        authorize(&protected(), &credentials),
        RequestState::Rejected(Status::Forbidden)
    );
    let capital = AccessTier::ProtectedByRole {
        required_role: "Admin".to_string(),
        required_audience: "account".to_string(),
    };
    assert_eq!(authorize(&capital, &credentials), RequestState::Dispatched);
}

#[test]
fn admin_token_is_dispatched() {
    assert_eq!(authorize(&protected(), &admin()), RequestState::Dispatched);
}

#[test]
fn public_and_mutual_tls_ask_for_nothing() {
    for credentials in [Credentials::Missing, Credentials::Invalid, admin()] {
        assert_eq!(authorize(&AccessTier::Public, &credentials), RequestState::Dispatched);
        assert_eq!(authorize(&AccessTier::MutualTls, &credentials), RequestState::Dispatched);
    }
}

#[test]
fn paths_through_the_states() {
    assert_eq!(
        path_of(&protected(), &admin()),
        vec![
            RequestState::Received,
            RequestState::TokenExtracted,
            RequestState::ClaimsChecked,
            RequestState::Authorized,
            RequestState::Dispatched
        ]
    );
    assert_eq!(
        path_of(&protected(), &Credentials::Invalid),
        vec![
            RequestState::Received,
            RequestState::TokenExtracted,
            RequestState::TokenInvalid,
            RequestState::Rejected(Status::Unauthorized)
        ]
    );
    assert_eq!(
        path_of(&protected(), &Credentials::Valid(claims(&["account"], &[]))),
        vec![
            RequestState::Received,
            RequestState::TokenExtracted,
            RequestState::ClaimsChecked,
            RequestState::RoleOrAudienceMissing,
            RequestState::Rejected(Status::Forbidden)
        ]
    );
    assert_eq!(
        path_of(&protected(), &Credentials::Missing),
        vec![RequestState::Received, RequestState::Rejected(Status::Unauthorized)]
    );
    assert_eq!(
        path_of(&AccessTier::Public, &Credentials::Missing),
        vec![RequestState::Received, RequestState::Dispatched]
    );
}

#[test]
fn final_states_stay() {
    for state in [
        RequestState::Dispatched,
        RequestState::Rejected(Status::Unauthorized),
        RequestState::Rejected(Status::Forbidden),
    ] {
        assert!(state.is_final());
        assert_eq!(advance(state, &protected(), &admin()), state);
        assert_eq!(advance(state, &AccessTier::Public, &Credentials::Missing), state);
    }
    assert!(!RequestState::Received.is_final());
    assert!(!RequestState::Authorized.is_final());
}

#[test]
fn upload_without_token_never_reaches_the_store() {
    let call = store_firmware("x", vec![1, 2, 3]);
    assert_eq!(
        guard(&protected(), &Credentials::Missing, call),
        Clearance::Refuse(TextReply { status: Status::Unauthorized, body: "Unauthorized".to_string() })
    );
}

#[test]
fn removal_with_the_wrong_role_never_reaches_the_store() {
    let credentials = Credentials::Valid(claims(&["account"], &["user"]));
    assert_eq!(
        guard(&protected(), &credentials, remove_firmware("x")),
        Clearance::Refuse(TextReply { status: Status::Forbidden, body: "Forbidden".to_string() })
    );
}

#[test]
fn turn_away_decides_without_the_call() {
    assert_eq!(
        turn_away(&protected(), &Credentials::Missing),
        Some(TextReply { status: Status::Unauthorized, body: "Unauthorized".to_string() })
    );
    assert_eq!(
        turn_away(&protected(), &Credentials::Invalid),
        Some(TextReply { status: Status::Unauthorized, body: "Unauthorized".to_string() })
    );
    assert_eq!(
        turn_away(&protected(), &Credentials::Valid(claims(&[], &["admin"]))),
        Some(TextReply { status: Status::Forbidden, body: "Forbidden".to_string() })
    );
    assert_eq!(turn_away(&protected(), &admin()), None);
    assert_eq!(turn_away(&AccessTier::Public, &Credentials::Missing), None);
    assert_eq!(turn_away(&AccessTier::MutualTls, &Credentials::Missing), None);
}

#[test]
fn upload_with_an_admin_token_goes_on() {
    assert_eq!(
        guard(&protected(), &admin(), store_firmware("x", vec![1])),
        Clearance::Proceed(store_firmware("x", vec![1]))
    );
}

fn public(path: &str, endpoint: Endpoint) -> Route {
    Route { method: Method::Get, path: path.to_string(), endpoint, tier: AccessTier::Public }
}

#[test]
fn public_routes_of_an_open_deployment() {
    assert_eq!(
        public_router(Deployment::Open),
        vec![
            public("/", Endpoint::Root),
            public("/latest", Endpoint::Latest),
            public("/firmware/{file_name}", Endpoint::Firmware),
            public("/manifest", Endpoint::Manifest),
            public("/configwg", Endpoint::Config),
        ]
    );
    assert_eq!(mutual_tls_router(Deployment::Open), Vec::new());
}

#[test]
fn routes_of_a_hardened_deployment() {
    assert_eq!(public_router(Deployment::Hardened).len(), 4);
    assert!(public_router(Deployment::Hardened).iter().all(|r| r.endpoint != Endpoint::Config));
    assert_eq!(
        mutual_tls_router(Deployment::Hardened),
        vec![Route {
            method: Method::Get,
            path: "/configwg".to_string(),
            endpoint: Endpoint::Config,
            tier: AccessTier::MutualTls
        }]
    );
}

#[test]
fn protected_routes_cover_upload_and_removal() {
    assert_eq!(
        protected_router("admin", "account"),
        vec![
            Route {
                method: Method::Post,
                path: "/firmware/{file_name}".to_string(),
                endpoint: Endpoint::Upload,
                tier: protected()
            },
            Route {
                method: Method::Delete,
                path: "/firmware/{file_name}".to_string(),
                endpoint: Endpoint::Remove,
                tier: protected()
            },
        ]
    );
}
