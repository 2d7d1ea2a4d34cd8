use chimes_auth::{
    AccessRule, BypassMode, ChimesAuthService, ChimesAuthUser, ChimesAuthenticationMiddleware,
    ChimesAuthorization, ChimesResource, GateDecision, MemoryAuthService, MemoryAuthUser,
    PermitOutcome,
};

fn user(name: &str, creditial: &str, role: &str) -> MemoryAuthUser {
    MemoryAuthUser {
        user_name: name.to_string(),
        creditial: creditial.to_string(),
        role: role.to_string(),
    }
}

fn rule(method: &str, pattern: &str, mode: BypassMode, required_role: &str) -> AccessRule {
    AccessRule {
        method: method.to_string(),
        pattern: pattern.to_string(),
        mode,
        required_role: required_role.to_string(),
    }
}

fn service() -> MemoryAuthService {
    MemoryAuthService {
        tokens: vec![
            ("valid-token-1".to_string(), user("alice", "pw-alice", "member")),
            ("valid-token-2".to_string(), user("bob", "pw-bob", "viewer")),
            ("valid-token-3".to_string(), user("carol", "pw-carol", "admin")),
        ],
        rules: vec![
            rule("GET", "/profile", BypassMode::User, ""),
            rule("GET", "/admin", BypassMode::Permit, "admin"),
            rule("GET", "/public", BypassMode::Anonymous, ""),
        ],
        resource_code: "chimes".to_string(),
        resources: vec![("admin".to_string(), "administration".to_string())],
    }
}

fn gate_with_health_allowed() -> ChimesAuthenticationMiddleware<MemoryAuthUser, MemoryAuthService> {
    ChimesAuthorization::new(service()).allow(&"/health".to_string()).new_transform()
}

fn get(
    gate: &ChimesAuthenticationMiddleware<MemoryAuthUser, MemoryAuthService>,
    pattern: &str,
    token: Option<&str>,
) -> GateDecision<MemoryAuthUser> {
    gate.handle(
        &"GET".to_string(),
        &pattern.to_string(),
        &token.map(|t| t.to_string()),
    )
}

fn expect_forwarded(d: GateDecision<MemoryAuthUser>) -> Option<MemoryAuthUser> {
    match d {
        GateDecision::Forward(identity) => identity,
        GateDecision::Reject(resp) => panic!("expected forward, got rejection {}", resp.status),
    }
}

fn expect_rejected(d: GateDecision<MemoryAuthUser>) -> (i32, String) {
    match d {
        GateDecision::Forward(_) => panic!("expected rejection, got forward"),
        GateDecision::Reject(resp) => {
            assert!(resp.data.is_none());
            assert!(resp.timestamp.is_some());
            (resp.status, resp.message)
        }
    }
}

#[test]
fn scenario_a_allow_listed_pattern_is_forwarded() {
    let gate = gate_with_health_allowed();
    let identity = expect_forwarded(get(&gate, "/health", None));
    assert!(identity.is_none());
}

#[test]
fn allow_list_bypass_ignores_headers() {
    let gate = gate_with_health_allowed();
    assert!(expect_forwarded(get(&gate, "/health", Some("valid-token-1"))).is_none());
    assert!(expect_forwarded(get(&gate, "/health", Some("garbage"))).is_none());
}

#[test]
fn scenario_b_user_route_without_header_is_401() {
    let gate = gate_with_health_allowed();
    let (status, message) = expect_rejected(get(&gate, "/profile", None));
    assert_eq!(status, 401);
    assert_eq!(message, "Not-Authorized");
}

#[test]
fn user_route_with_invalid_token_is_401() {
    let gate = gate_with_health_allowed();
    let (status, message) = expect_rejected(get(&gate, "/profile", Some("expired-token")));
    assert_eq!(status, 401);
    assert_eq!(message, "Not-Authorized");
}

#[test]
fn scenario_c_user_route_with_valid_token_forwards_identity() {
    let gate = gate_with_health_allowed();
    let identity = expect_forwarded(get(&gate, "/profile", Some("valid-token-1")));
    let identity = identity.expect("an identity should be attached");
    assert_eq!(identity.user_name, "alice");
    assert_eq!(identity.get_user_name(), "alice");
    assert_eq!(identity.get_creditial(), "pw-alice");
    assert_eq!(identity.to_detail().user_name, "alice");
}

#[test]
fn scenario_d_permit_route_with_wrong_role_is_403() {
    let gate = gate_with_health_allowed();
    let (status, message) = expect_rejected(get(&gate, "/admin", Some("valid-token-2")));
    assert_eq!(status, 403);
    assert_eq!(message, "Forbidden");
}

#[test]
fn scenario_e_permit_route_with_required_role_forwards() {
    let gate = gate_with_health_allowed();
    let identity = expect_forwarded(get(&gate, "/admin", Some("valid-token-3")));
    assert_eq!(identity.expect("identity").user_name, "carol");
}

#[test]
fn permit_route_without_identity_is_401_not_403() {
    let gate = gate_with_health_allowed();
    let (status, _) = expect_rejected(get(&gate, "/admin", None));
    assert_eq!(status, 401);
}

#[test]
fn anonymous_route_forwards_with_and_without_token() {
    let gate = gate_with_health_allowed();
    assert!(expect_forwarded(get(&gate, "/public", None)).is_none());
    let identity = expect_forwarded(get(&gate, "/public", Some("valid-token-1")));
    assert_eq!(identity.expect("identity").user_name, "alice");
}

#[test]
fn unconfigured_route_defaults_to_user_mode() {
    let gate = gate_with_health_allowed();
    let (status, _) = expect_rejected(get(&gate, "/unknown", None));
    assert_eq!(status, 401);
    let identity = expect_forwarded(get(&gate, "/unknown", Some("valid-token-2")));
    assert_eq!(identity.expect("identity").user_name, "bob");
}

#[test]
fn repeated_identical_requests_share_an_outcome_class() {
    let gate = gate_with_health_allowed();
    for _ in 0..3 {
        let (status, message) = expect_rejected(get(&gate, "/admin", Some("valid-token-2")));
        assert_eq!(status, 403);
        assert_eq!(message, "Forbidden");
    }
    for _ in 0..3 {
        let identity = expect_forwarded(get(&gate, "/profile", Some("valid-token-1")));
        assert_eq!(identity.expect("identity").user_name, "alice");
    }
}

#[test]
fn default_header_key_is_authentication() {
    let gate = gate_with_health_allowed();
    assert_eq!(gate.effective_header_key(), "Authentication");
}

#[test]
fn header_key_override_is_used() {
    let gate = ChimesAuthorization::new(service())
        .header_key(&"X-Auth".to_string())
        .new_transform();
    assert_eq!(gate.effective_header_key(), "X-Auth");
}

#[test]
fn nojwt_header_key_takes_precedence() {
    let gate = ChimesAuthorization::new(service())
        .header_key(&"X-Auth".to_string())
        .nojwt_header_key(&"X-Api-Key".to_string())
        .session_key(&"chimes-logged-user".to_string())
        .new_transform();
    assert_eq!(gate.effective_header_key(), "X-Api-Key");
    // The no-JWT path resolves against the same token table here.
    let identity = expect_forwarded(get(&gate, "/profile", Some("valid-token-1")));
    assert_eq!(identity.expect("identity").user_name, "alice");
}

#[test]
fn is_allowed_matches_exactly() {
    let gate = gate_with_health_allowed();
    assert!(gate.is_allowed(&"/health".to_string()));
    assert!(!gate.is_allowed(&"/health/".to_string()));
    assert!(!gate.is_allowed(&"/profile".to_string()));
}

#[test]
fn resolve_identity_follows_the_token_table() {
    let gate = gate_with_health_allowed();
    assert!(gate.resolve_identity(&None).is_none());
    assert!(gate.resolve_identity(&Some("nope".to_string())).is_none());
    let identity = gate.resolve_identity(&Some("valid-token-3".to_string()));
    assert_eq!(identity.expect("identity").user_name, "carol");
}

#[test]
fn permit_follows_the_policy_table() {
    let svc = service();
    let get_s = "GET".to_string();
    let admin = "/admin".to_string();
    let public = "/public".to_string();
    let profile = "/profile".to_string();
    let carol = svc.authenticate(&"valid-token-3".to_string());
    let bob = svc.authenticate(&"valid-token-2".to_string());
    assert_eq!(svc.permit(&None, &get_s, &public), PermitOutcome::Permitted);
    assert_eq!(svc.permit(&None, &get_s, &profile), PermitOutcome::DeniedWithoutIdentity);
    assert_eq!(svc.permit(&None, &get_s, &admin), PermitOutcome::DeniedWithoutIdentity);
    assert_eq!(svc.permit(&carol, &get_s, &admin), PermitOutcome::Permitted);
    assert_eq!(svc.permit(&bob, &get_s, &admin), PermitOutcome::DeniedWithIdentity);
    assert_eq!(svc.permit(&bob, &get_s, &profile), PermitOutcome::Permitted);
}

#[test]
fn authenticate_rejects_unknown_tokens() {
    let svc = service();
    assert!(svc.authenticate(&"".to_string()).is_none());
    assert!(svc.nojwt_authenticate(&"unknown".to_string()).is_none());
    let alice = svc.nojwt_authenticate(&"valid-token-1".to_string());
    assert_eq!(alice.expect("identity").user_name, "alice");
}

#[test]
fn resource_registry_returns_its_snapshot() {
    let svc = service();
    let code: String = <MemoryAuthService as ChimesResource<String>>::get_code(&svc);
    assert_eq!(code, "chimes");
    let resources = <MemoryAuthService as ChimesResource<String>>::load_all_resources(&svc);
    assert_eq!(resources.len(), 1);
    assert_eq!(resources[0].0, "admin");
    assert_eq!(resources[0].1, "administration");
}
