use agp_gateway::auth::AuthManager;
use agp_gateway::router::Router;

#[test]
fn token_resolves_to_registered_agent() {
    let mut auth = AuthManager::new();
    auth.add_token("tok-1".to_string(), "agent-A".to_string());
    assert_eq!(auth.verify_token("tok-1"), Some(&"agent-A".to_string()));
}

#[test]
fn token_reregistration_overwrites() {
    let mut auth = AuthManager::new();
    auth.add_token("tok-1".to_string(), "agent-A".to_string());
    auth.add_token("tok-1".to_string(), "agent-B".to_string());
    assert_eq!(auth.verify_token("tok-1"), Some(&"agent-B".to_string()));
}

#[test]
fn unknown_token_is_absent() {
    let mut auth = AuthManager::default();
    assert_eq!(auth.verify_token("tok-1"), None);
    auth.add_token("tok-2".to_string(), "agent-A".to_string());
    assert_eq!(auth.verify_token("tok-1"), None);
    assert_eq!(auth.verify_token(""), None);
}

#[test]
fn tokens_are_independent() {
    let mut auth = AuthManager::new();
    auth.add_token("tok-1".to_string(), "agent-A".to_string());
    auth.add_token("tok-2".to_string(), "agent-B".to_string());
    auth.add_token("tok-1".to_string(), "agent-C".to_string());
    assert_eq!(auth.verify_token("tok-1"), Some(&"agent-C".to_string()));
    assert_eq!(auth.verify_token("tok-2"), Some(&"agent-B".to_string()));
}

#[test]
fn empty_token_can_be_registered() {
    let mut auth = AuthManager::new();
    auth.add_token(String::new(), "agent-A".to_string());
    assert_eq!(auth.verify_token(""), Some(&"agent-A".to_string()));
    assert_eq!(auth.verify_token(" "), None);
}

#[test]
fn route_resolves_to_registered_endpoint() {
    let mut router = Router::new();
    router.add_route("agent-A".to_string(), "10.0.0.5:9000".to_string());
    assert_eq!(router.get_route("agent-A"), Some(&"10.0.0.5:9000".to_string()));
}

#[test]
fn route_reregistration_overwrites() {
    let mut router = Router::new();
    router.add_route("agent-A".to_string(), "10.0.0.5:9000".to_string());
    router.add_route("agent-A".to_string(), "10.0.0.6:9001".to_string());
    assert_eq!(router.get_route("agent-A"), Some(&"10.0.0.6:9001".to_string()));
}

#[test]
fn unknown_agent_has_no_route() {
    let mut router = Router::default();
    assert_eq!(router.get_route("agent-A"), None);
    router.add_route("agent-B".to_string(), "10.0.0.5:9000".to_string());
    assert_eq!(router.get_route("agent-A"), None);
    assert_eq!(router.get_route("agent-a"), None);
}

#[test]
fn cloned_stores_keep_bindings_and_diverge() {
    let mut auth = AuthManager::new();
    auth.add_token("tok-1".to_string(), "agent-A".to_string());
    let mut copy = auth.clone();
    copy.add_token("tok-1".to_string(), "agent-B".to_string());
    assert_eq!(auth.verify_token("tok-1"), Some(&"agent-A".to_string()));
    assert_eq!(copy.verify_token("tok-1"), Some(&"agent-B".to_string()));

    let mut router = Router::new();
    router.add_route("agent-A".to_string(), "10.0.0.5:9000".to_string());
    router.add_route("agent-B".to_string(), "10.0.0.6:9000".to_string());
    let routes = router.clone();
    assert_eq!(routes.get_route("agent-A"), Some(&"10.0.0.5:9000".to_string()));
    assert_eq!(routes.get_route("agent-B"), Some(&"10.0.0.6:9000".to_string()));
}
