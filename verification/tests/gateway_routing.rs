use spark_deploy::gateway::{not_found_body, proxy_stub_body, GatewayRoutes, RouteDecision};

#[test]
fn host_port_suffix_is_ignored() {
    let mut routes = GatewayRoutes::new();
    routes.register_static("mysite.local".to_string(), "/apps/site/dist".to_string());
    match routes.lookup("mysite.local:9999") {
        RouteDecision::StaticDir(root) => assert_eq!(root, "/apps/site/dist"),
        _ => panic!("the port suffix must be ignored"),
    }
    match routes.lookup("mysite.local") {
        RouteDecision::StaticDir(root) => assert_eq!(root, "/apps/site/dist"),
        _ => panic!("the bare hostname must match"),
    }
}

#[test]
fn unknown_host_is_not_found() {
    let mut routes = GatewayRoutes::new();
    routes.register_static("mysite.local".to_string(), "/apps/site".to_string());
    assert!(matches!(routes.lookup("other.local"), RouteDecision::NotFound));
    assert!(matches!(routes.lookup("other.local:80"), RouteDecision::NotFound));
    assert!(matches!(GatewayRoutes::new().lookup("mysite.local"), RouteDecision::NotFound));
}

#[test]
fn proxy_route_is_a_stub() {
    let mut routes = GatewayRoutes::new();
    routes.register_proxy("api.local".to_string(), 3000);
    match routes.lookup("api.local:8080") {
        RouteDecision::ProxyStub(port) => assert_eq!(port, 3000),
        _ => panic!("expected the proxy stub"),
    }
}

#[test]
fn static_route_wins_over_proxy() {
    let mut routes = GatewayRoutes::new();
    routes.register_proxy("both.local".to_string(), 3000);
    routes.register_static("both.local".to_string(), "/apps/both".to_string());
    assert!(matches!(routes.lookup("both.local"), RouteDecision::StaticDir(_)));
}

#[test]
fn last_registration_wins() {
    let mut routes = GatewayRoutes::new();
    routes.register_static("mysite.local".to_string(), "/apps/v1".to_string());
    routes.register_static("mysite.local".to_string(), "/apps/v2".to_string());
    match routes.lookup("mysite.local") {
        RouteDecision::StaticDir(root) => assert_eq!(root, "/apps/v2"),
        _ => panic!("the later registration must win"),
    }
}

#[test]
fn stub_and_not_found_bodies() {
    assert_eq!(proxy_stub_body(3000), "Proxying to localhost:3000 (not implemented yet)");
    assert_eq!(not_found_body(), "Domain not configured in Spark");
}
