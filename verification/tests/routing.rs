use interceptor::response::{LOCATION, NOT_FOUND_BODY, STATUS_MOVED_PERMANENTLY, STATUS_NOT_FOUND};
use interceptor::{
    Action, ConfigError, Dispatch, IncomingRequest, LogEvent, LogLevel, RouteConfig, Router,
    SocketAddress,
};

fn peer() -> SocketAddress {
    SocketAddress::V4 { octets: [192, 168, 1, 20], port: 54321 }
}

fn example_router() -> Router {
    let config =
        RouteConfig::new("go".to_string(), "https://example.com".to_string(), None).unwrap();
    Router::new(&config)
}

fn get(router: &Router, path: &str) -> Dispatch {
    router.dispatch(&IncomingRequest::new(path.to_string(), peer()))
}

#[test]
fn get_go_is_redirected_to_the_target() {
    let outcome = get(&example_router(), "/go");
    assert_eq!(outcome.response.status_code, 301);
    assert_eq!(
        outcome.response.header("Location"),
        Some("https://example.com".to_string())
    );
    assert_eq!(outcome.response.headers.len(), 1);
    assert_eq!(outcome.response.body, "");
}

#[test]
fn get_nope_is_not_found() {
    let outcome = get(&example_router(), "/nope");
    assert_eq!(outcome.response.status_code, 404);
    assert_eq!(outcome.response.body, "nothing to see here");
    assert!(outcome.response.headers.is_empty());
}

#[test]
fn get_root_is_not_found() {
    let outcome = get(&example_router(), "/");
    assert_eq!(outcome.response.status_code, 404);
    assert_eq!(outcome.response.body, "nothing to see here");
    assert_eq!(outcome.response.header("Location"), None);
}

#[test]
fn empty_old_path_is_rejected() {
    let result = RouteConfig::new(String::new(), "https://example.com".to_string(), None);
    assert_eq!(result, Err(ConfigError::EmptyOldPath));
}

#[test]
fn port_defaults_to_3000() {
    let config =
        RouteConfig::new("go".to_string(), "https://example.com".to_string(), None).unwrap();
    assert_eq!(config.port(), 3000);
    assert_eq!(interceptor::DEFAULT_PORT, 3000);
}

#[test]
fn matching_path_gets_301_and_the_target_verbatim() {
    let pairs = [
        ("go", "https://example.com"),
        ("a/b/c", "/elsewhere?x=1&y=2#frag"),
        ("old", "not a url at all"),
        ("caf\u{e9}", "https://example.com/caf\u{e9}"),
        ("x", " spaces kept "),
    ];
    for (old_path, new_path) in pairs {
        let config = RouteConfig::new(old_path.to_string(), new_path.to_string(), None).unwrap();
        let router = Router::new(&config);
        let path = format!("/{}", old_path);
        let outcome = get(&router, &path);
        assert_eq!(outcome.response.status_code, STATUS_MOVED_PERMANENTLY);
        assert_eq!(outcome.response.header(LOCATION), Some(new_path.to_string()));
        assert_eq!(outcome.response.body, "");
    }
}

#[test]
fn any_other_path_gets_404_and_the_fixed_body() {
    let router = example_router();
    let others = [
        "/", "", "go", "/go/", "/GO", "/Go", "/gO", "//go", "/go ", " /go", "/go?x=1", "/goo",
        "/g", "/nope", "/go/go", "/\u{e9}",
    ];
    for path in others {
        let outcome = get(&router, path);
        assert_eq!(outcome.response.status_code, STATUS_NOT_FOUND, "path {:?}", path);
        assert_eq!(outcome.response.body, NOT_FOUND_BODY, "path {:?}", path);
        assert_eq!(outcome.response.header(LOCATION), None, "path {:?}", path);
        assert_eq!(outcome.log, None, "path {:?}", path);
    }
}

#[test]
fn repeated_dispatch_gives_identical_outcomes() {
    let router = example_router();
    let first_hit = get(&router, "/go");
    let first_miss = get(&router, "/nope");
    for round in 0..50 {
        if round % 3 == 0 {
            assert_eq!(get(&router, "/nope"), first_miss);
            assert_eq!(get(&router, "/go"), first_hit);
        } else {
            assert_eq!(get(&router, "/go"), first_hit);
            assert_eq!(get(&router, "/nope"), first_miss);
        }
    }
}

#[test]
fn response_does_not_depend_on_the_client() {
    let router = example_router();
    let other = SocketAddress::V6 {
        segments: [0, 0, 0, 0, 0, 0, 0, 1],
        port: 8080,
        flowinfo: 0,
        scope_id: 0,
    };
    for path in ["/go", "/nope", "/"] {
        let a = router.dispatch(&IncomingRequest::new(path.to_string(), peer()));
        let b = router.dispatch(&IncomingRequest::new(path.to_string(), other));
        assert_eq!(a.response, b.response);
    }
}

#[test]
fn routers_side_by_side_do_not_interfere() {
    let a = Router::new(&RouteConfig::new("a".to_string(), "to-a".to_string(), None).unwrap());
    let b = Router::new(&RouteConfig::new("b".to_string(), "to-b".to_string(), None).unwrap());
    assert_eq!(get(&a, "/a").response.header(LOCATION), Some("to-a".to_string()));
    assert_eq!(get(&b, "/a").response.status_code, 404);
    assert_eq!(get(&b, "/b").response.header(LOCATION), Some("to-b".to_string()));
    assert_eq!(get(&a, "/b").response.status_code, 404);
    assert_eq!(get(&a, "/a").response.header(LOCATION), Some("to-a".to_string()));
}

#[test]
fn a_redirect_is_logged_with_the_client_address() {
    let outcome = get(&example_router(), "/go");
    assert_eq!(
        outcome.log,
        Some(LogEvent { level: LogLevel::Debug, client_address: peer() })
    );
    let v6 = SocketAddress::V6 {
        segments: [0x2001, 0xdb8, 0, 0, 0, 0, 0, 7],
        port: 443,
        flowinfo: 5,
        scope_id: 2,
    };
    let outcome = example_router().dispatch(&IncomingRequest::new("/go".to_string(), v6));
    assert_eq!(outcome.log, Some(LogEvent { level: LogLevel::Debug, client_address: v6 }));
}

#[test]
fn a_fallback_is_not_logged() {
    assert_eq!(get(&example_router(), "/nope").log, None);
    assert_eq!(get(&example_router(), "/").log, None);
}

#[test]
fn select_names_the_action() {
    let router = example_router();
    assert_eq!(router.select("/go"), Action::Redirect);
    assert_eq!(router.select("/nope"), Action::NotFound);
    assert_eq!(router.select("/"), Action::NotFound);
    assert_eq!(router.select(""), Action::NotFound);
    assert_eq!(router.select("/GO"), Action::NotFound);
    assert_eq!(router.select("/go/"), Action::NotFound);
}

#[test]
fn router_keeps_route_and_target() {
    let router = example_router();
    assert_eq!(router.route(), "/go");
    assert_eq!(router.target(), "https://example.com");
    let copy = router.clone();
    assert_eq!(copy, router);
    assert_eq!(get(&copy, "/go"), get(&router, "/go"));
}

#[test]
fn leading_slashes_in_the_configuration_are_folded() {
    for old_path in ["go", "/go", "//go", "////go"] {
        let config = RouteConfig::new(old_path.to_string(), "t".to_string(), None).unwrap();
        let router = Router::new(&config);
        assert_eq!(router.route(), "/go", "configured {:?}", old_path);
        assert_eq!(get(&router, "/go").response.status_code, 301);
        assert_eq!(get(&router, "//go").response.status_code, 404);
        assert_eq!(get(&router, "go").response.status_code, 404);
    }
}

#[test]
fn trailing_slash_in_the_configuration_is_kept() {
    let config = RouteConfig::new("go/".to_string(), "t".to_string(), None).unwrap();
    let router = Router::new(&config);
    assert_eq!(router.route(), "/go/");
    assert_eq!(get(&router, "/go/").response.status_code, 301);
    assert_eq!(get(&router, "/go").response.status_code, 404);
}
