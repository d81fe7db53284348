use symfony_dev_proxy::config::MyConfig;
use symfony_dev_proxy::dispatch::{dispatch, Decision, Request, Response};
use symfony_dev_proxy::dispatch::{
    BAD_REQUEST_BODY, NO_ROUTE_BODY, PAC_CONTENT_TYPE, PAC_PATH, STATUS_BAD_REQUEST,
    STATUS_NOT_FOUND, STATUS_OK,
};
use symfony_dev_proxy::pac::create_pac_file;
use symfony_dev_proxy::provider::Mapping;

fn routes(entries: &[(&str, &str)]) -> MyConfig {
    let mut config = MyConfig::default();
    for (host, target) in entries {
        config.mappings.push(Mapping::new(host.to_string(), target.to_string()));
    }
    config
}

fn connect(authority: &str) -> Request {
    Request::Connect { authority: Some(authority.to_string()) }
}

fn plain(path: &str) -> Request {
    Request::Plain { path: path.to_string() }
}

#[test]
fn constants_have_their_values() {
    assert_eq!(STATUS_OK, 200);
    assert_eq!(STATUS_BAD_REQUEST, 400);
    assert_eq!(STATUS_NOT_FOUND, 404);
    assert_eq!(PAC_PATH, "/proxy.pac");
    assert_eq!(PAC_CONTENT_TYPE, "application/x-javascript-config");
    assert_eq!(BAD_REQUEST_BODY, "CONNECT must be to a socket address");
    assert_eq!(NO_ROUTE_BODY, "Could not find target for URI: ");
}

#[test]
fn connect_to_a_routed_host_opens_a_tunnel_to_its_target() {
    let config = routes(&[("a.test:443", "127.0.0.1:8000"), ("b.test:443", "127.0.0.1:8001")]);
    assert_eq!(
        dispatch(&connect("a.test:443"), &config),
        Decision::Tunnel { target: "127.0.0.1:8000".to_string() }
    );
    assert_eq!(
        dispatch(&connect("b.test:443"), &config),
        Decision::Tunnel { target: "127.0.0.1:8001".to_string() }
    );
}

#[test]
fn every_routed_host_opens_a_tunnel_to_its_target() {
    let config = routes(&[
        ("a.test:443", "127.0.0.1:8000"),
        ("b.test:80", "127.0.0.1:8001"),
        ("[::1]:8443", "127.0.0.1:8002"),
        ("c.test:9000", "upstream.test:9000"),
    ]);
    for mapping in &config.mappings {
        assert_eq!(
            dispatch(&connect(&mapping.host), &config),
            Decision::Tunnel { target: mapping.target.clone() }
        );
    }
}

#[test]
fn connect_goes_to_the_first_entry_for_a_host() {
    let config = routes(&[("a.test:443", "first"), ("a.test:443", "second")]);
    assert_eq!(
        dispatch(&connect("a.test:443"), &config),
        Decision::Tunnel { target: "first".to_string() }
    );
}

#[test]
fn tunnel_is_announced_with_an_empty_200() {
    let response = Decision::Tunnel { target: "127.0.0.1:8000".to_string() }.response();
    assert_eq!(response, Response { status: 200, content_type: None, body: String::new() });
}

#[test]
fn connect_to_an_unrouted_host_is_not_found() {
    let config = routes(&[("a.test:443", "127.0.0.1:8000")]);
    let decision = dispatch(&connect("x.test:443"), &config);
    assert_eq!(decision, Decision::NoRoute { authority: "x.test:443".to_string() });
    let response = decision.response();
    assert_eq!(response.status, 404);
    assert_eq!(response.content_type, None);
    assert_eq!(response.body, "Could not find target for URI: x.test:443");
    assert_eq!(
        dispatch(&connect("a.test:80"), &config),
        Decision::NoRoute { authority: "a.test:80".to_string() }
    );
}

#[test]
fn connect_with_an_empty_table_is_not_found() {
    let decision = dispatch(&connect("a.test:443"), &MyConfig::default());
    assert_eq!(decision, Decision::NoRoute { authority: "a.test:443".to_string() });
    assert_eq!(decision.response().status, 404);
}

#[test]
fn connect_without_port_is_a_bad_request() {
    let config = routes(&[("a.test:443", "127.0.0.1:8000")]);
    let decision = dispatch(&connect("a.test"), &config);
    assert_eq!(decision, Decision::BadRequest);
    let response = decision.response();
    assert_eq!(response.status, 400);
    assert_eq!(response.content_type, None);
    assert_eq!(response.body, "CONNECT must be to a socket address");
    assert_eq!(dispatch(&connect("a.test:"), &config), Decision::BadRequest);
    assert_eq!(dispatch(&connect(""), &config), Decision::BadRequest);
}

#[test]
fn connect_with_non_numeric_port_is_a_bad_request() {
    let config = routes(&[("a.test:443", "127.0.0.1:8000")]);
    assert_eq!(dispatch(&connect("a.test:https"), &config), Decision::BadRequest);
    assert_eq!(dispatch(&connect("a.test:44x"), &config), Decision::BadRequest);
    assert_eq!(dispatch(&connect("a.test:443/"), &config), Decision::BadRequest);
}

#[test]
fn connect_without_authority_is_a_bad_request() {
    let config = routes(&[("a.test:443", "127.0.0.1:8000")]);
    let request = Request::Connect { authority: None };
    assert_eq!(dispatch(&request, &config), Decision::BadRequest);
    assert_eq!(dispatch(&request, &MyConfig::default()), Decision::BadRequest);
}

#[test]
fn malformed_authority_is_refused_before_the_table_is_read() {
    let config = routes(&[("a.test", "127.0.0.1:8000"), ("b.test:http", "127.0.0.1:8001")]);
    assert_eq!(dispatch(&connect("a.test"), &config), Decision::BadRequest);
    assert_eq!(dispatch(&connect("b.test:http"), &config), Decision::BadRequest);
    assert_eq!(dispatch(&connect("a.test"), &MyConfig::default()), Decision::BadRequest);
}

#[test]
fn pac_request_gets_the_script() {
    let config = routes(&[("a.test:443", "127.0.0.1:8000"), ("b.test:80", "127.0.0.1:8001")]);
    let decision = dispatch(&plain("/proxy.pac"), &config);
    let script = create_pac_file(&config.mappings);
    assert_eq!(decision, Decision::Pac { script: script.clone() });
    let response = decision.response();
    assert_eq!(response.status, 200);
    assert_eq!(response.content_type, Some("application/x-javascript-config".to_string()));
    assert_eq!(response.body, script);
    assert!(response.body.contains("[\"https://a.test\",\"http://b.test\"]"));
}

#[test]
fn pac_request_with_an_empty_table_gets_an_empty_list() {
    let response = dispatch(&plain("/proxy.pac"), &MyConfig::default()).response();
    assert_eq!(response.status, 200);
    assert_eq!(response.content_type, Some("application/x-javascript-config".to_string()));
    assert!(response.body.contains("let list = [];"));
}

#[test]
fn any_path_with_the_pac_prefix_gets_the_script() {
    let config = routes(&[("a.test:443", "127.0.0.1:8000")]);
    let script = create_pac_file(&config.mappings);
    for path in ["/proxy.pac?x=1", "/proxy.pac/", "/proxy.pacfile", "/proxy.pac.js"] {
        assert_eq!(dispatch(&plain(path), &config), Decision::Pac { script: script.clone() });
    }
}

#[test]
fn other_plain_requests_are_not_found() {
    let config = routes(&[("a.test:443", "127.0.0.1:8000")]);
    for path in ["/", "", "/index.html", "/proxy.pa", "/PROXY.PAC", "proxy.pac", "/x/proxy.pac"] {
        let decision = dispatch(&plain(path), &config);
        assert_eq!(decision, Decision::NotFound);
        assert_eq!(
            decision.response(),
            Response { status: 404, content_type: None, body: String::new() }
        );
    }
    assert_eq!(dispatch(&plain("/"), &MyConfig::default()), Decision::NotFound);
}

#[test]
fn plain_requests_never_open_a_tunnel() {
    let config = routes(&[("a.test:443", "127.0.0.1:8000"), ("/a.test:443", "127.0.0.1:8001")]);
    assert_eq!(dispatch(&plain("a.test:443"), &config), Decision::NotFound);
    assert_eq!(dispatch(&plain("/a.test:443"), &config), Decision::NotFound);
}
