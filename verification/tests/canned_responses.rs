use single_route::response::{health_body, hello_body, HttpResponse};
use single_route::routing::{
    handle_healthcheck, handle_hello, registered_path, route, success_content_type, Config,
};
use single_route::startup::{bind_addr, listen_message};

#[test]
fn healthcheck_get_ok() {
    let r = route(&Config::Healthcheck, "GET", "/api/v1/healthcheck");
    assert_eq!(r.status, 200);
    assert_eq!(r.content_type.as_deref(), Some("application/json"));
    assert_eq!(r.body, "{\"status\":\"ok\",\"message\":\"Service is running\"}");
}

#[test]
fn healthcheck_handler_matches_route() {
    let r = route(&Config::Healthcheck, "GET", "/api/v1/healthcheck");
    assert_eq!(handle_healthcheck(), r);
}

#[test]
fn hello_get_ok() {
    let r = route(&Config::HelloWorld, "GET", "/");
    assert_eq!(r.status, 200);
    assert_eq!(r.content_type.as_deref(), Some("text/plain"));
    assert_eq!(r.body, "Hello, World!");
    assert_eq!(r.body.len(), 13);
    assert!(!r.body.ends_with('\n'));
}

#[test]
fn hello_handler_matches_route() {
    let r = route(&Config::HelloWorld, "GET", "/");
    assert_eq!(handle_hello(), r);
}

#[test]
fn unregistered_path_not_found() {
    for c in [Config::Healthcheck, Config::HelloWorld] {
        let r = route(&c, "GET", "/nonexistent");
        assert_eq!(r.status, 404);
        assert_eq!(r.content_type, None);
        assert_eq!(r.body, "");
    }
    let r = route(&Config::HelloWorld, "GET", "/api/v1/healthcheck");
    assert_eq!(r.status, 404);
    let r = route(&Config::Healthcheck, "GET", "/");
    assert_eq!(r.status, 404);
}

#[test]
fn non_get_method_rejected() {
    let r = route(&Config::HelloWorld, "POST", "/");
    assert_eq!(r.status, 405);
    assert_eq!(r.content_type, None);
    assert_eq!(r.body, "");
    for m in ["POST", "PUT", "DELETE", "HEAD", "OPTIONS", "PATCH"] {
        let a = route(&Config::Healthcheck, m, "/api/v1/healthcheck");
        assert!(!(200..300).contains(&a.status));
        let b = route(&Config::HelloWorld, m, "/");
        assert!(!(200..300).contains(&b.status));
    }
}

#[test]
fn repeated_requests_identical() {
    let requests: [(Config, &str, &str); 3] = [
        (Config::Healthcheck, "GET", "/api/v1/healthcheck"),
        (Config::HelloWorld, "GET", "/"),
        (Config::HelloWorld, "POST", "/other"),
    ];
    for (c, m, p) in requests {
        let first: HttpResponse = route(&c, m, p);
        for _ in 0..5 {
            let again = route(&c, m, p);
            assert_eq!(again, first);
            assert_eq!(again.body.as_bytes(), first.body.as_bytes());
        }
    }
}

#[test]
fn health_body_round_trips_through_json() {
    let body = health_body();
    let v: serde_json::Value = serde_json::from_str(&body).unwrap();
    let obj = v.as_object().unwrap();
    assert_eq!(obj.len(), 2);
    assert!(obj.get("status").unwrap().is_string());
    assert!(obj.get("message").unwrap().is_string());
    assert_eq!(obj.get("status").unwrap().as_str(), Some("ok"));
    assert_eq!(
        obj.get("message").unwrap().as_str(),
        Some("Service is running")
    );
}

#[test]
fn canned_bodies_exact() {
    assert_eq!(health_body(), "{\"status\":\"ok\",\"message\":\"Service is running\"}");
    assert_eq!(hello_body(), "Hello, World!");
}

#[test]
fn registered_paths_and_content_types() {
    assert_eq!(registered_path(&Config::Healthcheck), "/api/v1/healthcheck");
    assert_eq!(registered_path(&Config::HelloWorld), "/");
    assert_eq!(success_content_type(&Config::Healthcheck), "application/json");
    assert_eq!(success_content_type(&Config::HelloWorld), "text/plain");
}

#[test]
fn startup_announcement() {
    assert_eq!(bind_addr(), "127.0.0.1:3000");
    assert_eq!(listen_message(), "Listening on http://127.0.0.1:3000");
}
