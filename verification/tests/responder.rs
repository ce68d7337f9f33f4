use static_responder::router::{Method, RouteTable};
use static_responder::site;

fn assets() -> (Vec<u8>, Vec<u8>, Vec<u8>, Vec<u8>, Vec<u8>, Vec<u8>, Vec<u8>) {
    (
        b"<html><body>index</body></html>".to_vec(),
        b"body { color: red; }".to_vec(),
        b"var htmx = {};".to_vec(),
        b"var sse = {};".to_vec(),
        b"var ws = {};".to_vec(),
        vec![0x47, 0x49, 0x46, 0x38, 0x39, 0x61, 0x00, 0x01],
        b"<html><body>not found</body></html>".to_vec(),
    )
}

fn standard() -> RouteTable {
    let (index, css, htmx, sse, ws, gif, nf) = assets();
    site::standard_routes(index, css, htmx, sse, ws, gif, nf)
}

#[test]
fn registered_routes_served_exactly() {
    let (index, css, htmx, sse, ws, gif, _nf) = assets();
    let t = standard();
    let cases: Vec<(Method, &str, u16, Option<&str>, Vec<u8>)> = vec![
        (Method::Get, "/", 200, Some("text/html"), index),
        (Method::Get, "/style.css", 200, Some("text/css"), css),
        (Method::Get, "/htmx.min.js", 200, Some("text/javascript"), htmx),
        (Method::Get, "/sse.js", 200, Some("text/javascript"), sse),
        (Method::Get, "/ws.js", 200, Some("text/javascript"), ws),
        (Method::Post, "/test", 200, None, Vec::new()),
        (Method::Get, "/yipee.gif", 200, Some("image/gif"), gif),
    ];
    for (m, path, status, ct, body) in cases {
        let r = t.respond(m, &path.to_string());
        assert_eq!(r.status, status, "status for {path}");
        assert_eq!(r.content_type, ct.map(|s| s.to_string()), "content type for {path}");
        assert_eq!(r.body, body, "body for {path}");
    }
}

#[test]
fn stylesheet_scenario() {
    let (_, css, _, _, _, _, _) = assets();
    let t = standard();
    let r = t.respond(Method::Get, &"/style.css".to_string());
    assert_eq!(r.status, 200);
    assert_eq!(r.content_type, Some("text/css".to_string()));
    assert_eq!(r.body, css);
}

#[test]
fn unmatched_path_scenario() {
    let (_, _, _, _, _, _, nf) = assets();
    let t = standard();
    let r = t.respond(Method::Get, &"/nonexistent".to_string());
    assert_eq!(r.status, 404);
    assert_eq!(r.content_type, Some("text/html".to_string()));
    assert_eq!(r.body, nf);
}

#[test]
fn unmatched_method_gets_not_found() {
    let (_, _, _, _, _, _, nf) = assets();
    let t = standard();
    for (m, path) in [
        (Method::Post, "/"),
        (Method::Get, "/test"),
        (Method::Other, "/"),
        (Method::Other, "/style.css"),
    ] {
        let r = t.respond(m, &path.to_string());
        assert_eq!(r.status, 404, "status for {path}");
        assert_eq!(r.body, nf, "body for {path}");
    }
}

#[test]
fn post_test_empty_ok() {
    let t = standard();
    let r = t.respond(Method::Post, &"/test".to_string());
    assert_eq!(r.status, 200);
    assert_eq!(r.content_type, None);
    assert!(r.body.is_empty());
}

#[test]
fn diagnostic_only_for_post_test() {
    assert_eq!(
        site::diagnostic_for(Method::Post, &"/test".to_string()),
        Some("TEST".to_string())
    );
    assert_eq!(site::diagnostic_for(Method::Get, &"/test".to_string()), None);
    assert_eq!(site::diagnostic_for(Method::Post, &"/".to_string()), None);
    assert_eq!(site::diagnostic_for(Method::Get, &"/".to_string()), None);
}

#[test]
fn repeated_requests_each_get_full_body() {
    let (index, _, _, _, _, _, _) = assets();
    let t = standard();
    let root = "/".to_string();
    for _ in 0..8 {
        let r = t.respond(Method::Get, &root);
        assert_eq!(r.status, 200);
        assert_eq!(r.body, index);
    }
}

#[test]
fn empty_table_answers_not_found() {
    let nf = b"gone".to_vec();
    let t = RouteTable::new(nf.clone());
    let r = t.respond(Method::Get, &"/".to_string());
    assert_eq!(r.status, 404);
    assert_eq!(r.content_type, Some("text/html".to_string()));
    assert_eq!(r.body, nf);
}

#[test]
fn duplicate_register_rejected() {
    let mut t = RouteTable::new(b"nf".to_vec());
    let added = t.register(Method::Get, "/a".to_string(), 200, None, b"one".to_vec());
    assert!(added);
    let again = t.register(Method::Get, "/a".to_string(), 200, None, b"two".to_vec());
    assert!(!again);
    assert_eq!(t.entries.len(), 1);
    let r = t.respond(Method::Get, &"/a".to_string());
    assert_eq!(r.body, b"one".to_vec());
}

#[test]
fn register_then_serve() {
    let mut t = RouteTable::new(b"nf".to_vec());
    assert!(t.register(
        Method::Get,
        "/hello".to_string(),
        200,
        Some("text/plain".to_string()),
        b"hi".to_vec(),
    ));
    assert!(t.contains_route(Method::Get, &"/hello".to_string()));
    assert!(!t.contains_route(Method::Post, &"/hello".to_string()));
    let r = t.respond(Method::Get, &"/hello".to_string());
    assert_eq!(r.status, 200);
    assert_eq!(r.content_type, Some("text/plain".to_string()));
    assert_eq!(r.body, b"hi".to_vec());
}
