use profile_backend::openapi::{SecurityAddon, ServerAddon};
use profile_backend::proxy::{frontend_path, join_segments, proxy_response, upstream_url, UpstreamReply};

#[test]
fn frontend_paths() {
    assert_eq!(frontend_path("app/main.js", &vec![]), "/resume_editor/app/main.js");
    assert_eq!(
        frontend_path("edit", &vec![("id".to_string(), "4".to_string())]),
        "/resume_editor/edit?id=4"
    );
    assert_eq!(
        frontend_path("", &vec![("a".to_string(), "1".to_string()), ("b".to_string(), "2".to_string())]),
        "/resume_editor/?a=1&b=2"
    );
    assert_eq!(upstream_url(5173, "/resume_editor/x"), "http://localhost:5173/resume_editor/x");
    assert_eq!(upstream_url(0, "/"), "http://localhost:0/");
    assert_eq!(join_segments(&vec!["a".to_string(), "b".to_string(), "c.js".to_string()]), "a/b/c.js");
    assert_eq!(join_segments(&vec![]), "");
}

#[test]
fn proxy_statuses() {
    assert_eq!(proxy_response(None).err(), Some(502));
    let ok = proxy_response(Some(UpstreamReply {
        status: 200,
        content_type: Some("text/html".to_string()),
        body: b"<html>".to_vec(),
    }))
    .ok()
    .unwrap();
    assert_eq!(ok.status, 200);
    assert_eq!(ok.content_type, Some("text/html".to_string()));
    assert_eq!(ok.body, b"<html>".to_vec());
    let teapot = proxy_response(Some(UpstreamReply { status: 418, content_type: None, body: vec![] })).ok().unwrap();
    assert_eq!(teapot.status, 418);
    let odd = proxy_response(Some(UpstreamReply { status: 299, content_type: None, body: vec![] })).ok().unwrap();
    assert_eq!(odd.status, 502);
}

#[test]
fn openapi_modifiers() {
    let scheme = SecurityAddon.security_scheme();
    assert_eq!(scheme.name, "bearerAuth");
    assert_eq!(scheme.scheme, "bearer");
    assert_eq!(scheme.bearer_format, "UUID");
    assert_eq!(ServerAddon.servers(), vec!["/api".to_string()]);
}
