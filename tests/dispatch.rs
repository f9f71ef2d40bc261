use std::collections::HashMap;
use web4_contract::{Contract, Web4Request, Web4Response};

const PAGE: &str = "<!DOCTYPE html><html><body>héllo</body></html>";

fn handler() -> Contract {
    Contract::new(PAGE.as_bytes().to_vec())
}

fn request(path: &str) -> Web4Request {
    Web4Request {
        account_id: None,
        path: path.to_string(),
        params: None,
        query: None,
        preloads: None,
    }
}

fn assert_page(r: &Web4Response) {
    assert_eq!(r.content_type.as_deref(), Some("text/html"));
    assert_eq!(r.body.as_deref(), Some(PAGE.as_bytes()));
    assert_eq!(r.status, None);
    assert_eq!(r.body_url, None);
    assert_eq!(r.preload_urls, None);
}

#[test]
fn other_paths_get_default_page() {
    let h = handler();
    for p in [
        "",
        "/",
        "index.html",
        "/index.html",
        "/about/team",
        "ROBOTS.TXT",
        "/Robots.txt",
        "robots.txt/",
        "robots.txt ",
        " robots.txt",
        "robots",
        "日本語/パス",
        "/ünïcödé",
    ] {
        assert_page(&h.web4_get(request(p)));
    }
}

#[test]
fn robots_file_is_plain_text() {
    let r = handler().web4_get(request("robots.txt"));
    assert_eq!(r.content_type.as_deref(), Some("text/plain"));
    let body = r.body.clone().unwrap();
    assert_eq!(String::from_utf8(body).unwrap(), "User-agent: *\nDisallow:");
    assert_eq!(r.status, None);
    assert_eq!(r.body_url, None);
    assert_eq!(r.preload_urls, None);
}

#[test]
fn one_leading_slash_is_ignored() {
    let h = handler();
    assert_eq!(h.web4_get(request("/robots.txt")), h.web4_get(request("robots.txt")));
    assert_eq!(h.web4_get(request("/about")), h.web4_get(request("about")));
}

#[test]
fn only_one_leading_slash_is_stripped() {
    let h = handler();
    assert_page(&h.web4_get(request("//robots.txt")));
    assert_page(&h.web4_get(request("///robots.txt")));
}

#[test]
fn empty_default_page_is_served_as_is() {
    let r = Contract::new(Vec::new()).web4_get(request("anything"));
    assert_eq!(r.content_type.as_deref(), Some("text/html"));
    assert_eq!(r.body, Some(Vec::new()));
}

#[test]
fn answer_ignores_request_metadata() {
    let h = handler();
    let mut params = HashMap::new();
    params.insert("id".to_string(), "7".to_string());
    let mut query = HashMap::new();
    query.insert("q".to_string(), vec!["a".to_string(), "b".to_string()]);
    let mut preloads = HashMap::new();
    preloads.insert("/x".to_string(), Web4Response::status(404));
    for path in ["robots.txt", "/page"] {
        let full = Web4Request {
            account_id: Some("alice.near".to_string()),
            path: path.to_string(),
            params: Some(params.clone()),
            query: Some(query.clone()),
            preloads: Some(preloads.clone()),
        };
        assert_eq!(h.web4_get(full), h.web4_get(request(path)));
        assert_eq!(h.web4_get(request(path)), h.web4_get(request(path)));
    }
}
