use currrrl::config::{App, BodySource};
use currrrl::text::{file_reference, normalize_url, split_header};

fn pairs(v: &[(&str, &str)]) -> Vec<(String, String)> {
    v.iter().map(|(a, b)| (a.to_string(), b.to_string())).collect()
}

#[test]
fn header_split_trims_value() {
    assert_eq!(
        split_header("Accept:   text/html \t"),
        ("Accept".to_string(), "text/html".to_string())
    );
    assert_eq!(
        split_header("X-Time: 12:30"),
        ("X-Time".to_string(), "12:30".to_string())
    );
    assert_eq!(split_header("X-Flag"), ("X-Flag".to_string(), String::new()));
    assert_eq!(split_header("X-Empty:"), ("X-Empty".to_string(), String::new()));
    assert_eq!(
        split_header("K:\u{3000}v\u{a0}"),
        ("K".to_string(), "v".to_string())
    );
}

#[test]
fn schemeless_url_gets_http() {
    assert_eq!(normalize_url("example.com/path"), "http://example.com/path");
    assert_eq!(normalize_url("https://example.com/"), "https://example.com/");
    assert_eq!(normalize_url("ftp://h"), "ftp://h");
    assert_eq!(normalize_url(""), "http://");
    assert_eq!(normalize_url("a:/b"), "http://a:/b");
}

#[test]
fn at_arguments_name_files() {
    assert_eq!(file_reference("@body.json"), Some("body.json".to_string()));
    assert_eq!(file_reference("@"), Some(String::new()));
    assert_eq!(file_reference("plain"), None);
    assert_eq!(file_reference(""), None);
}

#[test]
fn request_carries_manual_headers_and_default_agent() {
    let mut app = App::default();
    app.headers = vec!["Accept: */*".to_string(), "X-Bare".to_string()];
    let r = app.build_request("example.com/path");
    assert_eq!(r.method, "GET");
    assert_eq!(r.url, "http://example.com/path");
    assert_eq!(
        r.headers,
        pairs(&[("Accept", "*/*"), ("X-Bare", ""), ("User-Agent", "currrrl/0.1.0")])
    );
    assert!(matches!(r.body, BodySource::Empty));
}

#[test]
fn manual_agent_suppresses_default() {
    let mut app = App::default();
    app.headers = vec!["User-Agent:  mine/1 ".to_string()];
    let r = app.build_request("https://h/");
    assert_eq!(r.headers, pairs(&[("User-Agent", "mine/1")]));
}

#[test]
fn basic_auth_comes_last() {
    let mut app = App::default();
    app.headers = vec!["Authorization: Bearer t".to_string()];
    app.auth = Some("user:pass".to_string());
    app.method = "POST".to_string();
    app.body = BodySource::Inline(b"hello".to_vec());
    let r = app.build_request("http://h/x");
    assert_eq!(
        r.headers,
        pairs(&[
            ("Authorization", "Bearer t"),
            ("User-Agent", "currrrl/0.1.0"),
            ("Authorization", "Basic dXNlcjpwYXNz"),
        ])
    );
    assert_eq!(r.method, "POST");
    match r.body {
        BodySource::Inline(d) => assert_eq!(d, b"hello".to_vec()),
        _ => panic!("expected an inline body"),
    }
}

#[test]
fn basic_auth_padding() {
    let mut app = App::default();
    app.auth = Some("a:b".to_string());
    let r = app.build_request("h");
    assert_eq!(r.headers.last().unwrap().1, "Basic YTpi");
    app.auth = Some("ab:c".to_string());
    let r = app.build_request("h");
    assert_eq!(r.headers.last().unwrap().1, "Basic YWI6Yw==");
}

#[test]
fn upload_body_is_kept() {
    let mut app = App::default();
    app.body = BodySource::Upload("f.bin".to_string());
    app.method = "PUT".to_string();
    let r = app.build_request("h");
    match r.body {
        BodySource::Upload(p) => assert_eq!(p, "f.bin"),
        _ => panic!("expected an upload body"),
    }
}

#[test]
fn basic_value_prefixes_scheme() {
    assert_eq!(currrrl::request::basic_value("dXNlcjpwYXNz"), "Basic dXNlcjpwYXNz");
    assert_eq!(currrrl::request::basic_value(""), "Basic ");
}

#[test]
fn manual_agent_in_any_case_suppresses_default() {
    let mut app = App::default();
    app.headers = vec!["user-agent: mine/1".to_string()];
    let r = app.build_request("h");
    assert_eq!(r.headers, pairs(&[("user-agent", "mine/1")]));
    app.headers = vec!["USER-AGENT:x".to_string(), "X-Other: y".to_string()];
    app.ua = "probe/2".to_string();
    let r = app.build_request("h");
    assert_eq!(r.headers, pairs(&[("USER-AGENT", "x"), ("X-Other", "y")]));
    app.headers = vec!["User-Agents: z".to_string()];
    let r = app.build_request("h");
    assert_eq!(r.headers, pairs(&[("User-Agents", "z"), ("User-Agent", "probe/2")]));
}

#[test]
fn agent_name_any_case() {
    assert!(currrrl::request::is_agent_name("User-Agent"));
    assert!(currrrl::request::is_agent_name("user-agent"));
    assert!(currrrl::request::is_agent_name("uSeR-aGeNt"));
    assert!(!currrrl::request::is_agent_name("User_Agent"));
    assert!(!currrrl::request::is_agent_name("User-Agent "));
}

#[test]
fn trim_removes_unicode_white_space_only() {
    assert_eq!(currrrl::text::trim_text("  a b \t\n"), "a b");
    assert_eq!(currrrl::text::trim_text("\u{3000}\u{85}x\u{2009}\u{a0}"), "x");
    assert_eq!(currrrl::text::trim_text(" \u{200b}y "), "\u{200b}y");
    assert_eq!(currrrl::text::trim_text(" \t "), "");
    assert_eq!(currrrl::text::trim_text(""), "");
}
