use currrrl::config::App;
use currrrl::engine::{is_location_name, Disposition, EngineError, ResponseHead};

fn head(status: u16, text: &str, headers: &[(&str, &[u8])]) -> ResponseHead {
    ResponseHead {
        version: "HTTP/1.1".to_string(),
        status,
        status_text: text.to_string(),
        headers: headers.iter().map(|(n, v)| (n.to_string(), v.to_vec())).collect(),
        scheme: Some("https".to_string()),
        host: Some("a.example".to_string()),
    }
}

fn app_with(urls: &[&str]) -> App {
    let mut app = App::default();
    app.urls = urls.iter().map(|u| u.to_string()).collect();
    app
}

#[test]
fn echo_status_headers_blank_line() {
    let mut app = App::default();
    app.include_headers = true;
    let h = head(200, "200 OK", &[("Content-Type", b"text/plain")]);
    let lines = app.head_lines(&h);
    assert_eq!(
        lines,
        vec![
            b"HTTP/1.1 200 OK\n".to_vec(),
            b"Content-Type: text/plain\n".to_vec(),
            b"\n".to_vec(),
        ]
    );
    let mut out = lines.concat();
    out.extend_from_slice(b"hi");
    assert_eq!(out, b"HTTP/1.1 200 OK\nContent-Type: text/plain\n\nhi".to_vec());
    assert_eq!(app.after_head(&h), Ok(Disposition::StreamBody));
}

#[test]
fn no_echo_without_include() {
    let app = App::default();
    let h = head(200, "200 OK", &[("Content-Type", b"text/plain")]);
    assert!(app.head_lines(&h).is_empty());
}

#[test]
fn redirect_followed_to_path_on_same_host() {
    let mut app = app_with(&[]);
    app.follow_redirects = true;
    let h = head(302, "302 Found", &[("content-length", b"0"), ("location", b"/b")]);
    assert_eq!(app.after_head(&h), Ok(Disposition::Redirected));
    assert_eq!(app.urls, vec!["https://a.example/b".to_string()]);
    let r = app.next_request().unwrap();
    assert_eq!(r.url, "https://a.example/b");
    assert!(app.next_request().is_none());
}

#[test]
fn redirect_not_followed_streams_body() {
    let mut app = app_with(&[]);
    app.include_headers = true;
    let h = head(302, "302 Found", &[("Location", b"/b")]);
    assert_eq!(app.head_lines(&h).len(), 3);
    assert_eq!(app.after_head(&h), Ok(Disposition::StreamBody));
    assert!(app.urls.is_empty());
}

#[test]
fn absolute_location_taken_as_is() {
    let mut app = app_with(&["first"]);
    app.follow_redirects = true;
    let h = head(301, "301 Moved Permanently", &[("LOCATION", b"http://b.example/x")]);
    assert_eq!(app.after_head(&h), Ok(Disposition::Redirected));
    assert_eq!(app.urls, vec!["first".to_string(), "http://b.example/x".to_string()]);
}

#[test]
fn redirect_without_location_streams() {
    let mut app = app_with(&[]);
    app.follow_redirects = true;
    let h = head(304, "304 Not Modified", &[("etag", b"x")]);
    assert_eq!(app.after_head(&h), Ok(Disposition::StreamBody));
    assert!(app.urls.is_empty());
}

#[test]
fn location_outside_redirect_ignored() {
    let mut app = app_with(&[]);
    app.follow_redirects = true;
    let h = head(201, "201 Created", &[("location", b"/new")]);
    assert_eq!(app.after_head(&h), Ok(Disposition::StreamBody));
    assert!(app.urls.is_empty());
}

#[test]
fn location_not_utf8_is_fatal() {
    let mut app = app_with(&[]);
    app.follow_redirects = true;
    let h = head(302, "302 Found", &[("location", &[0x2f, 0xff, 0xfe])]);
    assert_eq!(app.after_head(&h), Err(EngineError::LocationNotText));
    assert!(app.urls.is_empty());
}

#[test]
fn path_location_without_origin_is_fatal() {
    let mut app = app_with(&[]);
    app.follow_redirects = true;
    let mut h = head(302, "302 Found", &[("location", b"/b")]);
    h.host = None;
    assert_eq!(app.after_head(&h), Err(EngineError::NoOrigin));
}

#[test]
fn work_list_is_lifo_and_redirects_come_first() {
    let mut app = app_with(&["a.example", "b.example"]);
    app.follow_redirects = true;
    let r = app.next_request().unwrap();
    assert_eq!(r.url, "http://b.example");
    let hop = head(302, "302 Found", &[("location", b"http://c.example/")]);
    assert_eq!(app.after_head(&hop), Ok(Disposition::Redirected));
    let r = app.next_request().unwrap();
    assert_eq!(r.url, "http://c.example/");
    let hop = head(307, "307 Temporary Redirect", &[("location", b"/d")]);
    assert_eq!(app.after_head(&hop), Ok(Disposition::Redirected));
    let r = app.next_request().unwrap();
    assert_eq!(r.url, "https://a.example/d");
    let r = app.next_request().unwrap();
    assert_eq!(r.url, "http://a.example");
    assert!(app.next_request().is_none());
}

#[test]
fn location_name_any_case() {
    assert!(is_location_name("location"));
    assert!(is_location_name("Location"));
    assert!(is_location_name("LoCaTiOn"));
    assert!(!is_location_name("locations"));
    assert!(!is_location_name("content-location"));
}

#[test]
fn redirect_chain_of_three_hops_before_earlier_url() {
    let mut app = app_with(&["a.example", "b.example"]);
    app.follow_redirects = true;
    let mut order = vec![];
    let hops: [&[u8]; 3] = [b"/b1", b"http://c.example/b2", b"/b3"];
    let mut step = 0;
    while let Some(r) = app.next_request() {
        order.push(r.url.clone());
        let h = if step < hops.len() {
            head(302, "302 Found", &[("location", hops[step])])
        } else {
            head(200, "200 OK", &[])
        };
        step += 1;
        let d = app.after_head(&h).unwrap();
        assert_eq!(d == Disposition::Redirected, step <= hops.len());
    }
    assert_eq!(
        order,
        vec![
            "http://b.example",
            "https://a.example/b1",
            "http://c.example/b2",
            "https://a.example/b3",
            "http://a.example",
        ]
    );
    assert!(app.urls.is_empty());
}
