use hayaku_http::{Cookie, Response};

fn s(x: &str) -> String {
    x.to_string()
}

#[test]
fn new_response_is_ok_and_empty() {
    let res = Response::new();
    assert_eq!(res.status_code(), 200);
    assert!(res.headers().is_empty());
    assert_eq!(res.body_bytes(), None);
    let (status, headers, body) = Response::default().into_parts();
    assert_eq!(status, 200);
    assert!(headers.is_empty());
    assert_eq!(body, None);
}

#[test]
fn status_overwrites() {
    let mut res = Response::new();
    res.status(404);
    res.status(500);
    assert_eq!(res.status_code(), 500);
}

#[test]
fn headers_are_added_in_order() {
    let mut res = Response::new();
    res.add_header(s("X"), s("1"));
    res.add_header(s("Y"), s("2"));
    res.add_header(s("X"), s("3"));
    assert_eq!(res.headers(), &vec![(s("X"), s("1")), (s("Y"), s("2")), (s("X"), s("3"))]);
    assert_eq!(res.header("X"), Some(s("3")));
    assert_eq!(res.header("Z"), None);
}

#[test]
fn body_replaces_previous_body() {
    let mut res = Response::new();
    res.body(b"first");
    res.body(b"second");
    assert_eq!(res.body_bytes(), Some(&b"second"[..]));
    res.body(b"");
    assert_eq!(res.body_bytes(), Some(&b""[..]));
}

#[test]
fn redirect_sets_status_location_and_body() {
    let mut res = Response::new();
    res.redirect(302, "/new", b"moved");
    let (status, headers, body) = res.into_parts();
    assert_eq!(status, 302);
    assert_eq!(headers, vec![(s("Location"), s("/new"))]);
    assert_eq!(body, Some(b"moved".to_vec()));
}

#[test]
fn set_cookie_adds_header() {
    let mut res = Response::new();
    res.set_cookie(&Cookie::new("id", "42"));
    assert_eq!(res.headers(), &vec![(s("Set-Cookie"), s("id=42"))]);
}

#[test]
fn set_cookie_writes_attributes() {
    let mut c = Cookie::new("id", "42");
    c.set_path("/");
    c.set_domain(".example.org");
    c.set_secure(true);
    c.set_http_only(true);
    c.set_max_age(3600);
    let mut res = Response::new();
    res.set_cookie(&c);
    assert_eq!(
        res.header("Set-Cookie"),
        Some(s("id=42; HttpOnly; Secure; Path=/; Domain=example.org; Max-Age=3600"))
    );
}

#[test]
fn set_cookie_skips_false_flags() {
    let mut c = Cookie::new("a", "b");
    c.set_secure(false);
    c.set_http_only(false);
    c.set_max_age(-5);
    let mut res = Response::new();
    res.set_cookie(&c);
    assert_eq!(res.header("Set-Cookie"), Some(s("a=b; Max-Age=-5")));
}
