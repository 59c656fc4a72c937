use hayaku_http::request::RequestView;
use hayaku_http::response::ResponseView;
use hayaku_http::{Handler, Http, Request, Response};

fn s(x: &str) -> String {
    x.to_string()
}

#[derive(Clone)]
struct Silent;

impl Handler<()> for Silent {
    fn handles(&self, _req: RequestView, _res: ResponseView, _ctx: (), _out: ResponseView) -> bool {
        true
    }

    fn handler(&self, _req: &mut Request, _res: &mut Response, _ctx: &()) {}
}

#[derive(Clone)]
struct Echo;

impl Handler<Vec<u8>> for Echo {
    fn handles(&self, _req: RequestView, _res: ResponseView, _ctx: Vec<u8>, _out: ResponseView) -> bool {
        true
    }

    fn handler(&self, req: &mut Request, res: &mut Response, ctx: &Vec<u8>) {
        let mut body = ctx.clone();
        body.extend_from_slice(req.path().as_bytes());
        if let Some(v) = req.form_value("v") {
            body.extend_from_slice(v.as_bytes());
        }
        res.body(&body);
    }
}

#[test]
fn silent_handler_gives_default_response() {
    let http = Http::new(Silent, ());
    let (status, headers, body) =
        http.call(s("GET"), s("/"), s("HTTP/1.1"), vec![], None).into_parts();
    assert_eq!(status, 200);
    assert!(headers.is_empty());
    assert_eq!(body, None);
}

#[test]
fn builder_settings() {
    let http = Http::new(Silent, ());
    assert_eq!(http.num_threads(), 1);
    assert!(!http.sanitizes());
    let http = http.threads(4).sanitize(true);
    assert_eq!(http.num_threads(), 4);
    assert!(http.sanitizes());
}

#[test]
fn request_gets_sanitize_setting() {
    let http = Http::new(Silent, ()).sanitize(true);
    let mut req = http.request(s("POST"), s("/"), s("HTTP/1.1"), vec![], Some(b"n=<i>".to_vec()));
    assert!(req.sanitizes());
    assert_eq!(req.form_value("n"), Some(s("&lt;i&gt;")));
}

#[test]
fn context_is_shared_and_unchanged() {
    let http = Http::new(Echo, b"ctx:".to_vec());
    let copy = http.clone();
    for i in 0..8 {
        let server = if i % 2 == 0 { &http } else { &copy };
        let path = format!("/p{}", i);
        let res = server.call(s("POST"), path.clone(), s("HTTP/1.1"), vec![], Some(b"v=!".to_vec()));
        let expected = format!("ctx:{}!", path);
        assert_eq!(res.body_bytes(), Some(expected.as_bytes()));
    }
    assert_eq!(http.context(), &b"ctx:".to_vec());
    assert_eq!(copy.context(), &b"ctx:".to_vec());
}
