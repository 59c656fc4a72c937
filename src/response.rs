//! The response builder: status, headers and an optional body.
use vstd::prelude::*;
use vstd::slice::slice_to_vec;

use crate::cookies::{set_cookie_header, set_cookie_text, Cookie};
use crate::pairs::{find_last, last_value, opt_view, pairs_view};

verus! {

/// The status a response has until a handler sets another.
pub const STATUS_OK: u16 = 200;

/// The optional byte sequence held by an optional vector.
pub open spec fn opt_bytes(o: Option<Vec<u8>>) -> Option<Seq<u8>> {
    match o {
        Some(v) => Some(v@),
        None => None,
    }
}

/// What a response holds: its status, its headers in the order they were
/// added, and its body, if one was set.
pub struct ResponseView {
    pub status: u16,
    pub headers: Seq<(Seq<char>, Seq<char>)>,
    pub body: Option<Seq<u8>>,
}

/// A response that nobody has touched: status 200, no header, no body.
pub open spec fn fresh_response() -> ResponseView {
    ResponseView { status: STATUS_OK, headers: Seq::empty(), body: None }
}

/// An HTTP response under construction.
pub struct Response {
    status: u16,
    headers: Vec<(String, String)>,
    body: Option<Vec<u8>>,
}

impl View for Response {
    type V = ResponseView;

    closed spec fn view(&self) -> ResponseView {
        ResponseView {
            status: self.status,
            headers: pairs_view(self.headers@),
            body: opt_bytes(self.body),
        }
    }
}

impl Default for Response {
    fn default() -> (r: Response)
        ensures
            r@ == fresh_response(),
    {
        Response::new()
    }
}

impl Response {
    /// A response with status 200, no header and no body.
    pub fn new() -> (r: Response)
        ensures
            r@ == fresh_response(),
    {
        let r = Response { status: STATUS_OK, headers: Vec::new(), body: None };
        assert(r@.headers =~= Seq::empty());
        r
    }

    /// Sets the status, replacing the one before.
    pub fn status(&mut self, status: u16)
        ensures
            final(self)@ == (ResponseView { status, ..old(self)@ }),
    {
        self.status = status;
    }

    /// Adds a header after those already there.
    pub fn add_header(&mut self, name: String, value: String)
        ensures
            final(self)@ == (ResponseView {
                headers: old(self)@.headers.push((name@, value@)),
                ..old(self)@
            }),
    {
        self.headers.push((name, value));
        assert(pairs_view(self.headers@) =~= old(self)@.headers.push((name@, value@)));
    }

    /// Sets `body` as the body, replacing the one before.
    pub fn body(&mut self, body: &[u8])
        ensures
            final(self)@ == (ResponseView { body: Some(body@), ..old(self)@ }),
    {
        self.body = Some(slice_to_vec(body));
    }

    /// Sets the status, adds a `Location` header and sets the body.
    pub fn redirect(&mut self, status: u16, location: &str, data: &[u8])
        ensures
            final(self)@ == (ResponseView {
                status,
                headers: old(self)@.headers.push(("Location"@, location@)),
                body: Some(data@),
            }),
    {
        self.status(status);
        self.add_header(String::from_str("Location"), String::from_str(location));
        self.body(data);
    }

    /// Adds a `Set-Cookie` header that carries `cookie`.
    pub fn set_cookie(&mut self, cookie: &Cookie)
        ensures
            final(self)@ == (ResponseView {
                headers: old(self)@.headers.push(("Set-Cookie"@, set_cookie_header(cookie@))),
                ..old(self)@
            }),
    {
        let text = set_cookie_text(cookie);
        self.add_header(String::from_str("Set-Cookie"), text);
    }

    pub fn status_code(&self) -> (r: u16)
        ensures
            r == self@.status,
    {
        self.status
    }

    pub fn headers(&self) -> (r: &Vec<(String, String)>)
        ensures
            pairs_view(r@) == self@.headers,
    {
        &self.headers
    }

    /// The value of the last header named `name`, if any.
    pub fn header(&self, name: &str) -> (r: Option<String>)
        ensures
            opt_view(r) == last_value(self@.headers, name@),
    {
        find_last(&self.headers, &String::from_str(name))
    }

    pub fn body_bytes(&self) -> (r: Option<&[u8]>)
        ensures
            match r {
                Some(b) => self@.body == Some(b@),
                None => self@.body is None,
            },
    {
        match &self.body {
            Some(b) => Some(b.as_slice()),
            None => None,
        }
    }

    /// Hands over the status, the headers and the body; the builder is gone.
    pub fn into_parts(self) -> (r: (u16, Vec<(String, String)>, Option<Vec<u8>>))
        ensures
            r.0 == self@.status,
            pairs_view(r.1@) == self@.headers,
            opt_bytes(r.2) == self@.body,
    {
        (self.status, self.headers, self.body)
    }
}

} // verus!
