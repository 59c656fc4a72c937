//! The request façade: read-only access to a parsed request, a scratch
//! buffer for handlers, and a form map decoded from the body at most once.
use vstd::prelude::*;

use crate::cookies::{cookie_opts_view, cookies_of_header, split_cookie_header, Cookie, CookieView};
use crate::form::{decode_form, decode_form_body, percent_well_formed};
use crate::pairs::{find_last, last_value, lemma_absent_key_has_no_value, opt_view, pairs_view};
use crate::response::opt_bytes;

verus! {

/// The pairs a request's form holds: none without a body, else what the
/// body decodes to.
pub open spec fn form_of(body: Option<Seq<u8>>, sanitize: bool) -> Seq<(Seq<char>, Seq<char>)> {
    match body {
        Some(b) => decode_form(b, sanitize),
        None => Seq::empty(),
    }
}

/// The cookies of all `Cookie` headers, in header order.
pub open spec fn request_cookies(headers: Seq<(Seq<char>, Seq<char>)>) -> Seq<Option<CookieView>>
    decreases headers.len(),
{
    if headers.len() == 0 {
        Seq::empty()
    } else if headers.last().0 == "Cookie"@ {
        request_cookies(headers.drop_last()) + cookies_of_header(headers.last().1)
    } else {
        request_cookies(headers.drop_last())
    }
}

/// What a request holds. `form` is the cached form, `None` until the first
/// lookup; `body_reads` counts the times the body was decoded; `user_data`
/// is the scratch buffer.
pub struct RequestView {
    pub method: Seq<char>,
    pub path: Seq<char>,
    pub version: Seq<char>,
    pub headers: Seq<(Seq<char>, Seq<char>)>,
    pub body: Option<Seq<u8>>,
    pub sanitize: bool,
    pub form: Option<Seq<(Seq<char>, Seq<char>)>>,
    pub body_reads: nat,
    pub user_data: Seq<u8>,
}

impl RequestView {
    /// The cache is either empty and the body unread, or it holds what the
    /// body decodes to and the body was read once.
    pub open spec fn wf(self) -> bool {
        match self.form {
            None => self.body_reads == 0,
            Some(f) => self.body_reads == 1 && f == form_of(self.body, self.sanitize),
        }
    }

    /// The request after a form lookup: the body is decoded if nothing is
    /// cached yet, and left alone otherwise.
    pub open spec fn decoded(self) -> RequestView {
        match self.form {
            Some(_) => self,
            None => RequestView {
                form: Some(form_of(self.body, self.sanitize)),
                body_reads: self.body_reads + 1,
                ..self
            },
        }
    }

    /// The request after `n` form lookups.
    pub open spec fn after_lookups(self, n: nat) -> RequestView
        decreases n,
    {
        if n == 0 {
            self
        } else {
            self.after_lookups((n - 1) as nat).decoded()
        }
    }

    /// What a form lookup of `key` returns.
    pub open spec fn form_value_of(self, key: Seq<char>) -> Option<Seq<char>> {
        last_value(form_of(self.body, self.sanitize), key)
    }
}

/// An HTTP request as a handler sees it.
pub struct Request {
    method: String,
    path: String,
    version: String,
    headers: Vec<(String, String)>,
    body: Option<Vec<u8>>,
    sanitize: bool,
    form: Option<Vec<(String, String)>>,
    body_reads: Ghost<nat>,
    user_data: Vec<u8>,
}

impl View for Request {
    type V = RequestView;

    closed spec fn view(&self) -> RequestView {
        RequestView {
            method: self.method@,
            path: self.path@,
            version: self.version@,
            headers: pairs_view(self.headers@),
            body: opt_bytes(self.body),
            sanitize: self.sanitize,
            form: match self.form {
                Some(f) => Some(pairs_view(f@)),
                None => None,
            },
            body_reads: self.body_reads@,
            user_data: self.user_data@,
        }
    }
}

impl Request {
    /// A request with nothing decoded yet and an empty scratch buffer; with
    /// `sanitize`, form values are HTML-escaped.
    pub fn new(
        method: String,
        path: String,
        version: String,
        headers: Vec<(String, String)>,
        body: Option<Vec<u8>>,
        sanitize: bool,
    ) -> (r: Request)
        ensures
            r@ == (RequestView {
                method: method@,
                path: path@,
                version: version@,
                headers: pairs_view(headers@),
                body: opt_bytes(body),
                sanitize,
                form: None,
                body_reads: 0,
                user_data: Seq::empty(),
            }),
            r@.wf(),
    {
        Request {
            method,
            path,
            version,
            headers,
            body,
            sanitize,
            form: None,
            body_reads: Ghost(0),
            user_data: Vec::new(),
        }
    }

    pub fn method(&self) -> (r: &str)
        ensures
            r@ == self@.method,
    {
        self.method.as_str()
    }

    pub fn version(&self) -> (r: &str)
        ensures
            r@ == self@.version,
    {
        self.version.as_str()
    }

    pub fn path(&self) -> (r: &str)
        ensures
            r@ == self@.path,
    {
        self.path.as_str()
    }

    pub fn headers(&self) -> (r: &Vec<(String, String)>)
        ensures
            pairs_view(r@) == self@.headers,
    {
        &self.headers
    }

    /// The value of the last header named `name`, if any.
    pub fn header(&self, name: &str) -> (r: Option<String>)
        ensures
            opt_view(r) == last_value(self@.headers, name@),
    {
        find_last(&self.headers, &String::from_str(name))
    }

    pub fn has_body(&self) -> (r: bool)
        ensures
            r == self@.body is Some,
    {
        self.body.is_some()
    }

    /// The body, as sent; reading it consumes nothing.
    pub fn body(&self) -> (r: Option<&[u8]>)
        ensures
            match r {
                Some(b) => self@.body == Some(b@),
                None => self@.body is None,
            },
    {
        match &self.body {
            Some(b) => Some(b.as_slice()),
            None => None,
        }
    }

    /// Whether form values are HTML-escaped.
    pub fn sanitizes(&self) -> (r: bool)
        ensures
            r == self@.sanitize,
    {
        self.sanitize
    }

    /// The value of the last form field named `key`. The body is decoded on
    /// the first call only; a missing or malformed body gives an empty form.
    pub fn form_value(&mut self, key: &str) -> (r: Option<String>)
        requires
            old(self)@.wf(),
        ensures
            final(self)@ == old(self)@.decoded(),
            final(self)@.wf(),
            opt_view(r) == old(self)@.form_value_of(key@),
    {
        if self.form.is_none() {
            let decoded = match &self.body {
                Some(b) => decode_form_body(b.as_slice(), self.sanitize),
                None => Vec::new(),
            };
            assert(pairs_view(decoded@) =~= form_of(self@.body, self.sanitize));
            self.form = Some(decoded);
            self.body_reads = Ghost(self.body_reads@ + 1);
        }
        match &self.form {
            Some(f) => find_last(f, &String::from_str(key)),
            None => None,
        }
    }

    /// The scratch buffer that handlers and routers share, for instance to
    /// pass the parameters of a matched route on; nothing here reads it.
    pub fn user_data(&self) -> (r: &[u8])
        ensures
            r@ == self@.user_data,
    {
        self.user_data.as_slice()
    }

    /// Replaces the scratch buffer; nothing else changes.
    pub fn set_user_data(&mut self, data: Vec<u8>)
        ensures
            final(self)@ == (RequestView { user_data: data@, ..old(self)@ }),
    {
        self.user_data = data;
    }

    /// The cookies of every `Cookie` header, in header order; an entry is
    /// `None` where the parser refused that name/value pair.
    pub fn get_cookies(&self) -> (r: Vec<Option<Cookie>>)
        ensures
            cookie_opts_view(r@) == request_cookies(self@.headers),
    {
        let name = String::from_str("Cookie");
        let ghost hs = self@.headers;
        let mut out: Vec<Option<Cookie>> = Vec::new();
        let mut i: usize = 0;
        assert(cookie_opts_view(out@) =~= request_cookies(hs.subrange(0, 0)));
        while i < self.headers.len()
            invariant
                i <= self.headers@.len(),
                hs == pairs_view(self.headers@),
                name@ == "Cookie"@,
                cookie_opts_view(out@) == request_cookies(hs.subrange(0, i as int)),
            decreases self.headers@.len() - i,
        {
            let h = &self.headers[i];
            let ghost prefix = hs.subrange(0, i + 1);
            assert(prefix.drop_last() =~= hs.subrange(0, i as int));
            assert(prefix.last() == (h.0@, h.1@));
            if h.0 == name {
                let mut found = split_cookie_header(h.1.as_str());
                let ghost before = out@;
                out.append(&mut found);
                assert(cookie_opts_view(out@) =~= cookie_opts_view(before) + cookies_of_header(
                    h.1@,
                ));
            }
            i += 1;
        }
        assert(hs.subrange(0, i as int) =~= hs);
        out
    }
}

/// Repeated form lookups agree with the first: once a lookup has decoded
/// the body, every later lookup, for any key, returns what it would have
/// returned first, and a further lookup changes nothing.
pub proof fn lemma_form_value_memoized(req: RequestView, key: Seq<char>)
    requires
        req.wf(),
    ensures
        req.decoded().wf(),
        req.decoded().form_value_of(key) == req.form_value_of(key),
        req.decoded().decoded() == req.decoded(),
{
}

/// However many form lookups are made on a fresh request, its body is
/// decoded at most once.
pub proof fn lemma_body_decoded_once(req: RequestView, n: nat)
    requires
        req.wf(),
        req.form is None,
    ensures
        req.after_lookups(n).wf(),
        req.after_lookups(n).body_reads <= 1,
        req.after_lookups(n).body_reads == (if n == 0 { 0nat } else { 1nat }),
    decreases n,
{
    if n > 0 {
        lemma_body_decoded_once(req, (n - 1) as nat);
    }
}

/// A lookup of a key that no decoded pair carries finds nothing; it never
/// fails.
pub proof fn lemma_missing_key_absent(req: RequestView, key: Seq<char>)
    requires
        forall|i: int|
            0 <= i < form_of(req.body, req.sanitize).len() ==> #[trigger] form_of(
                req.body,
                req.sanitize,
            )[i].0 != key,
    ensures
        req.form_value_of(key) is None,
{
    lemma_absent_key_has_no_value(form_of(req.body, req.sanitize), key);
}

/// A body whose percent-encoding is malformed decodes to an empty form, so
/// that every lookup finds nothing.
pub proof fn lemma_malformed_body_empty(req: RequestView, key: Seq<char>)
    requires
        req.body is Some,
        !percent_well_formed(req.body->0),
    ensures
        form_of(req.body, req.sanitize).len() == 0,
        req.form_value_of(key) is None,
{
}

/// A request without a body, or with an empty one, has an empty form, so
/// that every lookup finds nothing.
pub proof fn lemma_missing_or_empty_body_absent(req: RequestView, key: Seq<char>)
    requires
        req.body is None || req.body->0.len() == 0,
    ensures
        form_of(req.body, req.sanitize).len() == 0,
        req.form_value_of(key) is None,
{
}

} // verus!
