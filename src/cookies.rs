//! Cookies read from `Cookie` request headers and written as `Set-Cookie`
//! response headers. Tokenizing and formatting are left to the `cookie` crate.
use vstd::prelude::*;

verus! {

/// What a cookie holds: its name and value, and the attributes that a
/// `Set-Cookie` header can carry (`None` where one is not set).
pub struct CookieView {
    pub name: Seq<char>,
    pub value: Seq<char>,
    pub path: Option<Seq<char>>,
    pub domain: Option<Seq<char>>,
    pub secure: Option<bool>,
    pub http_only: Option<bool>,
    pub max_age: Option<i64>,
}

/// A cookie: a name, a value and optional attributes.
#[derive(Clone, Debug)]
pub struct Cookie {
    name: String,
    value: String,
    path: Option<String>,
    domain: Option<String>,
    secure: Option<bool>,
    http_only: Option<bool>,
    max_age: Option<i64>,
}

/// The character sequence held by an optional string.
pub open spec fn opt_chars(o: Option<String>) -> Option<Seq<char>> {
    match o {
        Some(s) => Some(s@),
        None => None,
    }
}

impl View for Cookie {
    type V = CookieView;

    closed spec fn view(&self) -> CookieView {
        CookieView {
            name: self.name@,
            value: self.value@,
            path: opt_chars(self.path),
            domain: opt_chars(self.domain),
            secure: self.secure,
            http_only: self.http_only,
            max_age: self.max_age,
        }
    }
}

impl Cookie {
    /// A cookie with no attribute set.
    pub fn new(name: &str, value: &str) -> (r: Cookie)
        ensures
            r@ == (CookieView {
                name: name@,
                value: value@,
                path: None,
                domain: None,
                secure: None,
                http_only: None,
                max_age: None,
            }),
    {
        Cookie {
            name: String::from_str(name),
            value: String::from_str(value),
            path: None,
            domain: None,
            secure: None,
            http_only: None,
            max_age: None,
        }
    }

    pub fn name(&self) -> (r: &str)
        ensures
            r@ == self@.name,
    {
        self.name.as_str()
    }

    pub fn value(&self) -> (r: &str)
        ensures
            r@ == self@.value,
    {
        self.value.as_str()
    }

    pub fn path(&self) -> (r: Option<&str>)
        ensures
            match r {
                Some(p) => self@.path == Some(p@),
                None => self@.path is None,
            },
    {
        match &self.path {
            Some(p) => Some(p.as_str()),
            None => None,
        }
    }

    pub fn domain(&self) -> (r: Option<&str>)
        ensures
            match r {
                Some(d) => self@.domain == Some(d@),
                None => self@.domain is None,
            },
    {
        match &self.domain {
            Some(d) => Some(d.as_str()),
            None => None,
        }
    }

    pub fn secure(&self) -> (r: Option<bool>)
        ensures
            r == self@.secure,
    {
        self.secure
    }

    pub fn http_only(&self) -> (r: Option<bool>)
        ensures
            r == self@.http_only,
    {
        self.http_only
    }

    /// The lifetime in seconds.
    pub fn max_age(&self) -> (r: Option<i64>)
        ensures
            r == self@.max_age,
    {
        self.max_age
    }

    pub fn set_path(&mut self, path: &str)
        ensures
            final(self)@ == (CookieView { path: Some(path@), ..old(self)@ }),
    {
        self.path = Some(String::from_str(path));
    }

    pub fn set_domain(&mut self, domain: &str)
        ensures
            final(self)@ == (CookieView { domain: Some(domain@), ..old(self)@ }),
    {
        self.domain = Some(String::from_str(domain));
    }

    pub fn set_secure(&mut self, on: bool)
        ensures
            final(self)@ == (CookieView { secure: Some(on), ..old(self)@ }),
    {
        self.secure = Some(on);
    }

    pub fn set_http_only(&mut self, on: bool)
        ensures
            final(self)@ == (CookieView { http_only: Some(on), ..old(self)@ }),
    {
        self.http_only = Some(on);
    }

    /// Sets the lifetime in seconds.
    pub fn set_max_age(&mut self, seconds: i64)
        ensures
            final(self)@ == (CookieView { max_age: Some(seconds), ..old(self)@ }),
    {
        self.max_age = Some(seconds);
    }
}

/// The decimal digits of `n`, most significant first.
pub open spec fn digits(n: nat) -> Seq<char>
    decreases n,
{
    let d = seq!['0', '1', '2', '3', '4', '5', '6', '7', '8', '9'][(n % 10) as int];
    if n < 10 {
        seq![d]
    } else {
        digits(n / 10) + seq![d]
    }
}

/// `n` written in decimal, with a `-` before a negative number.
pub open spec fn decimal(n: int) -> Seq<char> {
    if n < 0 {
        seq!['-'] + digits((-n) as nat)
    } else {
        digits(n as nat)
    }
}

/// `d` without one leading `.`.
pub open spec fn strip_dot(d: Seq<char>) -> Seq<char> {
    if d.len() > 0 && d[0] == '.' {
        d.drop_first()
    } else {
        d
    }
}

/// The text of a `Set-Cookie` header: `name=value`, then each attribute
/// that is set, in the order HttpOnly, Secure, Path, Domain, Max-Age.
pub open spec fn set_cookie_header(c: CookieView) -> Seq<char> {
    c.name + seq!['='] + c.value + (if c.http_only == Some(true) {
        "; HttpOnly"@
    } else {
        Seq::empty()
    }) + (if c.secure == Some(true) {
        "; Secure"@
    } else {
        Seq::empty()
    }) + match c.path {
        Some(p) => "; Path="@ + p,
        None => Seq::empty(),
    } + match c.domain {
        Some(d) => "; Domain="@ + strip_dot(d),
        None => Seq::empty(),
    } + match c.max_age {
        Some(n) => "; Max-Age="@ + decimal(n as int),
        None => Seq::empty(),
    }
}

/// What each entry of a parse holds: the cookie, or `None` where the
/// parser refused that name/value pair.
pub open spec fn cookie_opts_view(v: Seq<Option<Cookie>>) -> Seq<Option<CookieView>> {
    v.map_values(
        |o: Option<Cookie>|
            match o {
                Some(c) => Some(c@),
                None => None,
            },
    )
}

/// What the cookie parser yields for one `Cookie` header value, pair by pair.
pub uninterp spec fn cookies_of_header(header: Seq<char>) -> Seq<Option<CookieView>>;

/// Relies on `cookie::Cookie::split_parse`: it splits a `Cookie` header value
/// at `;` and parses each name/value pair, yielding an error for a pair it
/// refuses; what it yields depends on the text alone.
#[verifier::external_body]
pub(crate) fn split_cookie_header(value: &str) -> (r: Vec<Option<Cookie>>)
    ensures
        cookie_opts_view(r@) == cookies_of_header(value@),
{
    cookie::Cookie::split_parse(value).map(|p| p.ok().map(|c| Cookie {
        name: c.name().to_string(),
        value: c.value().to_string(),
        path: c.path().map(|s| s.to_string()),
        domain: c.domain().map(|s| s.to_string()),
        secure: c.secure(),
        http_only: c.http_only(),
        max_age: c.max_age().map(|d| d.whole_seconds()),
    })).collect()
}

/// Relies on the `Display` impl of `cookie::Cookie` (`fmt_parameters`): with
/// no SameSite, Partitioned or Expires set, it writes `name=value`, then
/// `; HttpOnly` and `; Secure` where those are `Some(true)`, `; Path=`,
/// `; Domain=` (without one leading `.`) and `; Max-Age=` in whole seconds.
/// The `if let`s only carry an optional path and domain over.
#[verifier::external_body]
pub(crate) fn set_cookie_text(c: &Cookie) -> (r: String)
    ensures
        r@ == set_cookie_header(c@),
{
    let mut out = cookie::Cookie::new(c.name.clone(), c.value.clone());
    if let Some(p) = &c.path {
        out.set_path(p.clone());
    }
    if let Some(d) = &c.domain {
        out.set_domain(d.clone());
    }
    out.set_secure(c.secure);
    out.set_http_only(c.http_only);
    out.set_max_age(c.max_age.map(cookie::time::Duration::seconds));
    out.to_string()
}

} // verus!
