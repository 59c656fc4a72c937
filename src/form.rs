//! Decoding of `application/x-www-form-urlencoded` request bodies.
//!
//! A body is decoded only when every `%` in it starts a well-formed escape;
//! otherwise it decodes to no pairs at all. Lookups are last-write-wins.
use vstd::prelude::*;

use crate::pairs::pairs_view;

verus! {

pub open spec fn is_hex_digit(b: u8) -> bool {
    (0x30 <= b <= 0x39) || (0x41 <= b <= 0x46) || (0x61 <= b <= 0x66)
}

/// Every `%` in `s` starts an escape `%XY` of two hexadecimal digits.
pub open spec fn percent_well_formed(s: Seq<u8>) -> bool {
    forall|i: int|
        0 <= i < s.len() && #[trigger] s[i] == 0x25u8 ==> i + 2 < s.len() && is_hex_digit(s[i + 1])
            && is_hex_digit(s[i + 2])
}

/// The HTML entity that stands for `c`, or `c` itself where none is needed.
pub open spec fn escape_char(c: char) -> Seq<char> {
    if c == '&' {
        seq!['&', 'a', 'm', 'p', ';']
    } else if c == '<' {
        seq!['&', 'l', 't', ';']
    } else if c == '>' {
        seq!['&', 'g', 't', ';']
    } else if c == '"' {
        seq!['&', 'q', 'u', 'o', 't', ';']
    } else if c == '\'' {
        seq!['&', '#', 'x', '2', '7', ';']
    } else {
        seq![c]
    }
}

/// `s` with each of `& < > " '` replaced by its HTML entity.
pub open spec fn html_escape(s: Seq<char>) -> Seq<char>
    decreases s.len(),
{
    if s.len() == 0 {
        Seq::empty()
    } else {
        html_escape(s.drop_last()) + escape_char(s.last())
    }
}

/// The pairs with every value HTML-escaped; names are kept as they are.
pub open spec fn escape_pairs(p: Seq<(Seq<char>, Seq<char>)>) -> Seq<(Seq<char>, Seq<char>)> {
    p.map_values(|e: (Seq<char>, Seq<char>)| (e.0, html_escape(e.1)))
}

/// The pairs that a body decodes to: none where it is empty or its
/// percent-encoding is malformed, else the decoder's pairs, with values
/// escaped if `sanitize`.
pub open spec fn decode_form(body: Seq<u8>, sanitize: bool) -> Seq<(Seq<char>, Seq<char>)> {
    if body.len() == 0 || !percent_well_formed(body) {
        Seq::empty()
    } else if sanitize {
        escape_pairs(form_pairs_of(body))
    } else {
        form_pairs_of(body)
    }
}

/// What the URL-encoded form decoder yields for a body.
pub uninterp spec fn form_pairs_of(body: Seq<u8>) -> Seq<(Seq<char>, Seq<char>)>;

/// Relies on `form_urlencoded::parse`: it splits the body at `&` and `=`,
/// replaces `+` by a space and percent-decodes each name and value; what it
/// yields depends on the bytes alone, and an empty body yields no pair.
#[verifier::external_body]
fn parse_form_pairs(body: &[u8]) -> (r: Vec<(String, String)>)
    ensures
        pairs_view(r@) == form_pairs_of(body@),
        body@.len() == 0 ==> r@.len() == 0,
{
    form_urlencoded::parse(body).into_owned().collect()
}

pub fn is_hex_byte(b: u8) -> (r: bool)
    ensures
        r == is_hex_digit(b),
{
    (0x30 <= b && b <= 0x39) || (0x41 <= b && b <= 0x46) || (0x61 <= b && b <= 0x66)
}

/// Whether every `%` in `s` starts a two-digit hexadecimal escape.
pub fn is_percent_well_formed(s: &[u8]) -> (r: bool)
    ensures
        r == percent_well_formed(s@),
{
    let mut i: usize = 0;
    while i < s.len()
        invariant
            i <= s@.len(),
            forall|j: int|
                0 <= j < i && #[trigger] s@[j] == 0x25u8 ==> j + 2 < s@.len() && is_hex_digit(
                    s@[j + 1],
                ) && is_hex_digit(s@[j + 2]),
        decreases s@.len() - i,
    {
        if s[i] == 0x25u8 {
            if s.len() - i <= 2 || !is_hex_byte(s[i + 1]) || !is_hex_byte(s[i + 2]) {
                assert(s@[i as int] == 0x25u8);
                return false;
            }
        }
        i += 1;
    }
    true
}

/// `s` with each of `& < > " '` replaced by its HTML entity.
pub fn escape_html(s: &str) -> (r: String)
    ensures
        r@ == html_escape(s@),
{
    let n = s.unicode_len();
    let mut out = String::new();
    let mut i: usize = 0;
    while i < n
        invariant
            n == s@.len(),
            i <= n,
            out@ == html_escape(s@.subrange(0, i as int)),
        decreases n - i,
    {
        let c = s.get_char(i);
        let ghost done = s@.subrange(0, i as int);
        assert(s@.subrange(0, i + 1).drop_last() =~= done);
        assert(s@.subrange(0, i + 1).last() == c);
        if c == '&' {
            let e = "&amp;";
            proof {
                reveal_strlit("&amp;");
            }
            out.append(e);
        } else if c == '<' {
            let e = "&lt;";
            proof {
                reveal_strlit("&lt;");
            }
            out.append(e);
        } else if c == '>' {
            let e = "&gt;";
            proof {
                reveal_strlit("&gt;");
            }
            out.append(e);
        } else if c == '"' {
            let e = "&quot;";
            proof {
                reveal_strlit("&quot;");
            }
            out.append(e);
        } else if c == '\'' {
            let e = "&#x27;";
            proof {
                reveal_strlit("&#x27;");
            }
            out.append(e);
        } else {
            let e = s.substring_char(i, i + 1);
            assert(e@ =~= seq![c]);
            out.append(e);
        }
        i += 1;
    }
    assert(s@.subrange(0, n as int) =~= s@);
    out
}

/// The pairs with every value HTML-escaped.
pub fn escape_values(pairs: &Vec<(String, String)>) -> (r: Vec<(String, String)>)
    ensures
        pairs_view(r@) == escape_pairs(pairs_view(pairs@)),
{
    let mut out: Vec<(String, String)> = Vec::new();
    let mut i: usize = 0;
    while i < pairs.len()
        invariant
            i <= pairs@.len(),
            out@.len() == i,
            pairs_view(out@) == escape_pairs(pairs_view(pairs@)).subrange(0, i as int),
        decreases pairs@.len() - i,
    {
        let p = &pairs[i];
        let name = p.0.clone();
        let value = escape_html(p.1.as_str());
        let ghost before = out@;
        out.push((name, value));
        assert(before =~= out@.subrange(0, i as int));
        assert(pairs_view(out@)[i as int] == escape_pairs(pairs_view(pairs@))[i as int]);
        assert(pairs_view(out@) =~= escape_pairs(pairs_view(pairs@)).subrange(0, i + 1));
        i += 1;
    }
    assert(escape_pairs(pairs_view(pairs@)).subrange(0, i as int) =~= escape_pairs(
        pairs_view(pairs@),
    ));
    out
}

/// The pairs that `body` decodes to, as `decode_form` states.
pub fn decode_form_body(body: &[u8], sanitize: bool) -> (r: Vec<(String, String)>)
    ensures
        pairs_view(r@) == decode_form(body@, sanitize),
{
    if !is_percent_well_formed(body) {
        let r: Vec<(String, String)> = Vec::new();
        assert(pairs_view(r@) =~= Seq::<(Seq<char>, Seq<char>)>::empty());
        return r;
    }
    let pairs = parse_form_pairs(body);
    assert(body@.len() == 0 ==> pairs_view(pairs@) =~= Seq::<(Seq<char>, Seq<char>)>::empty());
    if sanitize {
        escape_values(&pairs)
    } else {
        pairs
    }
}

} // verus!
