//! The session context, the requests it sends, and the URLs that carry them.
use vstd::prelude::*;
use crate::error::Error;
use crate::query::{encode_into, pairs_view, serialize, serialize_pairs, Query, encode};
use crate::text::str_eq;

verus! {

/// One call to the server: an operation and its parameters.
pub struct Request {
    pub operation: String,
    pub query: Query,
}

impl View for Request {
    type V = (Seq<char>, Seq<(Seq<char>, Seq<char>)>);

    open spec fn view(&self) -> (Seq<char>, Seq<(Seq<char>, Seq<char>)>) {
        (self.operation@, self.query@)
    }
}

impl Request {
    pub fn new(operation: &str, query: Query) -> (r: Request)
        ensures
            r@ == (operation@, query@),
    {
        Request { operation: String::from_str(operation), query }
    }
}

/// The server's address and the credentials sent with every request.
pub struct Client {
    pub base_url: String,
    pub user: String,
    pub password: String,
    pub version: String,
    pub client_name: String,
}

/// The length of the base URL's scheme and `://`: 7 for http, 8 for https, 0 for
/// any other.
pub open spec fn scheme_len(b: Seq<char>) -> int {
    if b.len() >= 7 && b.subrange(0, 7) == "http://"@ {
        7
    } else if b.len() >= 8 && b.subrange(0, 8) == "https://"@ {
        8
    } else {
        0
    }
}

/// The characters that end the host part of a URL.
pub open spec fn is_delimiter(c: char) -> bool {
    c == '/' || c == '?' || c == '#'
}

/// The characters that a host, with its optional port, may hold: ASCII letters
/// and digits, `-`, `.`, `_`, `~`, `%`, and `:`, `[`, `]` for ports and IPv6 literals.
pub open spec fn is_host_char(c: char) -> bool {
    ('a' <= c && c <= 'z') || ('A' <= c && c <= 'Z') || ('0' <= c && c <= '9') || c == '-'
        || c == '.' || c == '_' || c == '~' || c == '%' || c == ':' || c == '[' || c == ']'
}

/// The index where the host part that starts at `i` ends: the first delimiter, or the end.
pub open spec fn host_end(b: Seq<char>, i: int) -> int
    decreases b.len() - i,
{
    if i < 0 || i >= b.len() || is_delimiter(b[i]) {
        i
    } else {
        host_end(b, i + 1)
    }
}

/// A base URL that the client accepts: an http or https address whose host is
/// not empty, does not start with a port, and holds only host characters.
pub open spec fn valid_base(b: Seq<char>) -> bool {
    let k = scheme_len(b);
    let e = host_end(b, k);
    &&& k > 0
    &&& e > k
    &&& b[k] != ':'
    &&& forall|i: int| k <= i < e ==> is_host_char(#[trigger] b[i])
}

/// The base URL without one trailing slash.
pub open spec fn trimmed_base(b: Seq<char>) -> Seq<char> {
    if b.len() > 0 && b.last() == '/' {
        b.drop_last()
    } else {
        b
    }
}

/// The parameters that authenticate a request and ask for JSON.
pub open spec fn auth_pairs(c: Client) -> Seq<(Seq<char>, Seq<char>)> {
    seq![
        ("u"@, c.user@),
        ("p"@, c.password@),
        ("v"@, c.version@),
        ("c"@, c.client_name@),
        ("f"@, "json"@),
    ]
}

/// The URL of an operation with its parameters, followed by the authentication parameters.
pub open spec fn spec_url(
    c: Client,
    operation: Seq<char>,
    pairs: Seq<(Seq<char>, Seq<char>)>,
) -> Seq<char> {
    trimmed_base(c.base_url@) + "/rest/"@ + encode(operation) + "?"@ + serialize(
        pairs + auth_pairs(c),
    )
}

fn has_prefix(s: &str, p: &str) -> (r: bool)
    ensures
        r == (s@.len() >= p@.len() && s@.subrange(0, p@.len() as int) == p@),
{
    let n = p.unicode_len();
    if s.unicode_len() < n {
        return false;
    }
    str_eq(s.substring_char(0, n), p)
}

/// Whether the host part of `b` that starts at `k` is not empty, does not start
/// with `:`, and holds only host characters.
fn host_ok(b: &str, k: usize) -> (r: bool)
    requires
        0 < k <= b@.len(),
    ensures
        r == (host_end(b@, k as int) > k && b@[k as int] != ':' && forall|i: int|
            k <= i < host_end(b@, k as int) ==> is_host_char(#[trigger] b@[i])),
{
    let n = b.unicode_len();
    let mut i: usize = k;
    while i < n
        invariant
            n == b@.len(),
            k <= i <= n,
            host_end(b@, k as int) == host_end(b@, i as int),
            forall|j: int| k <= j < i ==> is_host_char(#[trigger] b@[j]) && !is_delimiter(b@[j]),
        decreases n - i,
    {
        let c = b.get_char(i);
        if c == '/' || c == '?' || c == '#' {
            assert(host_end(b@, i as int) == i);
            return i > k && b.get_char(k) != ':';
        }
        let host_char = ('a' <= c && c <= 'z') || ('A' <= c && c <= 'Z') || ('0' <= c && c
            <= '9') || c == '-' || c == '.' || c == '_' || c == '~' || c == '%' || c == ':' || c
            == '[' || c == ']';
        if !host_char {
            assert(host_end(b@, k as int) > i) by {
                lemma_host_end_past(b@, k as int, i as int);
            }
            return false;
        }
        i = i + 1;
    }
    assert(host_end(b@, n as int) == n);
    if i == k {
        return false;
    }
    b.get_char(k) != ':'
}

/// Where every character from `k` up to `i` is no delimiter, the host part
/// ends past `i`, or at it.
proof fn lemma_host_end_past(b: Seq<char>, k: int, i: int)
    requires
        0 <= k <= i < b.len(),
        !is_delimiter(b[i]),
        host_end(b, k) == host_end(b, i),
    ensures
        host_end(b, k) > i,
    decreases b.len() - i,
{
    lemma_host_end_ge(b, i + 1);
}

proof fn lemma_host_end_ge(b: Seq<char>, i: int)
    requires
        0 <= i,
    ensures
        host_end(b, i) >= i,
    decreases b.len() - i,
{
    if i < b.len() && !is_delimiter(b[i]) {
        lemma_host_end_ge(b, i + 1);
    }
}

impl Client {
    /// The authentication parameters, in order.
    fn auth(&self) -> (r: Vec<(String, String)>)
        ensures
            pairs_view(r@) == auth_pairs(*self),
    {
        let r = Query::new().arg("u", self.user.clone()).arg("p", self.password.clone()).arg(
            "v",
            self.version.clone(),
        ).arg("c", self.client_name.clone()).arg("f", String::from_str("json")).build();
        assert(pairs_view(r@) =~= auth_pairs(*self));
        r
    }

    /// The absolute URL of `operation` with `pairs`, or `UrlConstruction` when the
    /// base URL is not an http or https address.
    pub fn build_url(&self, operation: &str, pairs: Vec<(String, String)>) -> (r: Result<
        String,
        Error,
    >)
        ensures
            match r {
                Ok(u) => valid_base(self.base_url@) && u@ == spec_url(
                    *self,
                    operation@,
                    pairs_view(pairs@),
                ),
                Err(e) => !valid_base(self.base_url@) && e == Error::UrlConstruction,
            },
    {
        proof {
            reveal_strlit("http://");
            reveal_strlit("https://");
        }
        let base = self.base_url.as_str();
        let k: usize = if has_prefix(base, "http://") {
            7
        } else if has_prefix(base, "https://") {
            8
        } else {
            return Err(Error::UrlConstruction);
        };
        if base.unicode_len() <= k || !host_ok(base, k) {
            return Err(Error::UrlConstruction);
        }
        let n = base.unicode_len();
        let mut url = String::new();
        if base.get_char(n - 1) == '/' {
            url.append(base.substring_char(0, n - 1));
            assert(url@ =~= trimmed_base(self.base_url@));
        } else {
            url.append(base);
            assert(url@ =~= trimmed_base(self.base_url@));
        }
        url.append("/rest/");
        encode_into(&mut url, operation);
        url.append("?");
        let mut all = pairs;
        let ghost given = all@;
        let mut auth = self.auth();
        all.append(&mut auth);
        assert(pairs_view(all@) =~= pairs_view(given) + auth_pairs(*self));
        let q = serialize_pairs(&all);
        url.append(q.as_str());
        Ok(url)
    }
}

} // verus!
