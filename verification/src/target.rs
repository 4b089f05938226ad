//! The scan's model of its target: the components of the base URL, and the
//! request-URL strings built from them.
//!
//! A base URL enters the scan once, as a string, and is split into the plain
//! components the engine reads — scheme, host, non-default port, path.
//! The split itself is the URL grammar's business and is left to `reqwest`;
//! everything built from the components is verified here.

use vstd::prelude::*;
use vstd::string::StrSliceExecFns;
use vstd::string::StringExecFns;

verus! {

/// The components of an absolute base URL that the scan reads.
pub struct BaseUrl {
    /// The scheme, without the `://` separator.
    pub scheme: String,
    /// The host.
    pub host: String,
    /// The port, when the URL names one other than the scheme's default.
    pub port: Option<u16>,
    /// The path component.
    pub path: String,
}

/// The mathematical model of a `BaseUrl`.
pub struct BaseUrlView {
    pub scheme: Seq<char>,
    pub host: Seq<char>,
    pub port: Option<u16>,
    pub path: Seq<char>,
}

impl View for BaseUrl {
    type V = BaseUrlView;

    open spec fn view(&self) -> BaseUrlView {
        BaseUrlView {
            scheme: self.scheme@,
            host: self.host@,
            port: self.port,
            path: self.path@,
        }
    }
}

/// What `reqwest::Url` makes of a base-URL string: `Some` exactly when the
/// string parses as an absolute URL that has a host, and then the scheme,
/// host, non-default port and path of the parsed URL. Parsing is a function
/// of the string alone.
pub uninterp spec fn url_split_of(s: Seq<char>) -> Option<BaseUrlView>;

/// Relies on `reqwest::Url::parse` and the accessors `scheme`, `host_str`,
/// `port` and `path`: splits an absolute URL into the components the scan
/// keeps. Hands back `None` when the string does not parse as an absolute
/// URL, or the URL has no host.
#[verifier::external_body]
pub(crate) fn split_url(s: &str) -> (r: Option<BaseUrl>)
    ensures
        r matches Some(b) ==> url_split_of(s@) == Some(b@),
        r is None ==> url_split_of(s@) is None,
{
    match reqwest::Url::parse(s) {
        Ok(u) => match u.host_str() {
            Some(h) => Some(BaseUrl {
                scheme: u.scheme().to_string(),
                host: h.to_string(),
                port: u.port(),
                path: u.path().to_string(),
            }),
            None => None,
        },
        Err(_) => None,
    }
}

/// The decimal digit `d` as a character; meaningful for `0 <= d <= 9`.
pub open spec fn spec_digit(d: int) -> char {
    if d == 0 {
        '0'
    } else if d == 1 {
        '1'
    } else if d == 2 {
        '2'
    } else if d == 3 {
        '3'
    } else if d == 4 {
        '4'
    } else if d == 5 {
        '5'
    } else if d == 6 {
        '6'
    } else if d == 7 {
        '7'
    } else if d == 8 {
        '8'
    } else {
        '9'
    }
}

/// The decimal rendering of `n`, most significant digit first, with no
/// leading zero except for `n == 0` itself.
pub open spec fn spec_dec(n: nat) -> Seq<char>
    decreases n,
{
    if n < 10 {
        seq![spec_digit(n as int)]
    } else {
        spec_dec(n / 10).push(spec_digit((n % 10) as int))
    }
}

/// The decimal digit `d` as a one-character string.
fn digit_str(d: u64) -> (r: &'static str)
    requires
        d < 10,
    ensures
        r@ == seq![spec_digit(d as int)],
{
    let r: &'static str = if d == 0 {
        "0"
    } else if d == 1 {
        "1"
    } else if d == 2 {
        "2"
    } else if d == 3 {
        "3"
    } else if d == 4 {
        "4"
    } else if d == 5 {
        "5"
    } else if d == 6 {
        "6"
    } else if d == 7 {
        "7"
    } else if d == 8 {
        "8"
    } else {
        "9"
    };
    proof {
        reveal_strlit("0");
        reveal_strlit("1");
        reveal_strlit("2");
        reveal_strlit("3");
        reveal_strlit("4");
        reveal_strlit("5");
        reveal_strlit("6");
        reveal_strlit("7");
        reveal_strlit("8");
        reveal_strlit("9");
        assert(r@ =~= seq![spec_digit(d as int)]);
    }
    r
}

/// Renders `n` in decimal.
pub fn dec_string(n: u64) -> (s: String)
    ensures
        s@ == spec_dec(n as nat),
    decreases n,
{
    if n < 10 {
        digit_str(n).to_owned()
    } else {
        let mut s = dec_string(n / 10);
        s.append(digit_str(n % 10));
        proof {
            assert(s@ =~= spec_dec(n as nat));
        }
        s
    }
}

/// `p` joined onto the base URL's path component: the two are separated by
/// exactly one slash.
pub open spec fn spec_join_path(base: Seq<char>, p: Seq<char>) -> Seq<char> {
    if base.len() > 0 && base.last() == '/' {
        base + p
    } else {
        base + seq!['/'] + p
    }
}

/// How one character of a candidate path is rendered into the request URL:
/// `#` and `?` are percent-encoded, so that the path probed is the whole
/// candidate rather than a shorter path with a fragment or query; every other
/// character — `%` included, so percent-encoded wordlist entries pass through
/// unchanged — is kept as written.
pub open spec fn spec_encode_char(c: char) -> Seq<char> {
    if c == '#' {
        "%23"@
    } else if c == '?' {
        "%3F"@
    } else {
        seq![c]
    }
}

/// A candidate path as rendered into the request URL: each character encoded
/// by `spec_encode_char`, in order.
pub open spec fn spec_encode_path(p: Seq<char>) -> Seq<char>
    decreases p.len(),
{
    if p.len() == 0 {
        Seq::<char>::empty()
    } else {
        spec_encode_path(p.drop_last()) + spec_encode_char(p.last())
    }
}

/// Renders a candidate path for a request URL, percent-encoding `#` and `?`.
fn encode_path(p: &str) -> (r: String)
    ensures
        r@ == spec_encode_path(p@),
{
    let len = p.unicode_len();
    let mut r = String::new();
    let mut i: usize = 0;
    proof {
        assert(r@ =~= spec_encode_path(p@.take(0)));
    }
    while i < len
        invariant
            len == p@.len(),
            i <= len,
            r@ == spec_encode_path(p@.take(i as int)),
        decreases len - i,
    {
        let c = p.get_char(i);
        if c == '#' {
            r.append("%23");
        } else if c == '?' {
            r.append("%3F");
        } else {
            r.append(p.substring_char(i, i + 1));
        }
        proof {
            assert(p@.take(i as int + 1).drop_last() =~= p@.take(i as int));
            assert(p@.take(i as int + 1).last() == p@[i as int]);
            assert(r@ =~= spec_encode_path(p@.take(i as int + 1)));
        }
        i = i + 1;
    }
    proof {
        assert(p@.take(len as int) =~= p@);
    }
    r
}

/// The port part of a rendered URL: `:` and the decimal port when one is
/// named, nothing otherwise.
pub open spec fn spec_port_part(port: Option<u16>) -> Seq<char> {
    match port {
        Some(n) => ":"@ + spec_dec(n as nat),
        None => Seq::<char>::empty(),
    }
}

/// The request URL for candidate path `p` under base `b`: the base URL's
/// scheme, host and port unchanged, and `p` — with `#` and `?`
/// percent-encoded — joined onto the base URL's path.
pub open spec fn spec_url_for(b: BaseUrlView, p: Seq<char>) -> Seq<char> {
    b.scheme + "://"@ + b.host + spec_port_part(b.port) + spec_join_path(
        b.path,
        spec_encode_path(p),
    )
}

/// The request URL for `path` under the base URL given as a string: `None`
/// exactly when the base does not parse as an absolute URL with a host. The
/// path is joined onto the base URL's path component; scheme, host and port
/// are preserved unchanged.
pub fn construct_url(path: &str, base_url: &str) -> (r: Option<String>)
    ensures
        r matches Some(u) ==> url_split_of(base_url@) matches Some(b) && u@ == spec_url_for(
            b,
            path@,
        ),
        r is None <==> url_split_of(base_url@) is None,
{
    match split_url(base_url) {
        Some(b) => Some(b.url_for(path)),
        None => None,
    }
}

impl BaseUrl {
    /// Builds the concrete request URL for one candidate path.
    pub fn url_for(&self, path: &str) -> (r: String)
        ensures
            r@ == spec_url_for(self@, path@),
    {
        let mut s = String::new();
        s.append(self.scheme.as_str());
        s.append("://");
        s.append(self.host.as_str());
        if let Some(p) = self.port {
            s.append(":");
            let rendered = dec_string(p as u64);
            s.append(rendered.as_str());
        }
        let bp: &str = self.path.as_str();
        let n = bp.unicode_len();
        let ends_slash = if n == 0 {
            false
        } else {
            bp.get_char(n - 1) == '/'
        };
        s.append(bp);
        if !ends_slash {
            s.append("/");
        }
        let encoded = encode_path(path);
        s.append(encoded.as_str());
        proof {
            reveal_strlit("/");
            assert(s@ =~= spec_url_for(self@, path@));
        }
        s
    }
}

} // verus!
