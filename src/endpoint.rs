//! Turning a device name (`10.0.0.5`, `10.0.0.5:8080`, `http://10.0.0.5`)
//! into the text of an absolute base URL.

use vstd::prelude::*;

verus! {

#[verifier::external_type_specification]
#[verifier::external_body]
pub struct ExParseError(url::ParseError);

/// Why a text did not parse as an absolute URL.
#[derive(Debug)]
pub enum UrlError {
    /// The text names no scheme, so it could only be a relative URL.
    MissingScheme,
    /// Any other failure, as the url crate reports it.
    Invalid(url::ParseError),
}

/// What the url crate's parser makes of a text, with no base URL: the
/// serialization of the URL, or the error.
pub uninterp spec fn url_parse(s: Seq<char>) -> Result<Seq<char>, UrlError>;

/// What the url crate makes of a path joined onto a base URL text.
pub uninterp spec fn url_join(base: Seq<char>, path: Seq<char>) -> Result<Seq<char>, url::ParseError>;

pub open spec fn is_ascii_alpha(c: char) -> bool {
    ('a' <= c && c <= 'z') || ('A' <= c && c <= 'Z')
}

pub open spec fn is_scheme_char(c: char) -> bool {
    is_ascii_alpha(c) || ('0' <= c && c <= '9') || c == '+' || c == '-' || c == '.'
}

/// The text begins with a scheme of `k` characters followed by `:`.
pub open spec fn scheme_at(s: Seq<char>, k: int) -> bool {
    &&& 0 < k < s.len()
    &&& is_ascii_alpha(s[0])
    &&& s[k] == ':'
    &&& forall|j: int| 0 <= j < k ==> is_scheme_char(#[trigger] s[j])
}

pub open spec fn has_scheme(s: Seq<char>) -> bool {
    exists|k: int| scheme_at(s, k)
}

/// No space, tab, newline or other control character below the space.
pub open spec fn plain_text(s: Seq<char>) -> bool {
    forall|i: int| 0 <= i < s.len() ==> (#[trigger] s[i]) > ' '
}

/// `d` is `c` with an ASCII capital made small.
pub open spec fn lowered(c: char, d: char) -> bool {
    if 'A' <= c && c <= 'Z' {
        d as u32 == c as u32 + 32
    } else {
        d == c
    }
}

/// The URL text `h` begins with the first `k` characters of `s` in lower
/// case, a scheme, then `:`.
pub open spec fn begins_with_scheme_of(h: Seq<char>, s: Seq<char>, k: int) -> bool {
    &&& scheme_at(h, k)
    &&& k <= s.len()
    &&& forall|j: int| 0 <= j < k ==> lowered(s[j], #[trigger] h[j])
}

/// `t` spells `name`, ignoring the case of ASCII letters.
pub open spec fn names(t: Seq<char>, name: Seq<char>) -> bool {
    t.len() == name.len() && forall|j: int| 0 <= j < t.len() ==> lowered(t[j], #[trigger] name[j])
}

/// The schemes that the URL standard treats as special.
pub open spec fn special_scheme(t: Seq<char>) -> bool {
    ||| names(t, seq!['h', 't', 't', 'p'])
    ||| names(t, seq!['h', 't', 't', 'p', 's'])
    ||| names(t, seq!['w', 's'])
    ||| names(t, seq!['w', 's', 's'])
    ||| names(t, seq!['f', 't', 'p'])
    ||| names(t, seq!['f', 'i', 'l', 'e'])
}

/// A URL text whose path begins with `/` right after the scheme's `:`: not
/// a cannot-be-a-base URL, so a relative path can be joined onto it.
pub open spec fn joinable_base(h: Seq<char>) -> bool {
    exists|k: int| scheme_at(h, k) && k + 1 < h.len() && h[k + 1] == '/'
}

/// A host name that begins with a letter, then `:` and a port number; the
/// URL grammar alone would read the host as a scheme.
pub open spec fn named_host_and_port(s: Seq<char>) -> bool {
    exists|k: int|
        #![trigger scheme_at(s, k)]
        scheme_at(s, k) && k + 1 < s.len() && !special_scheme(s.take(k)) && forall|j: int|
            k < j < s.len() ==> '0' <= #[trigger] s[j] && s[j] <= '9'
}

pub open spec fn http_prefix() -> Seq<char> {
    seq!['h', 't', 't', 'p', ':', '/', '/']
}

/// The base URL that a device name resolves to: the text parsed as it is,
/// or, where that names no scheme or gives no URL that can be a base (as
/// `localhost:8080` read as the scheme `localhost`), parsed again behind
/// `http://`.
pub open spec fn resolve_spec(s: Seq<char>) -> Result<Seq<char>, UrlError> {
    match url_parse(s) {
        Err(UrlError::MissingScheme) => url_parse(http_prefix() + s),
        Ok(h) => if joinable_base(h) {
            Ok(h)
        } else {
            url_parse(http_prefix() + s)
        },
        other => other,
    }
}

/// Relies on url::Url::parse, with no base URL, and on the url crate's
/// parser as its source shows it: it fails with `RelativeUrlWithoutBase`
/// exactly where, after leading spaces and C0 controls are trimmed, no
/// scheme followed by `:` begins the text; and the serialization of a parsed
/// URL begins with its scheme in lower case, then `:`. After a special
/// scheme such as `http` it goes on with `//`; after another scheme that is
/// not followed by `/`, the URL cannot be a base and its serialization has
/// no `/` after the `:`.
#[verifier::external_body]
fn parse_url(s: &str) -> (r: Result<String, UrlError>)
    ensures
        match r {
            Ok(h) => url_parse(s@) == Ok::<Seq<char>, UrlError>(h@),
            Err(e) => url_parse(s@) == Err::<Seq<char>, UrlError>(e),
        },
        plain_text(s@) ==> (r matches Err(UrlError::MissingScheme) <==> !has_scheme(s@)),
        forall|k: int|
            #![trigger scheme_at(s@, k)]
            scheme_at(s@, k) ==> !(r matches Err(UrlError::MissingScheme)) && (r matches Ok(h)
                ==> begins_with_scheme_of(h@, s@, k)),
        forall|k: int|
            #![trigger scheme_at(s@, k)]
            scheme_at(s@, k) && special_scheme(s@.take(k)) && r is Ok ==> k + 2 < r->Ok_0@.len()
                && r->Ok_0@[k + 1] == '/' && r->Ok_0@[k + 2] == '/',
        forall|k: int|
            #![trigger scheme_at(s@, k)]
            plain_text(s@) && scheme_at(s@, k) && !special_scheme(s@.take(k)) && (k + 1 == s@.len()
                || s@[k + 1] != '/') && r is Ok ==> k + 1 == r->Ok_0@.len() || r->Ok_0@[k + 1]
                != '/',
{
    match url::Url::parse(s) {
        Ok(u) => Ok(String::from(u)),
        Err(url::ParseError::RelativeUrlWithoutBase) => Err(UrlError::MissingScheme),
        Err(e) => Err(UrlError::Invalid(e)),
    }
}

/// Relies on url::Url::join, applied to the base text as url::Url::parse
/// reads it: the serialization of the joined URL, or the error.
#[verifier::external_body]
pub(crate) fn join_url(base: &str, path: &str) -> (r: Result<String, url::ParseError>)
    ensures
        match r {
            Ok(h) => url_join(base@, path@) == Ok::<Seq<char>, url::ParseError>(h@),
            Err(e) => url_join(base@, path@) == Err::<Seq<char>, url::ParseError>(e),
        },
{
    url::Url::parse(base).and_then(|b| b.join(path)).map(String::from)
}

/// A URL text that begins with `http://`.
pub open spec fn http_base(h: Seq<char>) -> bool {
    h.len() >= 7 && h.take(7) == http_prefix()
}

proof fn lemma_scheme_unique(h: Seq<char>, k1: int, k2: int)
    requires
        scheme_at(h, k1),
        scheme_at(h, k2),
    ensures
        k1 == k2,
{
    if k1 < k2 {
        assert(is_scheme_char(h[k1]));
    } else if k2 < k1 {
        assert(is_scheme_char(h[k2]));
    }
}

/// Whether a URL text can serve as a base: a scheme, `:`, then `/`.
fn is_joinable_base(h: &str) -> (r: bool)
    ensures
        r == joinable_base(h@),
{
    let n = h.unicode_len();
    if n == 0 {
        return false;
    }
    let c0 = h.get_char(0);
    if !(('a' <= c0 && c0 <= 'z') || ('A' <= c0 && c0 <= 'Z')) {
        return false;
    }
    let mut k: usize = 1;
    while k < n
        invariant
            1 <= k <= n,
            n == h@.len(),
            is_ascii_alpha(h@[0]),
            forall|j: int| 0 <= j < k ==> is_scheme_char(#[trigger] h@[j]),
        decreases n - k,
    {
        let c = h.get_char(k);
        if c == ':' {
            assert(scheme_at(h@, k as int));
            let r = k + 1 < n && h.get_char(k + 1) == '/';
            proof {
                if joinable_base(h@) {
                    let k2 = choose|k2: int| scheme_at(h@, k2) && k2 + 1 < h@.len() && h@[k2 + 1] == '/';
                    lemma_scheme_unique(h@, k as int, k2);
                }
            }
            return r;
        }
        if !(('a' <= c && c <= 'z') || ('A' <= c && c <= 'Z') || ('0' <= c && c <= '9') || c == '+'
            || c == '-' || c == '.') {
            proof {
                if joinable_base(h@) {
                    let k2 = choose|k2: int| scheme_at(h@, k2) && k2 + 1 < h@.len() && h@[k2 + 1] == '/';
                    if k2 > k {
                        assert(is_scheme_char(h@[k as int]));
                    }
                }
            }
            return false;
        }
        k = k + 1;
    }
    proof {
        if joinable_base(h@) {
            let k2 = choose|k2: int| scheme_at(h@, k2) && k2 + 1 < h@.len() && h@[k2 + 1] == '/';
            assert(is_scheme_char(h@[k2]));
        }
    }
    false
}

/// Parses the device name behind `http://`.
fn parse_behind_http(endpoint: &str) -> (r: Result<String, url::ParseError>)
    ensures
        match r {
            Ok(h) => url_parse(http_prefix() + endpoint@) == Ok::<Seq<char>, UrlError>(h@)
                && http_base(h@) && joinable_base(h@),
            Err(e) => url_parse(http_prefix() + endpoint@) == Err::<Seq<char>, UrlError>(
                UrlError::Invalid(e),
            ),
        },
{
    let mut text = "http://".to_owned();
    text.append(endpoint);
    proof {
        reveal_strlit("http://");
        assert(text@ =~= http_prefix() + endpoint@);
        assert(scheme_at(text@, 4));
        assert(text@.take(4) =~= seq!['h', 't', 't', 'p']);
        assert(special_scheme(text@.take(4)));
    }
    match parse_url(text.as_str()) {
        Ok(h) => {
            proof {
                assert(h@.take(7) =~= http_prefix());
                assert(scheme_at(h@, 4));
            }
            Ok(h)
        },
        Err(UrlError::Invalid(e)) => Err(e),
        Err(UrlError::MissingScheme) => vstd::pervasive::unreached(),
    }
}

/// Resolves a device name to the text of an absolute base URL that a
/// relative path can be joined onto. A name whose own parse gives such a
/// URL keeps its scheme (in lower case); a host or host and port gets
/// `http`; every other failure of the first parse is final.
pub fn resolve_endpoint(endpoint: &str) -> (r: Result<String, url::ParseError>)
    ensures
        r is Ok <==> resolve_spec(endpoint@) is Ok,
        r matches Ok(h) ==> resolve_spec(endpoint@) == Ok::<Seq<char>, UrlError>(h@),
        r matches Err(e) ==> resolve_spec(endpoint@) == Err::<Seq<char>, UrlError>(
            UrlError::Invalid(e),
        ),
        r matches Ok(h) ==> joinable_base(h@),
        // a name without a scheme is read as an `http` URL
        plain_text(endpoint@) && !has_scheme(endpoint@) ==> {
            &&& resolve_spec(endpoint@) == url_parse(http_prefix() + endpoint@)
            &&& r matches Ok(h) ==> http_base(h@)
        },
        // so is a host name with a port, which the URL grammar reads as a scheme
        plain_text(endpoint@) && named_host_and_port(endpoint@) ==> {
            &&& url_parse(endpoint@) is Ok ==> resolve_spec(endpoint@) == url_parse(
                http_prefix() + endpoint@,
            )
            &&& r matches Ok(h) ==> http_base(h@)
        },
        // a name with a scheme whose parse can be a base is kept as it parsed
        forall|k: int|
            #![trigger scheme_at(endpoint@, k)]
            scheme_at(endpoint@, k) && url_parse(endpoint@) is Ok && joinable_base(
                url_parse(endpoint@)->Ok_0,
            ) ==> {
                &&& resolve_spec(endpoint@) == url_parse(endpoint@)
                &&& r matches Ok(h) && begins_with_scheme_of(h@, endpoint@, k)
            },
        // which a special scheme such as `http` or `https` always can
        forall|k: int|
            #![trigger scheme_at(endpoint@, k)]
            scheme_at(endpoint@, k) && special_scheme(endpoint@.take(k)) ==> resolve_spec(endpoint@)
                == url_parse(endpoint@),
{
    match parse_url(endpoint) {
        Ok(h) => {
            if is_joinable_base(h.as_str()) {
                Ok(h)
            } else {
                proof {
                    if named_host_and_port(endpoint@) && plain_text(endpoint@) {
                        let k = choose|k: int|
                            #![trigger scheme_at(endpoint@, k)]
                            scheme_at(endpoint@, k) && k + 1 < endpoint@.len() && !special_scheme(
                                endpoint@.take(k),
                            ) && forall|j: int|
                                k < j < endpoint@.len() ==> '0' <= #[trigger] endpoint@[j]
                                    && endpoint@[j] <= '9';
                        assert('0' <= endpoint@[k + 1]);
                    }
                    if exists|k: int| scheme_at(endpoint@, k) && special_scheme(endpoint@.take(k)) {
                        let k = choose|k: int|
                            scheme_at(endpoint@, k) && special_scheme(endpoint@.take(k));
                        assert(scheme_at(h@, k));
                    }
                }
                parse_behind_http(endpoint)
            }
        },
        Err(UrlError::Invalid(e)) => Err(e),
        Err(UrlError::MissingScheme) => parse_behind_http(endpoint),
    }
}

} // verus!
