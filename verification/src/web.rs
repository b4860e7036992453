//! Web-server decisions: who may reach which page, and the address a tablet
//! connects to.

use vstd::prelude::*;
use vstd::utf8::encode_utf8;
use crate::text::str_equal;

verus! {

/// What the web server thread reports once it tried to start.
#[derive(Debug, Clone, Copy, PartialEq, Eq, Structural)]
pub enum WebStartUpMessage {
    Start,
    Error,
}

/// Messages from the web server to the GUI.
#[derive(Debug, Clone, Copy, PartialEq, Eq, Structural)]
pub enum Web2UiMessage {
    UInputInaccessible,
}

/// Name/value pairs of an `application/x-www-form-urlencoded` query string,
/// percent-decoded, in the order they appear.
pub uninterp spec fn form_urlencoded_pairs(query: Seq<u8>) -> Seq<(Seq<char>, Seq<char>)>;

pub open spec fn pairs_view(pairs: Seq<(String, String)>) -> Seq<(Seq<char>, Seq<char>)> {
    pairs.map_values(|p: (String, String)| (p.0@, p.1@))
}

/// Parses a query string into its name/value pairs with
/// `url::form_urlencoded::parse`, each pair made owned.
///
/// The contract only names the result: the pairs are those the crate's
/// decoding (splitting at `&` and the first `=`, `+` as space, percent
/// decoding, lossy UTF-8) gives for these bytes, and depend on nothing else.
#[verifier::external_body]
fn parse_query(query: &[u8]) -> (pairs: Vec<(String, String)>)
    ensures
        pairs_view(pairs@) == form_urlencoded_pairs(query@),
{
    url::form_urlencoded::parse(query).into_owned().collect()
}

/// The value of the last pair named `name`: collecting pairs into a map keeps
/// the value given last.
pub open spec fn last_value(pairs: Seq<(Seq<char>, Seq<char>)>, name: Seq<char>) -> Option<
    Seq<char>,
>
    decreases pairs.len(),
{
    if pairs.len() == 0 {
        None
    } else if pairs.last().0 == name {
        Some(pairs.last().1)
    } else {
        last_value(pairs.drop_last(), name)
    }
}

/// Whether the query's `access_code` parameter (its last occurrence) is the access code.
pub fn access_code_matches(pairs: &Vec<(String, String)>, access_code: &str) -> (r: bool)
    ensures
        r == (last_value(pairs_view(pairs@), "access_code"@) == Some(access_code@)),
{
    let ghost pv = pairs_view(pairs@);
    let mut i = pairs.len();
    assert(pv.take(i as int) =~= pv);
    while i > 0
        invariant
            i <= pairs@.len(),
            pv == pairs_view(pairs@),
            last_value(pv, "access_code"@) == last_value(pv.take(i as int), "access_code"@),
        decreases i,
    {
        let (name, value) = &pairs[i - 1];
        assert(pv.take(i as int).last() == (name@, value@));
        assert(pv.take(i as int).drop_last() =~= pv.take(i - 1));
        if str_equal(name.as_str(), "access_code") {
            return str_equal(value.as_str(), access_code);
        }
        i = i - 1;
    }
    assert(pv.take(0) =~= Seq::<(Seq<char>, Seq<char>)>::empty());
    false
}

/// Whether a request may see the page: always without an access code; with
/// one, only a GET of `/` or `/ws` whose query carries the code.
pub open spec fn spec_authorized(
    access_code: Option<Seq<char>>,
    is_get: bool,
    path: Seq<char>,
    query: Option<Seq<char>>,
) -> bool {
    match access_code {
        None => true,
        Some(code) => is_get && (path == "/"@ || path == "/ws"@) && match query {
            Some(q) => last_value(form_urlencoded_pairs(encode_utf8(q)), "access_code"@) == Some(
                code,
            ),
            None => false,
        },
    }
}

pub open spec fn opt_view(s: Option<&str>) -> Option<Seq<char>> {
    match s {
        Some(s) => Some(s@),
        None => None,
    }
}

/// Authenticates a request by the access code in its query.
pub fn authorized(
    access_code: Option<&str>,
    is_get: bool,
    path: &str,
    query: Option<&str>,
) -> (r: bool)
    ensures
        r == spec_authorized(opt_view(access_code), is_get, path@, opt_view(query)),
{
    match access_code {
        None => true,
        Some(code) => {
            if is_get && (str_equal(path, "/") || str_equal(path, "/ws")) {
                match query {
                    Some(q) => {
                        let pairs = parse_query(q.as_bytes());
                        access_code_matches(&pairs, code)
                    },
                    None => false,
                }
            } else {
                false
            }
        },
    }
}

/// What the server answers a request with.
#[derive(Debug, Clone, Copy, PartialEq, Eq, Structural)]
pub enum Route {
    NotFound,
    /// The page asking for the access code.
    AccessPage,
    /// The main page.
    Index,
    /// `401 Unauthorized`.
    Unauthorized,
    /// Upgrade to the websocket carrying input and video.
    WebSocket,
    StyleCss,
    LibJs,
}

pub open spec fn spec_route(is_get: bool, path: Seq<char>, authed: bool) -> Route {
    if !is_get {
        Route::NotFound
    } else if path == "/"@ {
        if authed {
            Route::Index
        } else {
            Route::AccessPage
        }
    } else if path == "/ws"@ {
        if authed {
            Route::WebSocket
        } else {
            Route::Unauthorized
        }
    } else if path == "/style.css"@ {
        Route::StyleCss
    } else if path == "/lib.js"@ {
        Route::LibJs
    } else {
        Route::NotFound
    }
}

/// Chooses the answer to a request: only GET is served; the main page and the
/// websocket need authentication, the style sheet and the script do not.
pub fn route(is_get: bool, path: &str, authed: bool) -> (r: Route)
    ensures
        r == spec_route(is_get, path@, authed),
{
    if !is_get {
        Route::NotFound
    } else if str_equal(path, "/") {
        if authed {
            Route::Index
        } else {
            Route::AccessPage
        }
    } else if str_equal(path, "/ws") {
        if authed {
            Route::WebSocket
        } else {
            Route::Unauthorized
        }
    } else if str_equal(path, "/style.css") {
        Route::StyleCss
    } else if str_equal(path, "/lib.js") {
        Route::LibJs
    } else {
        Route::NotFound
    }
}

} // verus!

verus! {

/// Hex digit `n` (`0 <= n < 16`) in upper case.
pub open spec fn upper_hex_digit(n: int) -> char {
    if n < 10 {
        ('0' as int + n) as char
    } else {
        ('A' as int + (n - 10)) as char
    }
}

pub open spec fn is_ascii_alphanumeric(b: u8) -> bool {
    (0x30 <= b <= 0x39) || (0x41 <= b <= 0x5a) || (0x61 <= b <= 0x7a)
}

/// One byte, percent-encoded against the set of every non-alphanumeric byte.
pub open spec fn percent_encoded_byte(b: u8) -> Seq<char> {
    if is_ascii_alphanumeric(b) {
        seq![b as char]
    } else {
        seq!['%', upper_hex_digit(b as int / 16), upper_hex_digit(b as int % 16)]
    }
}

/// Bytes percent-encoded one after the other: ASCII letters and digits stay,
/// every other byte becomes `%` and two upper-case hex digits.
pub open spec fn percent_encoded(bytes: Seq<u8>) -> Seq<char>
    decreases bytes.len(),
{
    if bytes.len() == 0 {
        Seq::empty()
    } else {
        percent_encoded_byte(bytes[0]) + percent_encoded(bytes.drop_first())
    }
}

/// Characters that may stand in a query value without escaping: ASCII
/// letters and digits, and `%`.
pub open spec fn is_query_safe(c: char) -> bool {
    ('0' <= c && c <= '9') || ('A' <= c && c <= 'Z') || ('a' <= c && c <= 'z') || c == '%'
}

/// Percent-encoded text holds only letters, digits and `%` followed by two
/// upper-case hex digits, so it can stand in a URL as it is.
pub proof fn percent_encoded_is_query_safe(bytes: Seq<u8>)
    ensures
        forall|i: int|
            0 <= i < percent_encoded(bytes).len() ==> is_query_safe(
                #[trigger] percent_encoded(bytes)[i],
            ),
    decreases bytes.len(),
{
    if bytes.len() > 0 {
        percent_encoded_is_query_safe(bytes.drop_first());
        let head = percent_encoded_byte(bytes[0]);
        let tail = percent_encoded(bytes.drop_first());
        assert forall|i: int| 0 <= i < head.len() implies is_query_safe(#[trigger] head[i]) by {
            let b = bytes[0];
            if !is_ascii_alphanumeric(b) && i > 0 {
                assert(0 <= b as int / 16 < 16);
                assert(0 <= b as int % 16 < 16);
            }
        }
        assert forall|i: int| 0 <= i < (head + tail).len() implies is_query_safe(
            #[trigger] (head + tail)[i],
        ) by {
            if i < head.len() {
                assert((head + tail)[i] == head[i]);
            } else {
                assert((head + tail)[i] == tail[i - head.len()]);
            }
        }
    }
}

/// Percent-encodes the UTF-8 bytes of `s` with
/// `percent_encoding::utf8_percent_encode` and the set `NON_ALPHANUMERIC`,
/// written out with `to_string`.
///
/// The contract claims what that crate's source does: every byte that is
/// not an ASCII letter or digit becomes `%` and two upper-case hex digits,
/// the others stay, in order.
#[verifier::external_body]
fn percent_encode_non_alphanumeric(s: &str) -> (r: String)
    ensures
        r@ == percent_encoded(encode_utf8(s@)),
{
    percent_encoding::utf8_percent_encode(s, percent_encoding::NON_ALPHANUMERIC).to_string()
}

pub open spec fn spec_connect_url(address: Seq<char>, access_code: Option<Seq<char>>) -> Seq<char> {
    match access_code {
        None => address,
        Some(code) => address + "?access_code="@ + percent_encoded(encode_utf8(code)),
    }
}

/// The address a browser opens to connect, as shown in the QR code: the
/// server's address, followed by the access code as a query parameter when
/// one is set.
pub fn connect_url(address: &str, access_code: Option<&str>) -> (r: String)
    ensures
        r@ == spec_connect_url(address@, opt_view(access_code)),
{
    let mut url = String::from_str(address);
    match access_code {
        None => {},
        Some(code) => {
            url.append("?access_code=");
            let encoded = percent_encode_non_alphanumeric(code);
            url.append(encoded.as_str());
            assert(url@ =~= address@ + "?access_code="@ + percent_encoded(encode_utf8(code@)));
        },
    }
    url
}

/// An empty access-code field means no access code.
pub fn access_code_from_field(field: &str) -> (r: Option<String>)
    ensures
        field@.len() == 0 ==> r is None,
        field@.len() > 0 ==> r is Some && r->0@ == field@,
{
    if field.unicode_len() == 0 {
        None
    } else {
        Some(String::from_str(field))
    }
}

/// The content type a page is served with; `None` for answers that are not
/// a page.
pub fn content_type(route: Route) -> (c: Option<&'static str>)
    ensures
        (route == Route::Index || route == Route::AccessPage || route == Route::NotFound) ==> (c
            matches Some(t) && t@ == "text/html; charset=utf-8"@),
        route == Route::StyleCss ==> (c matches Some(t) && t@ == "text/css; charset=utf-8"@),
        route == Route::LibJs ==> (c matches Some(t) && t@ == "text/javascript; charset=utf-8"@),
        (route == Route::Unauthorized || route == Route::WebSocket) ==> c is None,
{
    match route {
        Route::Index | Route::AccessPage | Route::NotFound => Some("text/html; charset=utf-8"),
        Route::StyleCss => Some("text/css; charset=utf-8"),
        Route::LibJs => Some("text/javascript; charset=utf-8"),
        Route::Unauthorized | Route::WebSocket => None,
    }
}

/// The server started only when its thread reported `Start`; an error or a
/// lost report means it did not.
pub fn server_started(report: Option<WebStartUpMessage>) -> (r: bool)
    ensures
        r == (report == Some(WebStartUpMessage::Start)),
{
    match report {
        Some(WebStartUpMessage::Start) => true,
        _ => false,
    }
}

/// A request that did not authenticate never gets the main page or the
/// websocket that carries input and video.
pub proof fn unauthenticated_requests_get_no_session(is_get: bool, path: Seq<char>)
    ensures
        spec_route(is_get, path, false) != Route::Index,
        spec_route(is_get, path, false) != Route::WebSocket,
{
}

/// Without an access code every request is authenticated; with one, only a
/// GET of `/` or `/ws` can be.
pub proof fn authentication_needs_code_only_when_set(
    access_code: Option<Seq<char>>,
    is_get: bool,
    path: Seq<char>,
    query: Option<Seq<char>>,
)
    ensures
        access_code is None ==> spec_authorized(access_code, is_get, path, query),
        access_code is Some && spec_authorized(access_code, is_get, path, query) ==> is_get && (
        path == "/"@ || path == "/ws"@),
        access_code is Some && query is None ==> !spec_authorized(access_code, is_get, path, query),
{
}

} // verus!
