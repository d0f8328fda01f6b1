//! The request that opens a connection: its URL, its target and its headers.
use crate::client::backend::{header_list, HandshakeRequest, Request, Target};
use crate::text::{join3, same_text};
use std::str::FromStr;
use vstd::prelude::*;

verus! {

/// Letters, digits, and the marks `-`, `.` and `_`.
pub open spec fn plain_char(c: char) -> bool {
    ||| 'a' <= c <= 'z'
    ||| 'A' <= c <= 'Z'
    ||| '0' <= c <= '9'
    ||| c == '-'
    ||| c == '.'
    ||| c == '_'
}

/// A path of plain characters and slashes, from the root.
pub open spec fn plain_path(path: Seq<char>) -> bool {
    &&& path.len() > 0
    &&& path[0] == '/'
    &&& forall|i: int|
        0 <= i < path.len() ==> plain_char(#[trigger] path[i]) || path[i] == '/'
}

/// A query of plain characters, `=` and `&`.
pub open spec fn plain_query(query: Seq<char>) -> bool {
    forall|i: int|
        0 <= i < query.len() ==> plain_char(#[trigger] query[i]) || query[i] == '=' || query[i]
            == '&'
}

/// The longest target that is taken.
pub open spec fn target_limit() -> nat {
    65534
}

/// A target that is short enough and has nothing in it to escape.
pub open spec fn plain_target(path: Seq<char>, query: Seq<char>) -> bool {
    &&& plain_path(path)
    &&& plain_query(query)
    &&& path.len() + 1 + query.len() <= target_limit()
}

/// A host name of lower-case letters, with single dots between them.
pub open spec fn plain_host(host: Seq<char>) -> bool {
    &&& host.len() > 0
    &&& forall|i: int|
        0 <= i < host.len() ==> 'a' <= #[trigger] host[i] <= 'z' || (host[i] == '.' && 0 < i
            < host.len() - 1 && host[i - 1] != '.')
}

/// No segment of the path begins with a dot, as those that stand for a directory do.
pub open spec fn no_dot_segment(path: Seq<char>) -> bool {
    forall|i: int| 0 < i < path.len() && (#[trigger] path[i]) == '.' ==> path[i - 1] != '/'
}

/// Where a service is reached: host, path, and query where there is one.
#[verifier::ext_equal]
pub struct Address {
    pub host: Seq<char>,
    pub path: Seq<char>,
    pub query: Option<Seq<char>>,
}

impl Address {
    /// The WebSocket URL of the address.
    pub open spec fn text(self) -> Seq<char> {
        "wss://"@ + self.host + self.path + match self.query {
            Some(query) => "?"@ + query,
            None => Seq::empty(),
        }
    }

    /// The address is short enough and has nothing in it to escape or to resolve.
    pub open spec fn plain(self) -> bool {
        &&& plain_host(self.host)
        &&& plain_path(self.path)
        &&& no_dot_segment(self.path)
        &&& self.query matches Some(query) ==> plain_query(query)
        &&& self.text().len() <= target_limit()
    }

    /// The request for the address, before any header is set.
    pub open spec fn request(self) -> Request {
        Request {
            scheme: Some("wss"@),
            authority: Some(self.host),
            target: Some((self.path, self.query)),
            headers: Seq::empty(),
        }
    }
}

/// The URL is that of a plain address.
pub open spec fn is_plain_url(url: Seq<char>) -> bool {
    exists|address: Address| address.plain() && url == #[trigger] address.text()
}

/// What the URL parser makes of a text: the URL in normal form, or the display
/// text of the error.
pub uninterp spec fn parsed_url(text: Seq<char>) -> Result<Seq<char>, Seq<char>>;

/// A text or the display text of an error, as mathematics.
pub open spec fn text_or_error(r: Result<String, String>) -> Result<Seq<char>, Seq<char>> {
    match r {
        Ok(s) => Ok(s@),
        Err(e) => Err(e@),
    }
}

/// The outcome is this text.
pub open spec fn is_text(outcome: Result<Seq<char>, Seq<char>>, text: Seq<char>) -> bool {
    outcome matches Ok(got) && got == text
}

/// Calls `url::Url::parse` and takes the URL's `as_str`. Claimed of it: what comes
/// back depends on the text alone, and the URL of a plain address comes back as it
/// is.
#[verifier::external_body]
pub(crate) fn parse_url(text: &str) -> (r: Result<String, String>)
    ensures
        text_or_error(r) == parsed_url(text@),
        is_plain_url(text@) ==> is_text(text_or_error(r), text@),
{
    url::Url::parse(text).map(|u| u.as_str().to_string()).map_err(|e| e.to_string())
}

/// What the builder of a GET request makes of a URL: the request, or the display
/// text of the error.
pub uninterp spec fn built_request(url: Seq<char>) -> Result<Request, Seq<char>>;

/// A request or the display text of an error, as mathematics.
pub open spec fn request_or_error(r: Result<HandshakeRequest, String>) -> Result<
    Request,
    Seq<char>,
> {
    match r {
        Ok(request) => Ok(request@),
        Err(e) => Err(e@),
    }
}

/// The outcome is this request.
pub open spec fn is_request(outcome: Result<Request, Seq<char>>, request: Request) -> bool {
    outcome matches Ok(got) && got == request
}

/// Builds a GET request with `http::Request::builder` and takes its URI apart with
/// `http::Uri::into_parts`. Claimed of it: what comes back depends on the URL
/// alone, the request has no headers yet, and the URL of a plain address gives the
/// request for that address.
#[verifier::external_body]
fn build_request(url: &str) -> (r: Result<HandshakeRequest, String>)
    ensures
        request_or_error(r) == built_request(url@),
        r matches Ok(request) ==> request@.headers.len() == 0,
        forall|address: Address|
            address.plain() && url@ == #[trigger] address.text() ==> is_request(
                request_or_error(r),
                address.request(),
            ),
{
    let built = http::Request::builder().method("GET").uri(url).body(());
    let parts = built.map_err(|e| e.to_string())?.uri().clone().into_parts();
    Ok(HandshakeRequest {
        scheme: parts.scheme.map(|s| s.to_string()),
        authority: parts.authority.map(|a| a.to_string()),
        target: parts.path_and_query.map(
            |p| Target { path: p.path().to_string(), query: p.query().map(|q| q.to_string()) },
        ),
        headers: Vec::new(),
    })
}

/// The request for a URL: that for its address, where the address is plain, and
/// otherwise what the builder makes of it.
pub open spec fn requested(url: Seq<char>) -> Result<Request, Seq<char>> {
    if is_plain_url(url) {
        Ok((choose|address: Address| address.plain() && url == #[trigger] address.text()).request())
    } else {
        built_request(url)
    }
}

/// The request for a URL.
pub(crate) fn request_for(url: &str) -> (r: Result<HandshakeRequest, String>)
    ensures
        request_or_error(r) == requested(url@),
{
    build_request(url)
}

/// Plain addresses with the same URL are the same.
proof fn lemma_address_unique(a: Address, b: Address)
    requires
        a.plain(),
        b.plain(),
        a.text() == b.text(),
    ensures
        a == b,
{
    reveal_strlit("wss://");
    reveal_strlit("?");
    lemma_host_not_shorter(a, b);
    lemma_host_not_shorter(b, a);
    assert(a.host =~= b.host) by {
        assert forall|i: int| 0 <= i < a.host.len() implies a.host[i] == b.host[i] by {
            assert(a.text()[6 + i] == a.host[i]);
            assert(b.text()[6 + i] == b.host[i]);
        }
    }
    lemma_path_not_shorter(a, b);
    lemma_path_not_shorter(b, a);
    let start = 6 + a.host.len();
    assert(a.path =~= b.path) by {
        assert forall|i: int| 0 <= i < a.path.len() implies a.path[i] == b.path[i] by {
            assert(a.text()[start + i] == a.path[i]);
            assert(b.text()[start + i] == b.path[i]);
        }
    }
    let end = start + a.path.len();
    match (a.query, b.query) {
        (Some(p), Some(q)) => {
            assert(p =~= q) by {
                assert forall|i: int| 0 <= i < p.len() implies p[i] == q[i] by {
                    assert(a.text()[end + 1 + i] == p[i]);
                    assert(b.text()[end + 1 + i] == q[i]);
                }
            }
        },
        _ => {},
    }
}

/// Of two plain addresses with the same URL, the first's host is not the shorter.
proof fn lemma_host_not_shorter(a: Address, b: Address)
    requires
        a.plain(),
        b.plain(),
        a.text() == b.text(),
    ensures
        a.host.len() >= b.host.len(),
{
    reveal_strlit("wss://");
    if a.host.len() < b.host.len() {
        let n = a.host.len() as int;
        assert(a.text()[6 + n] == a.path[0]);
        assert(b.text()[6 + n] == b.host[n]);
    }
}

/// Of two plain addresses with the same host and URL, the first's path is not the
/// shorter.
proof fn lemma_path_not_shorter(a: Address, b: Address)
    requires
        a.plain(),
        b.plain(),
        a.text() == b.text(),
        a.host == b.host,
    ensures
        a.path.len() >= b.path.len(),
{
    reveal_strlit("wss://");
    reveal_strlit("?");
    if a.path.len() < b.path.len() {
        let n = a.path.len() as int;
        let at = 6 + a.host.len() + n;
        assert(b.text()[at] == b.path[n]);
        match a.query {
            Some(query) => {
                assert(a.text()[at] == '?');
            },
            None => {
                assert(a.text().len() == at);
            },
        }
    }
}

/// The URL of a plain address gives the request for that address.
pub proof fn law_plain_request(address: Address)
    requires
        address.plain(),
    ensures
        requested(address.text()) == Ok::<Request, Seq<char>>(address.request()),
{
    let url = address.text();
    assert(is_plain_url(url));
    let other = choose|other: Address| other.plain() && url == #[trigger] other.text();
    lemma_address_unique(address, other);
}

/// What the parser of request targets makes of a text: path and query, or the
/// display text of the error.
pub uninterp spec fn parsed_target(text: Seq<char>) -> Result<
    (Seq<char>, Option<Seq<char>>),
    Seq<char>,
>;

/// A target or the display text of an error, as mathematics.
pub open spec fn target_or_error(r: Result<Target, String>) -> Result<
    (Seq<char>, Option<Seq<char>>),
    Seq<char>,
> {
    match r {
        Ok(target) => Ok(target@),
        Err(e) => Err(e@),
    }
}

/// The outcome is this path with this query.
pub open spec fn is_target(
    outcome: Result<(Seq<char>, Option<Seq<char>>), Seq<char>>,
    path: Seq<char>,
    query: Seq<char>,
) -> bool {
    outcome matches Ok(target) && target.0 == path && target.1 == Some(query)
}

/// Calls `http::uri::PathAndQuery::from_str` and takes the result's `path` and
/// `query`. Claimed of it: what comes back depends on the text alone, and a plain
/// path and a plain query, joined by `?`, come back as they are.
#[verifier::external_body]
fn parse_target(text: &str) -> (r: Result<Target, String>)
    ensures
        target_or_error(r) == parsed_target(text@),
        forall|path: Seq<char>, query: Seq<char>|
            #[trigger] plain_target(path, query) && text@ == path + "?"@ + query ==> is_target(
                target_or_error(r),
                path,
                query,
            ),
{
    http::uri::PathAndQuery::from_str(text).map(
        |p| Target { path: p.path().to_string(), query: p.query().map(|q| q.to_string()) },
    ).map_err(|e| e.to_string())
}

/// The target of a path and a query: the two as they are, where they are plain, and
/// otherwise what the parser makes of them.
pub open spec fn target_of(path: Seq<char>, query: Seq<char>) -> Result<
    (Seq<char>, Option<Seq<char>>),
    Seq<char>,
> {
    if plain_target(path, query) {
        Ok((path, Some(query)))
    } else {
        parsed_target(path + "?"@ + query)
    }
}

/// The target of a path and a query.
pub(crate) fn join_target(path: &str, query: &str) -> (r: Result<Target, String>)
    ensures
        target_or_error(r) == target_of(path@, query@),
{
    parse_target(join3(path, "?", query).as_str())
}

/// A character that a header's value may hold.
pub open spec fn header_char(c: char) -> bool {
    (c >= ' ' && c != '\u{7f}') || c == '\t'
}

/// A text that can be a header's value.
pub open spec fn header_text(text: Seq<char>) -> bool {
    forall|i: int| 0 <= i < text.len() ==> header_char(#[trigger] text[i])
}

/// Calls `http::HeaderValue::from_str`. Claimed of it: it takes exactly the texts
/// without control characters other than the tab, and has one error, with this
/// display text.
#[verifier::external_body]
pub(crate) fn check_header_value(text: &str) -> (r: Result<(), String>)
    ensures
        r is Ok <==> header_text(text@),
        r matches Err(e) ==> e@ == "failed to parse header value"@,
{
    http::HeaderValue::from_str(text).map(|_| ()).map_err(|e| e.to_string())
}

/// The headers without those of this name.
pub open spec fn without_header(
    headers: Seq<(Seq<char>, Seq<char>)>,
    name: Seq<char>,
) -> Seq<(Seq<char>, Seq<char>)>
    decreases headers.len(),
{
    if headers.len() == 0 {
        headers
    } else {
        let rest = without_header(headers.drop_last(), name);
        if headers.last().0 == name {
            rest
        } else {
            rest.push(headers.last())
        }
    }
}

/// The headers with this value, and no other, under the name.
pub open spec fn set_header(
    headers: Seq<(Seq<char>, Seq<char>)>,
    name: Seq<char>,
    value: Seq<char>,
) -> Seq<(Seq<char>, Seq<char>)> {
    without_header(headers, name).push((name, value))
}

/// No header of the name is left, and every header of another name is.
proof fn lemma_without_header(headers: Seq<(Seq<char>, Seq<char>)>, name: Seq<char>)
    ensures
        forall|i: int|
            0 <= i < without_header(headers, name).len() ==> (#[trigger] without_header(
                headers,
                name,
            )[i]).0 != name,
        forall|header: (Seq<char>, Seq<char>)|
            header.0 != name ==> (without_header(headers, name).contains(header)
                <==> #[trigger] headers.contains(header)),
    decreases headers.len(),
{
    if headers.len() > 0 {
        let rest = without_header(headers.drop_last(), name);
        let all = without_header(headers, name);
        lemma_without_header(headers.drop_last(), name);
        assert forall|header: (Seq<char>, Seq<char>)| header.0 != name implies (all.contains(header)
            <==> #[trigger] headers.contains(header)) by {
            assert(headers == headers.drop_last().push(headers.last()));
            assert(headers.contains(header) <==> headers.drop_last().contains(header)
                || headers.last() == header) by {
                if headers.drop_last().contains(header) {
                    let i = choose|i: int|
                        0 <= i < headers.drop_last().len() && headers.drop_last()[i] == header;
                    assert(headers[i] == header);
                }
                if headers.contains(header) {
                    let i = choose|i: int| 0 <= i < headers.len() && headers[i] == header;
                    if i < headers.len() - 1 {
                        assert(headers.drop_last()[i] == header);
                    }
                }
            }
            if headers.last().0 != name {
                assert(all.contains(header) <==> rest.contains(header) || headers.last()
                    == header) by {
                    if rest.contains(header) {
                        let i = choose|i: int| 0 <= i < rest.len() && rest[i] == header;
                        assert(all[i] == header);
                    }
                    if headers.last() == header {
                        assert(all[all.len() - 1] == header);
                    }
                    if all.contains(header) {
                        let i = choose|i: int| 0 <= i < all.len() && all[i] == header;
                        if i < all.len() - 1 {
                            assert(rest[i] == header);
                        }
                    }
                }
            }
        }
    }
}

/// After a header is set it is there once, with its new value, and the headers of
/// other names are those that were there.
pub proof fn law_set_header(
    headers: Seq<(Seq<char>, Seq<char>)>,
    name: Seq<char>,
    value: Seq<char>,
    header: (Seq<char>, Seq<char>),
)
    ensures
        header.0 == name ==> (set_header(headers, name, value).contains(header) <==> header.1
            == value),
        header.0 != name ==> (set_header(headers, name, value).contains(header)
            <==> headers.contains(header)),
{
    lemma_without_header(headers, name);
    let rest = without_header(headers, name);
    let all = set_header(headers, name, value);
    assert(all[all.len() - 1] == (name, value));
    if all.contains(header) {
        let i = choose|i: int| 0 <= i < all.len() && all[i] == header;
        if i < rest.len() {
            assert(rest[i] == header);
        }
    }
    if header.0 != name && headers.contains(header) {
        let i = choose|i: int| 0 <= i < rest.len() && rest[i] == header;
        assert(all[i] == header);
    }
}

/// Sets a header: this value, and no other, under the name.
pub fn insert_header(
    headers: Vec<(String, String)>,
    name: &str,
    value: String,
) -> (r: Vec<(String, String)>)
    ensures
        header_list(r@) == set_header(header_list(headers@), name@, value@),
{
    let ghost source = headers@;
    let ghost all = header_list(source);
    let mut kept: Vec<(String, String)> = Vec::new();
    for header in it: headers
        invariant
            it.seq() == source,
            all == header_list(source),
            header_list(kept@) == without_header(all.take(it.index() as int), name@),
    {
        let ghost i = it.index() as int;
        assert(all.take(i + 1).drop_last() =~= all.take(i));
        assert(all.take(i + 1).last() == (source[i].0@, source[i].1@));
        let ghost before = kept@;
        if !same_text(header.0.as_str(), name) {
            kept.push(header);
            assert(header_list(kept@) =~= header_list(before).push((source[i].0@, source[i].1@)));
        }
    }
    assert(all.take(all.len() as int) =~= all);
    let ghost before = kept@;
    let ghost added = value@;
    kept.push((name.to_owned(), value));
    assert(header_list(kept@) =~= header_list(before).push((name@, added)));
    kept
}

/// What the URI of a request lacks, given that it has a target: with a scheme an
/// authority, and without one none.
pub open spec fn missing_part(scheme: bool, authority: bool) -> Option<Seq<char>> {
    if scheme && !authority {
        Some("authority missing"@)
    } else if !scheme && authority {
        Some("scheme missing"@)
    } else {
        None
    }
}

/// How a status code is written: its number and its reason.
pub uninterp spec fn status_text(code: u16) -> Seq<char>;

/// Formats `http::StatusCode` for a code. Claimed of it: there is a status for
/// every code of three digits, and its text depends on the code alone.
#[verifier::external_body]
pub(crate) fn format_status(code: u16) -> (r: Result<String, String>)
    ensures
        r is Ok <==> 100 <= code <= 999,
        r matches Ok(text) ==> text@ == status_text(code),
{
    http::StatusCode::from_u16(code).map(|s| s.to_string()).map_err(|e| e.to_string())
}

} // verus!
