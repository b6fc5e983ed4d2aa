//! URLs and HTTP messages.
//!
//! URLs are parsed by the crate `url`; URIs, methods and header fields are checked
//! and kept by the crate `http`.

use crate::client::ResourceRequestPayload;
use http::HeaderMap;
use http::HeaderValue;
use crate::text;
use vstd::prelude::*;
use vstd::utf8;

verus! {

/// The headers of an HTTP message.
#[verifier::external_type_specification]
#[verifier::external_body]
#[verifier::reject_recursive_types(T)]
pub struct ExHeaderMap<T>(http::HeaderMap<T>);

/// The value of an HTTP header.
#[verifier::external_type_specification]
#[verifier::external_body]
pub struct ExHeaderValue(http::HeaderValue);

/// What the headers of a message hold: the values of each name, in lower case.
pub uninterp spec fn header_entries(headers: HeaderMap<HeaderValue>) -> Map<
    Seq<char>,
    Seq<Seq<u8>>,
>;

/// The entries of a message without headers.
pub open spec fn no_entries() -> Map<Seq<char>, Seq<Seq<u8>>> {
    Map::empty()
}

/// There is room for one more name beside the entries, however they are kept. Whether
/// there is room beside more of them depends on how their names are hashed.
pub open spec fn has_room(entries: Map<Seq<char>, Seq<Seq<u8>>>) -> bool {
    entries.dom().finite() && entries.dom().len() <= 6553
}

/// `url::Url::parse` accepts a text.
pub uninterp spec fn url_accepted(text: Seq<char>) -> bool;

/// What `url::Url::as_str` gives of the URL that a text stands for.
pub uninterp spec fn url_text(text: Seq<char>) -> Seq<char>;

/// What `url::Url::scheme` gives of the URL that a text stands for.
pub uninterp spec fn url_scheme(text: Seq<char>) -> Seq<char>;

/// What `url::Url::host_str` gives of the URL that a text stands for.
pub uninterp spec fn url_host(text: Seq<char>) -> Option<Seq<char>>;

/// What `url::Url::port_or_known_default` gives of the URL that a text stands for.
pub uninterp spec fn url_port(text: Seq<char>) -> Option<u16>;

/// What `url::Url::path` gives of the URL that a text stands for.
pub uninterp spec fn url_path(text: Seq<char>) -> Seq<char>;

/// What `url::Url::query` gives of the URL that a text stands for.
pub uninterp spec fn url_query(text: Seq<char>) -> Option<Seq<char>>;

/// What `url::Url::fragment` gives of the URL that a text stands for.
pub uninterp spec fn url_fragment(text: Seq<char>) -> Option<Seq<char>>;

/// The text of the URI that `http::Uri` makes of a text, if it accepts it.
pub uninterp spec fn uri_text(text: Seq<char>) -> Option<Seq<char>>;

/// A URL, taken apart.
#[derive(Debug)]
pub struct ParsedUrl {
    pub text: String,
    pub scheme: String,
    pub host: Option<String>,
    pub port: Option<u16>,
    pub path: String,
    pub query: Option<String>,
    pub fragment: Option<String>,
}

/// A URL, taken apart, as characters.
pub struct UrlModel {
    pub text: Seq<char>,
    pub scheme: Seq<char>,
    pub host: Option<Seq<char>>,
    pub port: Option<u16>,
    pub path: Seq<char>,
    pub query: Option<Seq<char>>,
    pub fragment: Option<Seq<char>>,
}

impl View for ParsedUrl {
    type V = UrlModel;

    open spec fn view(&self) -> UrlModel {
        UrlModel {
            text: self.text@,
            scheme: self.scheme@,
            host: text::text_of(self.host),
            port: self.port,
            path: self.path@,
            query: text::text_of(self.query),
            fragment: text::text_of(self.fragment),
        }
    }
}

/// The URL that a text stands for, if it stands for one.
pub open spec fn url_of(text: Seq<char>) -> Option<UrlModel> {
    if url_accepted(text) {
        Some(
            UrlModel {
                text: url_text(text),
                scheme: url_scheme(text),
                host: url_host(text),
                port: url_port(text),
                path: url_path(text),
                query: url_query(text),
                fragment: url_fragment(text),
            },
        )
    } else {
        None
    }
}

/// What an optional URL is as characters.
pub open spec fn url_model(url: Option<ParsedUrl>) -> Option<UrlModel> {
    match url {
        Some(url) => Some(url@),
        None => None,
    }
}

/// Parses a URL with `url::Url::parse` and takes it apart with the accessors of
/// `url::Url`. What each of them gives depends on the text alone; what it is for a
/// given text is not said.
#[verifier::external_body]
fn parse(text: &str) -> (url: Option<ParsedUrl>)
    ensures
        url is Some <==> url_accepted(text@),
        url matches Some(url) ==> url.text@ == url_text(text@),
        url matches Some(url) ==> url.scheme@ == url_scheme(text@),
        url matches Some(url) ==> text::text_of(url.host) == url_host(text@),
        url matches Some(url) ==> url.port == url_port(text@),
        url matches Some(url) ==> url.path@ == url_path(text@),
        url matches Some(url) ==> text::text_of(url.query) == url_query(text@),
        url matches Some(url) ==> text::text_of(url.fragment) == url_fragment(text@),
{
    let url = url::Url::parse(text).ok()?;
    Some(
        ParsedUrl {
            text: url.as_str().to_string(),
            scheme: url.scheme().to_string(),
            host: url.host_str().map(str::to_string),
            port: url.port_or_known_default(),
            path: url.path().to_string(),
            query: url.query().map(str::to_string),
            fragment: url.fragment().map(str::to_string),
        },
    )
}

/// Parses a URL.
pub fn parse_url(text: &str) -> (url: Option<ParsedUrl>)
    ensures
        url_model(url) == url_of(text@),
{
    parse(text)
}

/// Makes a URI of a text with `http::Uri::try_from` and gives its text. Whether it
/// is accepted, and its text, depend on the argument alone; what they are for a
/// given text is not said.
#[verifier::external_body]
fn parse_uri(text: &str) -> (uri: Option<String>)
    ensures
        text::text_of(uri) == uri_text(text@),
{
    http::Uri::try_from(text).ok().map(|uri| uri.to_string())
}

/// A character of a token, in the sense of HTTP.
pub open spec fn is_token_char(c: char) -> bool {
    ||| 'a' <= c <= 'z'
    ||| 'A' <= c <= 'Z'
    ||| '0' <= c <= '9'
    ||| c == '!' || c == '#' || c == '$' || c == '%' || c == '&' || c == '\'' || c == '*'
    ||| c == '+' || c == '-' || c == '.' || c == '^' || c == '_' || c == '`' || c == '|' || c
        == '~'
}

/// A token, in the sense of HTTP.
pub open spec fn is_token(text: Seq<char>) -> bool {
    text.len() > 0 && forall|i: int| 0 <= i < text.len() ==> is_token_char(#[trigger] text[i])
}

/// A text that can name a header.
pub open spec fn is_header_name(text: Seq<char>) -> bool {
    is_token(text) && text.len() <= 65535
}

/// A character that can stand in the value of a header.
pub open spec fn is_value_char(c: char) -> bool {
    (c as u32) >= 32 && (c as u32) != 127 || c == '\t'
}

/// A text that can be the value of a header.
pub open spec fn is_header_value(text: Seq<char>) -> bool {
    forall|i: int| 0 <= i < text.len() ==> is_value_char(#[trigger] text[i])
}

/// A character with ASCII letters in lower case.
pub open spec fn lower_char(c: char) -> char {
    if 'A' <= c <= 'Z' {
        ((c as u32) + 32) as char
    } else {
        c
    }
}

/// A text with ASCII letters in lower case.
pub open spec fn lowered(text: Seq<char>) -> Seq<char> {
    text.map_values(|c: char| lower_char(c))
}

/// Checks a method with `http::Method::from_bytes`, which accepts tokens and keeps
/// them as they are.
#[verifier::external_body]
fn is_method(text: &str) -> (accepted: bool)
    ensures
        accepted == is_token(text@),
{
    http::Method::from_bytes(text.as_bytes()).is_ok()
}

/// Makes the name of a header with `http::HeaderName::from_bytes`, which accepts
/// tokens of at most 65535 characters and puts them into lower case.
#[verifier::external_body]
fn header_name(text: &str) -> (name: Option<String>)
    ensures
        text::text_of(name) == if is_header_name(text@) {
            Some(lowered(text@))
        } else {
            None
        },
{
    http::HeaderName::from_bytes(text.as_bytes()).ok().map(|name| name.as_str().to_string())
}

/// Checks the value of a header with `http::HeaderValue::from_str`, which accepts
/// all but control characters, and the tabulator.
#[verifier::external_body]
fn is_value(text: &str) -> (accepted: bool)
    ensures
        accepted == is_header_value(text@),
{
    HeaderValue::from_str(text).is_ok()
}

/// No headers, made with `http::HeaderMap::new`.
#[verifier::external_body]
fn no_headers() -> (headers: HeaderMap<HeaderValue>)
    ensures
        header_entries(headers) == no_entries(),
{
    HeaderMap::new()
}

/// Looks a header up with `http::HeaderMap::contains_key`, which does not tell upper
/// from lower case.
#[verifier::external_body]
fn has_header(headers: &HeaderMap<HeaderValue>, name: &str) -> (found: bool)
    requires
        is_header_name(name@),
    ensures
        found == header_entries(*headers).contains_key(lowered(name@)),
{
    headers.contains_key(name)
}

/// Sets a header with `http::HeaderMap::try_insert`, which replaces all values that the
/// name had. It fails where the map would grow too large, and then changes nothing. With
/// 6553 names at most it does not fail; with more, whether it does is not said.
#[verifier::external_body]
fn set_header(headers: &mut HeaderMap<HeaderValue>, name: &str, value: &str) -> (set: bool)
    requires
        is_header_name(name@),
        is_header_value(value@),
    ensures
        header_entries(*final(headers)) == if set {
            header_entries(*old(headers)).insert(
                lowered(name@),
                seq![utf8::encode_utf8(value@)],
            )
        } else {
            header_entries(*old(headers))
        },
        has_room(header_entries(*old(headers))) ==> set,
{
    let name = http::HeaderName::from_bytes(name.as_bytes()).expect("a header name");
    let value = HeaderValue::from_str(value).expect("a header value");
    headers.try_insert(name, value).is_ok()
}

/// An HTTP request.
#[derive(Debug)]
pub struct HttpRequest {
    pub method: String,
    pub uri: String,
    pub headers: HeaderMap<HeaderValue>,
    pub body: Vec<u8>,
}

/// An HTTP response.
#[derive(Debug)]
pub struct HttpResponse {
    pub status: u16,
    pub headers: HeaderMap<HeaderValue>,
    pub body: Vec<u8>,
}

/// The headers that a list of names and values makes, in order. What cannot be a
/// header is left out; of several with one name the last counts.
pub open spec fn collected_headers(list: Seq<(String, String)>) -> Map<Seq<char>, Seq<Seq<u8>>>
    decreases list.len(),
{
    if list.len() == 0 {
        Map::empty()
    } else {
        let before = collected_headers(list.drop_last());
        let (name, value) = list.last();
        if is_header_name(name@) && is_header_value(value@) {
            before.insert(lowered(name@), seq![utf8::encode_utf8(value@)])
        } else {
            before
        }
    }
}

/// A text with a marked part after it, if there is one.
pub open spec fn with_part(text: Seq<char>, mark: Seq<char>, part: Option<Seq<char>>) -> Seq<char> {
    match part {
        Some(part) => text + mark + part,
        None => text,
    }
}

/// The URI that stands in for a URL which cannot be one: the same path and query at
/// the local host.
pub open spec fn fallback_uri(url: UrlModel) -> Seq<char> {
    with_part("http://localhost"@ + url.path, "?"@, url.query)
}

/// The URI of a request for a resource: the URL as it is, or what stands in for it.
pub open spec fn request_uri(url: Seq<char>) -> Option<Seq<char>> {
    match uri_text(url) {
        Some(uri) => Some(uri),
        None => match url_of(url) {
            Some(url) => uri_text(fallback_uri(url)),
            None => None,
        },
    }
}

pub(crate) fn append_part(text: &mut String, mark: &str, part: &Option<String>)
    ensures
        final(text)@ == with_part(old(text)@, mark@, text::text_of(*part)),
{
    if let Some(part) = part {
        text.append(mark);
        text.append(part.as_str());
    }
}

/// The URI that stands in for a URL which cannot be one.
pub fn fallback_uri_for(url: &ParsedUrl) -> (text: String)
    ensures
        text@ == fallback_uri(url@),
{
    let mut text = "http://localhost".to_string();
    text.append(url.path.as_str());
    append_part(&mut text, "?", &url.query);
    text
}

/// The URI of a request for a resource, if there is one.
fn uri_for(url: &str) -> (uri: Option<String>)
    ensures
        text::text_of(uri) == request_uri(url@),
{
    match parse_uri(url) {
        Some(uri) => Some(uri),
        None => match parse(url) {
            Some(url) => parse_uri(fallback_uri_for(&url).as_str()),
            None => None,
        },
    }
}

proof fn lemma_insert_grows_by_one(
    entries: Map<Seq<char>, Seq<Seq<u8>>>,
    name: Seq<char>,
    values: Seq<Seq<u8>>,
)
    requires
        entries.dom().finite(),
    ensures
        entries.insert(name, values).dom().finite(),
        entries.insert(name, values).dom().len() <= entries.dom().len() + 1,
{
    assert(entries.insert(name, values).dom() =~= entries.dom().insert(name));
}

/// The headers that a list of names and values makes, unless they are too many.
fn collect_headers(list: &Vec<(String, String)>) -> (headers: Option<HeaderMap<HeaderValue>>)
    ensures
        headers matches Some(headers) ==> header_entries(headers) == collected_headers(list@),
        headers is None ==> list@.len() > 6553,
{
    let mut headers = no_headers();
    let mut index: usize = 0;
    assert(list@.take(0) =~= Seq::empty());
    while index < list.len()
        invariant
            index <= list@.len(),
            header_entries(headers) == collected_headers(list@.take(index as int)),
            header_entries(headers).dom().finite(),
            header_entries(headers).dom().len() <= index,
        decreases list@.len() - index,
    {
        assert(list@.take(index + 1).drop_last() =~= list@.take(index as int));
        let name = header_name(list[index].0.as_str());
        if let Some(name) = name {
            if is_value(list[index].1.as_str()) {
                let ghost before = header_entries(headers);
                proof {
                    lemma_lowered_twice(list@[index as int].0@);
                    lemma_insert_grows_by_one(
                        before,
                        name@,
                        seq![utf8::encode_utf8(list@[index as int].1@)],
                    );
                }
                if !set_header(&mut headers, name.as_str(), list[index].1.as_str()) {
                    return None;
                }
            }
        }
        index = index + 1;
    }
    assert(list@.take(index as int) =~= list@);
    Some(headers)
}

/// Lower case stays lower case, and a header name in lower case is one.
proof fn lemma_lowered_twice(text: Seq<char>)
    ensures
        lowered(lowered(text)) == lowered(text),
        is_header_name(text) ==> is_header_name(lowered(text)),
{
    assert forall|c: char| #[trigger] lower_char(lower_char(c)) == lower_char(c) by {
        if 'A' <= c <= 'Z' {
            assert(97 <= (c as u32) + 32 <= 122);
        }
    }
    assert(lowered(lowered(text)) =~= lowered(text));
    if is_header_name(text) {
        assert forall|i: int| 0 <= i < lowered(text).len() implies is_token_char(
            #[trigger] lowered(text)[i],
        ) by {
            assert(is_token_char(text[i]));
        }
    }
}

/// The HTTP request that a request for a resource stands for. There is none if the
/// URL has no URI, the method is not one, or the headers are too many.
pub fn resource_request_to_http_request(payload: &ResourceRequestPayload) -> (request: Option<
    HttpRequest,
>)
    ensures
        request is None ==> {
            ||| request_uri(payload.url@) is None
            ||| !is_token(payload.method@)
            ||| payload.headers@.len() > 6553
        },
        request matches Some(request) ==> {
            &&& is_token(payload.method@)
            &&& Some(request.uri@) == request_uri(payload.url@)
            &&& request.method@ == payload.method@
            &&& header_entries(request.headers) == collected_headers(payload.headers@)
            &&& request.body@ == payload.body@
        },
{
    let uri = uri_for(payload.url.as_str());
    http_request_at(payload, uri)
}

/// The HTTP request that a request for a resource stands for, once its URI is known.
pub fn http_request_at(payload: &ResourceRequestPayload, uri: Option<String>) -> (request: Option<
    HttpRequest,
>)
    ensures
        request is None ==> {
            ||| uri is None
            ||| !is_token(payload.method@)
            ||| payload.headers@.len() > 6553
        },
        request matches Some(request) ==> {
            &&& is_token(payload.method@)
            &&& Some(request.uri) == uri
            &&& request.method@ == payload.method@
            &&& header_entries(request.headers) == collected_headers(payload.headers@)
            &&& request.body@ == payload.body@
        },
{
    let uri = match uri {
        Some(uri) => uri,
        None => {
            return None;
        },
    };
    if !is_method(payload.method.as_str()) {
        return None;
    }
    let headers = match collect_headers(&payload.headers) {
        Some(headers) => headers,
        None => {
            return None;
        },
    };
    Some(HttpRequest { method: payload.method.clone(), uri, headers, body: payload.body.clone() })
}

/// A request that carries a message of a page to the application.
///
/// There is none if the address of the page is not a URI.
pub fn ipc_request(page: String, message: String) -> (request: Option<HttpRequest>)
    ensures
        request is Some <==> uri_text(page@) is Some,
        request matches Some(request) ==> {
            &&& Some(request.uri@) == uri_text(page@)
            &&& request.method@ == "POST"@
            &&& header_entries(request.headers) == no_entries().insert(
                lowered("content-type"@),
                seq![utf8::encode_utf8("application/json"@)],
            )
            &&& request.body@ == utf8::encode_utf8(message@)
        },
{
    match parse_uri(page.as_str()) {
        Some(uri) => {
            let mut headers = no_headers();
            proof {
                reveal_strlit("content-type");
                reveal_strlit("application/json");
            }
            let set = set_header(&mut headers, "content-type", "application/json");
            assert(set);
            Some(
                HttpRequest {
                    method: "POST".to_string(),
                    uri,
                    headers,
                    body: vstd::slice::slice_to_vec(message.as_str().as_bytes()),
                },
            )
        },
        None => None,
    }
}

/// Two texts are the same but for the case of ASCII letters.
pub open spec fn same_ignoring_case(first: Seq<char>, second: Seq<char>) -> bool {
    lowered(first) == lowered(second)
}

fn lower_code(c: char) -> (code: u32)
    ensures
        code == lower_char(c) as u32,
{
    let code: u32 = c as u32;
    if 65 <= code && code <= 90 {
        code + 32
    } else {
        code
    }
}

/// Whether two texts are the same but for the case of ASCII letters.
pub fn eq_ignore_ascii_case(first: &str, second: &str) -> (result: bool)
    ensures
        result == same_ignoring_case(first@, second@),
{
    let count: usize = first.unicode_len();
    if count != second.unicode_len() {
        assert(lowered(first@).len() != lowered(second@).len());
        return false;
    }
    let mut index: usize = 0;
    while index < count
        invariant
            index <= count,
            count == first@.len(),
            count == second@.len(),
            forall|i: int|
                0 <= i < index ==> lower_char(#[trigger] first@[i]) == lower_char(second@[i]),
        decreases count - index,
    {
        let left: u32 = lower_code(first.get_char(index));
        let right: u32 = lower_code(second.get_char(index));
        if left != right {
            assert(lowered(first@)[index as int] != lowered(second@)[index as int]);
            return false;
        }
        index = index + 1;
    }
    assert(lowered(first@) =~= lowered(second@));
    true
}

/// The first header of a request that says where the request comes from.
pub open spec fn origin_index(headers: Seq<(String, String)>) -> int
    decreases headers.len(),
{
    if headers.len() == 0 {
        0
    } else if same_ignoring_case(headers[0].0@, "origin"@) {
        0
    } else {
        1 + origin_index(headers.drop_first())
    }
}

/// The origin that a response is allowed to: that of the request, if it can be a
/// header, and any otherwise.
pub open spec fn allowed_origin(headers: Seq<(String, String)>) -> Seq<char> {
    let index = origin_index(headers);
    if index < headers.len() && is_header_value(headers[index].1@) {
        headers[index].1@
    } else {
        "*"@
    }
}

/// The headers of a response with the origin that may read it, unless it says so itself.
pub open spec fn with_origin(
    entries: Map<Seq<char>, Seq<Seq<u8>>>,
    request_headers: Seq<(String, String)>,
) -> Map<Seq<char>, Seq<Seq<u8>>> {
    let origin = lowered("access-control-allow-origin"@);
    if entries.contains_key(origin) {
        entries
    } else {
        entries.insert(origin, seq![utf8::encode_utf8(allowed_origin(request_headers))])
    }
}

/// The headers of a response to a preflight request with those that may be sent, unless it
/// says so itself.
pub open spec fn with_allowed_headers(
    entries: Map<Seq<char>, Seq<Seq<u8>>>,
    method: Seq<char>,
) -> Map<Seq<char>, Seq<Seq<u8>>> {
    let allow = lowered("access-control-allow-headers"@);
    if same_ignoring_case(method, "OPTIONS"@) && !entries.contains_key(allow) {
        entries.insert(allow, seq![utf8::encode_utf8("*"@)])
    } else {
        entries
    }
}

/// The headers of a response to a custom protocol: it may be read from the origin of
/// the request, preflight requests may send any header, and all headers of the
/// response are exposed. What the response already allows stays.
pub open spec fn with_cors_headers(
    entries: Map<Seq<char>, Seq<Seq<u8>>>,
    request_headers: Seq<(String, String)>,
    method: Seq<char>,
) -> Map<Seq<char>, Seq<Seq<u8>>> {
    with_allowed_headers(with_origin(entries, request_headers), method).insert(
        lowered("access-control-expose-headers"@),
        seq![utf8::encode_utf8("*"@)],
    )
}

/// The value that a response is allowed to the origin of.
fn origin_of(headers: &Vec<(String, String)>) -> (origin: String)
    ensures
        origin@ == allowed_origin(headers@),
        is_header_value(origin@),
{
    proof {
        reveal_strlit("*");
    }
    let mut index: usize = 0;
    assert(headers@.skip(0) =~= headers@);
    while index < headers.len()
        invariant
            index <= headers@.len(),
            origin_index(headers@) == index + origin_index(headers@.skip(index as int)),
            is_header_value("*"@),
        decreases headers@.len() - index,
    {
        assert(headers@.skip(index as int).drop_first() =~= headers@.skip(index + 1));
        if eq_ignore_ascii_case(headers[index].0.as_str(), "origin") {
            if is_value(headers[index].1.as_str()) {
                return headers[index].1.clone();
            }
            return "*".to_string();
        }
        index = index + 1;
    }
    "*".to_string()
}

/// Lets a page read the response to a custom protocol. Returns whether it could: a
/// response that is full of headers keeps what it got until then.
pub fn apply_cors_headers_for_custom_protocol(
    request: &ResourceRequestPayload,
    response: &mut HttpResponse,
) -> (applied: bool)
    ensures
        final(response).status == old(response).status,
        final(response).body == old(response).body,
        ({
            let entries = header_entries(old(response).headers);
            let first = with_origin(entries, request.headers@);
            let second = with_allowed_headers(first, request.method@);
            let after = header_entries(final(response).headers);
            &&& applied ==> after == with_cors_headers(entries, request.headers@, request.method@)
            &&& !applied ==> after == entries || after == first || after == second
            &&& entries.dom().finite() && entries.dom().len() <= 6551 ==> applied
        }),
{
    proof {
        reveal_strlit("access-control-allow-origin");
        reveal_strlit("access-control-allow-headers");
        reveal_strlit("access-control-expose-headers");
        reveal_strlit("*");
    }
    let ghost entries = header_entries(response.headers);
    if !has_header(&response.headers, "access-control-allow-origin") {
        let origin = origin_of(&request.headers);
        proof {
            if entries.dom().finite() {
                lemma_insert_grows_by_one(
                    entries,
                    lowered("access-control-allow-origin"@),
                    seq![utf8::encode_utf8(origin@)],
                );
            }
        }
        if !set_header(&mut response.headers, "access-control-allow-origin", origin.as_str()) {
            return false;
        }
    }
    let ghost first = header_entries(response.headers);
    if eq_ignore_ascii_case(request.method.as_str(), "OPTIONS") && !has_header(
        &response.headers,
        "access-control-allow-headers",
    ) {
        proof {
            if first.dom().finite() {
                lemma_insert_grows_by_one(
                    first,
                    lowered("access-control-allow-headers"@),
                    seq![utf8::encode_utf8("*"@)],
                );
            }
        }
        if !set_header(&mut response.headers, "access-control-allow-headers", "*") {
            return false;
        }
    }
    set_header(&mut response.headers, "access-control-expose-headers", "*")
}

/// The answer to a request whose protocol handler did not answer in time.
pub fn timeout_response() -> (response: HttpResponse)
    ensures
        response.status == 504,
        header_entries(response.headers) == no_entries(),
        response.body@ == Seq::<u8>::empty(),
{
    HttpResponse { status: 504, headers: no_headers(), body: Vec::new() }
}

/// A page may read every response to a custom protocol, and every header of it.
/// What the response itself allows is kept, and so is every other header.
pub proof fn lemma_cors_headers_open_a_response(
    entries: Map<Seq<char>, Seq<Seq<u8>>>,
    request_headers: Seq<(String, String)>,
    method: Seq<char>,
    name: Seq<char>,
)
    ensures
        ({
            let after = with_cors_headers(entries, request_headers, method);
            let origin = lowered("access-control-allow-origin"@);
            let allow = lowered("access-control-allow-headers"@);
            let expose = lowered("access-control-expose-headers"@);
            &&& after.contains_key(origin)
            &&& after.contains_key(expose)
            &&& after[expose] == seq![utf8::encode_utf8("*"@)]
            &&& entries.contains_key(origin) ==> after[origin] == entries[origin]
            &&& !entries.contains_key(origin) ==> after[origin] == seq![
                utf8::encode_utf8(allowed_origin(request_headers)),
            ]
            &&& same_ignoring_case(method, "OPTIONS"@) ==> after.contains_key(allow)
            &&& name != origin && name != allow && name != expose ==> {
                &&& after.contains_key(name) == entries.contains_key(name)
                &&& after[name] == entries[name]
            }
        }),
{
    reveal_strlit("access-control-allow-origin");
    reveal_strlit("access-control-allow-headers");
    reveal_strlit("access-control-expose-headers");
    assert(lowered("access-control-allow-origin"@).len() == 27);
    assert(lowered("access-control-allow-headers"@).len() == 28);
    assert(lowered("access-control-expose-headers"@).len() == 29);
}

/// Text with a part that is marked ends with the mark and the part, if there is one, and is
/// the text alone otherwise.
pub proof fn lemma_parts_are_marked(text: Seq<char>, mark: Seq<char>, part: Seq<char>)
    ensures
        with_part(text, mark, Some(part)) == text + mark + part,
        with_part(text, mark, None) == text,
{
}

/// A URL that is no URI is stood in for by its path and its query at the local host.
pub proof fn lemma_fallback_keeps_path_and_query(url: &ParsedUrl, fallback: String)
    requires
        call_ensures(fallback_uri_for, (url,), fallback),
    ensures
        fallback@ == "http://localhost"@ + url.path@ + (match url.query {
            Some(query) => "?"@ + query@,
            None => Seq::empty(),
        }),
{
    match url.query {
        Some(query) => {
            assert(fallback@ =~= "http://localhost"@ + url.path@ + ("?"@ + query@));
        },
        None => {
            assert(fallback@ =~= "http://localhost"@ + url.path@ + Seq::<char>::empty());
        },
    }
}

/// A request is passed on with its method, its body and its URI, unless it has no URI, its
/// method is none or it has very many headers.
pub proof fn lemma_requests_are_passed_on(
    payload: &ResourceRequestPayload,
    uri: Option<String>,
    request: Option<HttpRequest>,
)
    requires
        call_ensures(http_request_at, (payload, uri), request),
    ensures
        uri is None ==> request is None,
        !is_token(payload.method@) ==> request is None,
        uri is Some && is_token(payload.method@) && payload.headers@.len() <= 6553
            ==> request is Some,
        request matches Some(request) ==> {
            &&& uri == Some(request.uri)
            &&& request.method@ == payload.method@
            &&& request.body@ == payload.body@
        },
{
}

/// Of the headers of a request, one that can be a header counts with its name in lower case
/// and its value as it is, in place of those before it with the same name; one that cannot is
/// left out. No other name is touched.
pub proof fn lemma_headers_are_collected(
    list: Seq<(String, String)>,
    name: String,
    value: String,
    other: Seq<char>,
)
    ensures
        ({
            let before = collected_headers(list);
            let after = collected_headers(list.push((name, value)));
            let valid = is_header_name(name@) && is_header_value(value@);
            &&& valid ==> {
                &&& after.contains_key(lowered(name@))
                &&& after[lowered(name@)] == seq![utf8::encode_utf8(value@)]
            }
            &&& !valid || other != lowered(name@) ==> {
                &&& after.contains_key(other) == before.contains_key(other)
                &&& before.contains_key(other) ==> after[other] == before[other]
            }
            &&& collected_headers(Seq::empty()) == no_entries()
        }),
{
    assert(list.push((name, value)).drop_last() =~= list);
}

/// A name can be a header if it is not empty and holds letters, digits and some marks only; a
/// value if it holds no control characters but tabulators.
pub proof fn lemma_what_can_be_a_header(text: Seq<char>, i: int)
    requires
        0 <= i < text.len(),
    ensures
        is_header_name(text) ==> {
            let c = text[i];
            &&& c != ' ' && c != ':' && c != '(' && c != '/' && c != '"'
        },
        is_header_value(text) ==> text[i] != '\n' && text[i] != '\r' && text[i] != '\0',
        !is_header_name(Seq::empty()),
        is_header_value(Seq::empty()),
{
    if is_header_name(text) {
        assert(is_token_char(text[i]));
    }
    if is_header_value(text) {
        assert(is_value_char(text[i]));
    }
}

/// Upper and lower case of ASCII letters are one, position by position; any other character
/// is itself only.
pub proof fn lemma_case_is_ignored(first: &str, second: &str, result: bool, i: int)
    requires
        call_ensures(eq_ignore_ascii_case, (first, second), result),
    ensures
        first@ == second@ ==> result,
        result ==> first@.len() == second@.len(),
        result && 0 <= i < first@.len() ==> {
            let (a, b) = (first@[i] as int, second@[i] as int);
            ||| a == b
            ||| 65 <= a <= 90 && b == a + 32
            ||| 65 <= b <= 90 && a == b + 32
        },
{
    if result {
        assert(lowered(first@).len() == lowered(second@).len());
        if 0 <= i < first@.len() {
            assert(lowered(first@)[i] == lowered(second@)[i]);
            lemma_lower_chars(first@[i], second@[i]);
        }
    }
}

proof fn lemma_lower_chars(first: char, second: char)
    requires
        lower_char(first) == lower_char(second),
    ensures
        ({
            let (a, b) = (first as int, second as int);
            ||| a == b
            ||| 65 <= a <= 90 && b == a + 32
            ||| 65 <= b <= 90 && a == b + 32
        }),
{
}

/// The origin of a request is what its first header of that name says, in any case, if it can
/// be said again; without one, or if it cannot, any origin is meant.
pub proof fn lemma_origin_is_that_of_the_request(headers: Seq<(String, String)>, at: int)
    requires
        0 <= at <= headers.len(),
        forall|i: int|
            0 <= i < at ==> !same_ignoring_case((#[trigger] headers[i]).0@, "origin"@),
        at < headers.len() ==> same_ignoring_case(headers[at].0@, "origin"@),
    ensures
        at < headers.len() && is_header_value(headers[at].1@) ==> allowed_origin(headers)
            == headers[at].1@,
        at == headers.len() || !is_header_value(headers[at].1@) ==> allowed_origin(headers) == "*"@,
{
    lemma_origin_index(headers, at);
}

proof fn lemma_origin_index(headers: Seq<(String, String)>, at: int)
    requires
        0 <= at <= headers.len(),
        forall|i: int|
            0 <= i < at ==> !same_ignoring_case((#[trigger] headers[i]).0@, "origin"@),
        at < headers.len() ==> same_ignoring_case(headers[at].0@, "origin"@),
    ensures
        origin_index(headers) == at,
    decreases headers.len(),
{
    if headers.len() > 0 && at > 0 {
        assert(!same_ignoring_case(headers[0].0@, "origin"@));
        let rest = headers.drop_first();
        assert forall|i: int| 0 <= i < at - 1 implies !same_ignoring_case(
            (#[trigger] rest[i]).0@,
            "origin"@,
        ) by {
            assert(rest[i] == headers[i + 1]);
        }
        if at < headers.len() {
            assert(rest[at - 1] == headers[at]);
        }
        lemma_origin_index(rest, at - 1);
    }
}

/// A page may read a response to a custom protocol: it says to which origin, unless it did so
/// before, that any header may be sent where that was asked, unless it said which, and that
/// all headers may be read. Its status and its body stay, and so does every other header.
pub proof fn lemma_pages_may_read_responses(
    request: &ResourceRequestPayload,
    applied: bool,
    other: Seq<char>,
)
    requires
        other != lowered("access-control-allow-origin"@),
        other != lowered("access-control-allow-headers"@),
        other != lowered("access-control-expose-headers"@),
    ensures
        forall|response: &mut HttpResponse| #[trigger]
            call_ensures(
                apply_cors_headers_for_custom_protocol,
                (request, response),
                applied,
            ) ==> {
                let before = header_entries((*response).headers);
                let after = header_entries((*final(response)).headers);
                let origin = lowered("access-control-allow-origin"@);
                let allow = lowered("access-control-allow-headers"@);
                let expose = lowered("access-control-expose-headers"@);
                let any = seq![utf8::encode_utf8("*"@)];
                &&& (*final(response)).status == (*response).status
                &&& (*final(response)).body == (*response).body
                &&& after.contains_key(other) == before.contains_key(other)
                &&& before.contains_key(other) ==> after[other] == before[other]
                &&& before.contains_key(origin) ==> after.contains_key(origin) && after[origin]
                    == before[origin]
                &&& before.contains_key(allow) ==> after.contains_key(allow) && after[allow]
                    == before[allow]
                &&& applied ==> {
                    &&& after.contains_key(origin)
                    &&& !before.contains_key(origin) ==> after[origin] == seq![
                        utf8::encode_utf8(allowed_origin(request.headers@)),
                    ]
                    &&& after.contains_key(expose) && after[expose] == any
                    &&& same_ignoring_case(request.method@, "OPTIONS"@) && !before.contains_key(
                        allow,
                    ) ==> after.contains_key(allow) && after[allow] == any
                    &&& !same_ignoring_case(request.method@, "OPTIONS"@) ==> after.contains_key(
                        allow,
                    ) == before.contains_key(allow)
                }
            },
{
    reveal_strlit("access-control-allow-origin");
    reveal_strlit("access-control-allow-headers");
    reveal_strlit("access-control-expose-headers");
    assert(lowered("access-control-allow-origin"@).len() == 27);
    assert(lowered("access-control-allow-headers"@).len() == 28);
    assert(lowered("access-control-expose-headers"@).len() == 29);
}

/// A message of a page is posted to the address of the page, as JSON, with the bytes of its
/// text; and a protocol that does not answer in time is a gateway that does not, without
/// headers and without a body.
pub proof fn lemma_messages_are_posted(
    page: String,
    message: String,
    request: Option<HttpRequest>,
    response: HttpResponse,
)
    requires
        call_ensures(ipc_request, (page, message), request),
        call_ensures(timeout_response, (), response),
    ensures
        request matches Some(request) ==> {
            let entries = header_entries(request.headers);
            let name = lowered("content-type"@);
            &&& request.method@ == "POST"@
            &&& uri_text(page@) == Some(request.uri@)
            &&& request.body@ == utf8::encode_utf8(message@)
            &&& entries.contains_key(name)
            &&& entries[name] == seq![utf8::encode_utf8("application/json"@)]
            &&& entries.remove(name) == no_entries()
        },
        uri_text(page@) is Some ==> request is Some,
        response.status == 504,
        response.body@.len() == 0,
        header_entries(response.headers) == no_entries(),
{
    if let Some(request) = request {
        let name = lowered("content-type"@);
        assert(header_entries(request.headers).remove(name) =~= no_entries());
    }
}

} // verus!
