//! What the runtime reads from URLs.

use crate::runtime::web;
use crate::runtime::web::{ParsedUrl, UrlModel};
use crate::text;
use vstd::prelude::*;

verus! {

/// A text without the dots that it begins with.
pub open spec fn without_leading_dots(text: Seq<char>) -> Seq<char>
    decreases text.len(),
{
    if text.len() > 0 && text[0] == '.' {
        without_leading_dots(text.drop_first())
    } else {
        text
    }
}

fn trim_dots(text: &str) -> (trimmed: &str)
    ensures
        trimmed@ == without_leading_dots(text@),
{
    let count: usize = text.unicode_len();
    let mut start: usize = 0;
    assert(text@.skip(0) =~= text@);
    while start < count && text.get_char(start) == '.'
        invariant
            start <= count,
            count == text@.len(),
            without_leading_dots(text@) == without_leading_dots(text@.skip(start as int)),
        decreases count - start,
    {
        assert(text@.skip(start as int).drop_first() =~= text@.skip(start + 1));
        start = start + 1;
    }
    assert(text@.skip(start as int) =~= text@.subrange(start as int, count as int));
    text.substring_char(start, count)
}

/// The URL that a cookie of a domain is kept under.
pub open spec fn domain_url(domain: Seq<char>) -> Option<Seq<char>> {
    let host = without_leading_dots(domain);
    if host.len() == 0 {
        None
    } else {
        Some("https://"@ + host + "/"@)
    }
}

/// The characters of an optional text.
pub open spec fn chars_of(text: Option<&str>) -> Option<Seq<char>> {
    match text {
        Some(text) => Some(text@),
        None => None,
    }
}

/// The URL that a cookie is kept under: that of its domain, or else that of the
/// page.
pub open spec fn cookie_url(domain: Option<Seq<char>>, page: Option<UrlModel>) -> Option<
    Seq<char>,
> {
    match domain {
        Some(domain) if domain_url(domain) is Some => domain_url(domain),
        _ => match page {
            Some(page) => Some(page.text),
            None => None,
        },
    }
}

/// The page that a text stands for, if there is a text.
pub open spec fn page_of(page: Option<Seq<char>>) -> Option<UrlModel> {
    match page {
        Some(page) => web::url_of(page),
        None => None,
    }
}

/// The URL that a cookie is kept under. `fallback` is the URL of the page.
pub fn cookie_url_from(domain: Option<&str>, fallback: Option<&str>) -> (url: Option<String>)
    ensures
        text::text_of(url) == cookie_url(chars_of(domain), page_of(chars_of(fallback))),
{
    let page = match fallback {
        Some(page) => web::parse_url(page),
        None => None,
    };
    cookie_url_on_page(domain, page)
}

/// The URL that a cookie is kept under, once the URL of the page is parsed.
pub fn cookie_url_on_page(domain: Option<&str>, page: Option<ParsedUrl>) -> (url: Option<String>)
    ensures
        text::text_of(url) == cookie_url(chars_of(domain), web::url_model(page)),
{
    if let Some(domain) = domain {
        let host = trim_dots(domain);
        if !host.is_empty() {
            let mut url = "https://".to_string();
            url.append(host);
            url.append("/");
            return Some(url);
        }
    }
    match page {
        Some(page) => Some(page.text),
        None => None,
    }
}

/// The URL of a cookie depends on the page only if the domain of the cookie names
/// no host.
pub proof fn lemma_cookie_domain_comes_first(
    domain: Seq<char>,
    first: Option<UrlModel>,
    second: Option<UrlModel>,
)
    requires
        without_leading_dots(domain).len() > 0,
    ensures
        cookie_url(Some(domain), first) == cookie_url(Some(domain), second),
        cookie_url(Some(domain), first) is Some,
{
}

/// Leading dots of a domain make no difference.
pub proof fn lemma_leading_dots_do_not_count(domain: Seq<char>, page: Option<UrlModel>)
    ensures
        cookie_url(Some(seq!['.'] + domain), page) == cookie_url(Some(domain), page),
{
    assert((seq!['.'] + domain).drop_first() =~= domain);
    reveal_with_fuel(without_leading_dots, 2);
}

/// A text without a given end, if it ends so.
pub open spec fn without_suffix(text: Seq<char>, suffix: Seq<char>) -> Option<Seq<char>> {
    if suffix.len() <= text.len() && text.skip(text.len() - suffix.len()) == suffix {
        Some(text.take(text.len() - suffix.len()))
    } else {
        None
    }
}

/// The web is reached by these schemes.
pub open spec fn is_web_scheme(scheme: Seq<char>) -> bool {
    scheme == "http"@ || scheme == "https"@
}

/// The custom protocol that a URL belongs to. It is the scheme of the URL, or, on
/// the web, the name before `.localhost`.
pub open spec fn protocol_name(url: UrlModel) -> Option<Seq<char>> {
    if !is_web_scheme(url.scheme) {
        Some(url.scheme)
    } else {
        match url.host {
            Some(host) => match without_suffix(host, ".localhost"@) {
                Some(name) if name.len() > 0 => Some(name),
                _ => None,
            },
            None => None,
        }
    }
}

fn same_text(first: &str, second: &str) -> (result: bool)
    ensures
        result == (first@ == second@),
{
    first.to_string() == second.to_string()
}

fn strip_suffix<'a>(text: &'a str, suffix: &str) -> (rest: Option<&'a str>)
    ensures
        chars_of(rest) == without_suffix(text@, suffix@),
{
    let count: usize = text.unicode_len();
    let end: usize = suffix.unicode_len();
    if end > count {
        return None;
    }
    let tail = text.substring_char(count - end, count);
    assert(tail@ =~= text@.skip(count - end));
    if same_text(tail, suffix) {
        assert(text@.take(count - end) =~= text@.subrange(0, count - end));
        Some(text.substring_char(0, count - end))
    } else {
        None
    }
}

/// The custom protocol that a URL belongs to, if any.
pub fn protocol_name_from_url(url: &ParsedUrl) -> (name: Option<String>)
    ensures
        text::text_of(name) == protocol_name(url@),
{
    let scheme = url.scheme.as_str();
    if !(same_text(scheme, "http") || same_text(scheme, "https")) {
        return Some(scheme.to_string());
    }
    match &url.host {
        Some(host) => match strip_suffix(host.as_str(), ".localhost") {
            Some(protocol) => if protocol.is_empty() {
                None
            } else {
                Some(protocol.to_string())
            },
            None => None,
        },
        None => None,
    }
}

/// A URL of the application itself.
pub open spec fn is_app_url(url: UrlModel) -> bool {
    url.scheme == "tauri"@ && url.host == Some("localhost"@)
}

/// The same page of the application as CEF reaches it.
pub open spec fn app_url(url: UrlModel, use_https_scheme: bool) -> Seq<char> {
    let scheme = if use_https_scheme {
        "https"@
    } else {
        "http"@
    };
    web::with_part(
        web::with_part(scheme + "://tauri.localhost"@ + url.path, "?"@, url.query),
        "#"@,
        url.fragment,
    )
}

/// The URL that a webview begins with. CEF reaches the pages of the application
/// under a host of their own; any other URL is taken as it is.
pub open spec fn initial_url(
    text: Seq<char>,
    url: Option<UrlModel>,
    use_https_scheme: bool,
) -> Seq<char> {
    match url {
        Some(url) if is_app_url(url) => app_url(url, use_https_scheme),
        _ => text,
    }
}

/// The URL that a webview begins with.
pub fn normalize_cef_initial_url(url: &str, use_https_scheme: bool) -> (normalized: String)
    ensures
        normalized@ == initial_url(url@, web::url_of(url@), use_https_scheme),
{
    let parsed = web::parse_url(url);
    initial_url_of(url, parsed, use_https_scheme)
}

/// The URL that a webview begins with, once the URL is parsed.
pub fn initial_url_of(url: &str, parsed: Option<ParsedUrl>, use_https_scheme: bool) -> (normalized:
    String)
    ensures
        normalized@ == initial_url(url@, web::url_model(parsed), use_https_scheme),
{
    let parsed = match parsed {
        Some(parsed) => parsed,
        None => {
            return url.to_string();
        },
    };
    let is_local = match &parsed.host {
        Some(host) => same_text(host.as_str(), "localhost"),
        None => false,
    };
    if !same_text(parsed.scheme.as_str(), "tauri") || !is_local {
        return url.to_string();
    }
    let mut normalized = if use_https_scheme {
        "https".to_string()
    } else {
        "http".to_string()
    };
    normalized.append("://tauri.localhost");
    normalized.append(parsed.path.as_str());
    web::append_part(&mut normalized, "?", &parsed.query);
    web::append_part(&mut normalized, "#", &parsed.fragment);
    normalized
}

/// The server that a proxy URL names, as CEF has it: none without a host.
pub open spec fn proxy_server(url: UrlModel) -> Option<Seq<char>> {
    match url.host {
        Some(host) => {
            let server = url.scheme + "://"@ + host;
            match url.port {
                Some(port) => Some(server + ":"@ + text::decimal_text(port as nat)),
                None => Some(server),
            }
        },
        None => None,
    }
}

/// The server that a proxy URL names.
pub fn proxy_server_of(url: &ParsedUrl) -> (server: Option<String>)
    ensures
        text::text_of(server) == proxy_server(url@),
{
    match &url.host {
        Some(host) => {
            let mut server = url.scheme.clone();
            server.append("://");
            server.append(host.as_str());
            if let Some(port) = url.port {
                server.append(":");
                server.append(text::decimal(port as u64).as_str());
            }
            Some(server)
        },
        None => None,
    }
}

/// A page of the application is reached under a host of its own: the scheme, that host, the
/// path, the query after a question mark if there is one, and the fragment after a hash sign
/// if there is one, whether or not there is a query.
pub proof fn lemma_app_url_keeps_its_parts(
    url: &str,
    parsed: ParsedUrl,
    use_https_scheme: bool,
    normalized: String,
)
    requires
        call_ensures(initial_url_of, (url, Some(parsed), use_https_scheme), normalized),
        parsed.scheme@ == "tauri"@,
        parsed.host is Some,
        parsed.host->Some_0@ == "localhost"@,
    ensures
        normalized@ == (if use_https_scheme {
            "https"@
        } else {
            "http"@
        }) + "://tauri.localhost"@ + parsed.path@ + (match parsed.query {
            Some(query) => seq!['?'] + query@,
            None => Seq::empty(),
        }) + (match parsed.fragment {
            Some(fragment) => seq!['#'] + fragment@,
            None => Seq::empty(),
        }),
        parsed.fragment matches Some(fragment) ==> {
            let end = seq!['#'] + fragment@;
            &&& normalized@.len() >= end.len()
            &&& normalized@.skip(normalized@.len() - end.len()) == end
        },
{
    reveal_strlit("?");
    reveal_strlit("#");
    assert("?"@ =~= seq!['?']);
    assert("#"@ =~= seq!['#']);
    let scheme = if use_https_scheme {
        "https"@
    } else {
        "http"@
    };
    let base = scheme + "://tauri.localhost"@ + parsed.path@;
    let with_query = base + (match parsed.query {
        Some(query) => seq!['?'] + query@,
        None => Seq::empty(),
    });
    let whole = with_query + (match parsed.fragment {
        Some(fragment) => seq!['#'] + fragment@,
        None => Seq::empty(),
    });
    assert(normalized@ =~= whole);
    if let Some(fragment) = parsed.fragment {
        let end = seq!['#'] + fragment@;
        assert(normalized@.skip(normalized@.len() - end.len()) =~= end);
    }
}

/// Any other URL, and what is no URL, is taken as it is.
pub proof fn lemma_other_urls_are_kept(
    url: &str,
    parsed: Option<ParsedUrl>,
    use_https_scheme: bool,
    normalized: String,
)
    requires
        call_ensures(initial_url_of, (url, parsed, use_https_scheme), normalized),
        parsed matches Some(parsed) ==> {
            ||| parsed.scheme@ != "tauri"@
            ||| parsed.host is None
            ||| parsed.host->Some_0@ != "localhost"@
        },
    ensures
        normalized@ == url@,
{
}

/// A webview begins with the URL that its own URL stands for once it is parsed: of a page of
/// the application the path, the query and the fragment are kept, each by itself.
pub proof fn lemma_initial_url_is_that_of_the_page(
    url: &str,
    use_https_scheme: bool,
    normalized: String,
)
    requires
        call_ensures(normalize_cef_initial_url, (url, use_https_scheme), normalized),
    ensures
        web::url_accepted(url@) && web::url_scheme(url@) == "tauri"@ && web::url_host(url@) == Some(
            "localhost"@,
        ) ==> normalized@ == (if use_https_scheme {
            "https"@
        } else {
            "http"@
        }) + "://tauri.localhost"@ + web::url_path(url@) + (match web::url_query(url@) {
            Some(query) => seq!['?'] + query,
            None => Seq::empty(),
        }) + (match web::url_fragment(url@) {
            Some(fragment) => seq!['#'] + fragment,
            None => Seq::empty(),
        }),
        !web::url_accepted(url@) || web::url_scheme(url@) != "tauri"@ || web::url_host(url@)
            != Some("localhost"@) ==> normalized@ == url@,
{
    reveal_strlit("?");
    reveal_strlit("#");
    assert("?"@ =~= seq!['?']);
    assert("#"@ =~= seq!['#']);
    if web::url_accepted(url@) && web::url_scheme(url@) == "tauri"@ && web::url_host(url@) == Some(
        "localhost"@,
    ) {
        let scheme = if use_https_scheme {
            "https"@
        } else {
            "http"@
        };
        let whole = scheme + "://tauri.localhost"@ + web::url_path(url@) + (match web::url_query(
            url@,
        ) {
            Some(query) => seq!['?'] + query,
            None => Seq::empty(),
        }) + (match web::url_fragment(url@) {
            Some(fragment) => seq!['#'] + fragment,
            None => Seq::empty(),
        });
        assert(normalized@ =~= whole);
    }
}

proof fn lemma_dots_are_dropped(dots: nat, host: Seq<char>)
    requires
        host.len() == 0 || host[0] != '.',
    ensures
        without_leading_dots(Seq::new(dots, |i: int| '.') + host) == host,
    decreases dots,
{
    let text = Seq::new(dots, |i: int| '.') + host;
    if dots > 0 {
        assert(text.drop_first() =~= Seq::new((dots - 1) as nat, |i: int| '.') + host);
        lemma_dots_are_dropped((dots - 1) as nat, host);
    } else {
        assert(text =~= host);
    }
}

/// A cookie is kept under the secure URL of its domain, without any dots that the domain
/// begins with. If it has no domain, or one of dots only, it is kept under that of the page,
/// and without a page nowhere.
pub proof fn lemma_cookies_are_kept_under_their_domain(
    dots: nat,
    host: Seq<char>,
    domain: &str,
    page: Option<ParsedUrl>,
    of_domain: Option<String>,
    of_page: Option<String>,
)
    requires
        domain@ == Seq::new(dots, |i: int| '.') + host,
        host.len() > 0 ==> host[0] != '.',
        call_ensures(cookie_url_on_page, (Some(domain), page), of_domain),
        call_ensures(cookie_url_on_page, (None::<&str>, page), of_page),
    ensures
        host.len() > 0 ==> of_domain is Some && of_domain->Some_0@ == "https://"@ + host + "/"@,
        host.len() == 0 ==> text::text_of(of_domain) == text::text_of(of_page),
        match page {
            Some(page) => of_page is Some && of_page->Some_0@ == page.text@,
            None => of_page is None,
        },
{
    lemma_dots_are_dropped(dots, host);
}

/// A URL with a scheme of its own belongs to the protocol of that name. On the web it is the
/// name before `.localhost` that counts, if there is one.
pub proof fn lemma_protocol_is_named_by_scheme_or_host(
    url: &ParsedUrl,
    name: Option<String>,
    before: Seq<char>,
)
    requires
        call_ensures(protocol_name_from_url, (url,), name),
    ensures
        url.scheme@ != "http"@ && url.scheme@ != "https"@ ==> name is Some && name->Some_0@
            == url.scheme@,
        (url.scheme@ == "http"@ || url.scheme@ == "https"@) && url.host is None ==> name is None,
        (url.scheme@ == "http"@ || url.scheme@ == "https"@) && url.host is Some
            && url.host->Some_0@ == before + ".localhost"@ ==> {
            &&& before.len() > 0 ==> name is Some && name->Some_0@ == before
            &&& before.len() == 0 ==> name is None
        },
        (url.scheme@ == "http"@ || url.scheme@ == "https"@) && name is Some ==> url.host is Some
            && url.host->Some_0@ == name->Some_0@ + ".localhost"@,
{
    let suffix = ".localhost"@;
    if let Some(host) = url.host {
        if host@ == before + suffix {
            assert(host@.skip(host@.len() - suffix.len()) =~= suffix);
            assert(host@.take(host@.len() - suffix.len()) =~= before);
        }
        if suffix.len() <= host@.len() && host@.skip(host@.len() - suffix.len()) == suffix {
            assert(host@ =~= host@.take(host@.len() - suffix.len()) + suffix);
        }
    }
}

/// A proxy is named by its scheme and its host, and by its port in decimal notation if it has
/// one. Without a host there is no proxy.
pub proof fn lemma_proxy_keeps_its_port(url: &ParsedUrl, server: Option<String>)
    requires
        call_ensures(proxy_server_of, (url,), server),
    ensures
        server is Some <==> url.host is Some,
        url.host is Some && url.port is None ==> server->Some_0@ == url.scheme@ + "://"@
            + url.host->Some_0@,
        url.host is Some && url.port is Some ==> {
            let base = url.scheme@ + "://"@ + url.host->Some_0@ + ":"@;
            let digits = server->Some_0@.skip(base.len() as int);
            &&& server->Some_0@.len() > base.len()
            &&& server->Some_0@.take(base.len() as int) == base
            &&& text::is_digits(digits)
            &&& text::number_of(digits) == url.port->Some_0
        },
{
    if url.host is Some && url.port is Some {
        let base = url.scheme@ + "://"@ + url.host->Some_0@ + ":"@;
        let digits = text::decimal_text(url.port->Some_0 as nat);
        text::lemma_decimal_is_read_back(url.port->Some_0 as nat);
        assert(server->Some_0@ =~= base + digits);
        assert(server->Some_0@.skip(base.len() as int) =~= digits);
        assert(server->Some_0@.take(base.len() as int) =~= base);
    }
}

/// The URL that a text leads to: of a page of the application the scheme, the host of its
/// own, the path, and the query and the fragment each if there is one; and any other text as
/// it is.
pub proof fn lemma_initial_url_parts(text: Seq<char>, use_https_scheme: bool)
    ensures
        ({
            let url = initial_url(text, web::url_of(text), use_https_scheme);
            if web::url_accepted(text) && web::url_scheme(text) == "tauri"@ && web::url_host(text)
                == Some("localhost"@) {
                url == (if use_https_scheme {
                    "https"@
                } else {
                    "http"@
                }) + "://tauri.localhost"@ + web::url_path(text) + (match web::url_query(text) {
                    Some(query) => seq!['?'] + query,
                    None => Seq::empty(),
                }) + (match web::url_fragment(text) {
                    Some(fragment) => seq!['#'] + fragment,
                    None => Seq::empty(),
                })
            } else {
                url == text
            }
        }),
{
    reveal_strlit("?");
    reveal_strlit("#");
    assert("?"@ =~= seq!['?']);
    assert("#"@ =~= seq!['#']);
    if web::url_accepted(text) && web::url_scheme(text) == "tauri"@ && web::url_host(text) == Some(
        "localhost"@,
    ) {
        let scheme = if use_https_scheme {
            "https"@
        } else {
            "http"@
        };
        let whole = scheme + "://tauri.localhost"@ + web::url_path(text) + (match web::url_query(
            text,
        ) {
            Some(query) => seq!['?'] + query,
            None => Seq::empty(),
        }) + (match web::url_fragment(text) {
            Some(fragment) => seq!['#'] + fragment,
            None => Seq::empty(),
        });
        assert(initial_url(text, web::url_of(text), use_https_scheme) =~= whole);
    }
}

} // verus!
