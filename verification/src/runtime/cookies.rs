//! Cookies, and the stores that CEF keeps them in.

use crate::browser_slot::{BrowserSlot, BrowserSlots};
use crate::runtime::urls;
use crate::runtime::webview_error::WebviewError;
use crate::text;
use vstd::prelude::*;

verus! {

/// A cookie as the application knows it.
#[derive(Debug)]
pub struct WebCookie {
    pub name: String,
    pub value: String,
    pub domain: Option<String>,
    pub path: Option<String>,
    pub secure: Option<bool>,
    pub http_only: Option<bool>,
}

/// A cookie as CEF knows it. Text that is not set is empty.
#[derive(Debug)]
pub struct CefCookie {
    pub name: String,
    pub value: String,
    pub domain: String,
    pub path: String,
    pub secure: i32,
    pub httponly: i32,
}

/// A cookie of the application, with its text as characters.
pub struct CookieModel {
    pub name: Seq<char>,
    pub value: Seq<char>,
    pub domain: Option<Seq<char>>,
    pub path: Option<Seq<char>>,
    pub secure: Option<bool>,
    pub http_only: Option<bool>,
}

/// A cookie of CEF, with its text as characters.
pub struct CefCookieModel {
    pub name: Seq<char>,
    pub value: Seq<char>,
    pub domain: Seq<char>,
    pub path: Seq<char>,
    pub secure: i32,
    pub httponly: i32,
}

impl View for WebCookie {
    type V = CookieModel;

    open spec fn view(&self) -> CookieModel {
        CookieModel {
            name: self.name@,
            value: self.value@,
            domain: text::text_of(self.domain),
            path: text::text_of(self.path),
            secure: self.secure,
            http_only: self.http_only,
        }
    }
}

impl View for CefCookie {
    type V = CefCookieModel;

    open spec fn view(&self) -> CefCookieModel {
        CefCookieModel {
            name: self.name@,
            value: self.value@,
            domain: self.domain@,
            path: self.path@,
            secure: self.secure,
            httponly: self.httponly,
        }
    }
}

/// A flag that may be unset, as CEF has it.
pub open spec fn flag_value(flag: Option<bool>) -> i32 {
    if flag == Some(true) {
        1
    } else {
        0
    }
}

/// A text that may be missing, or a default.
pub open spec fn text_or(text: Option<Seq<char>>, default: Seq<char>) -> Seq<char> {
    match text {
        Some(text) => text,
        None => default,
    }
}

/// A text that is missing where it is empty.
pub open spec fn text_if_any(text: Seq<char>) -> Option<Seq<char>> {
    if text.len() == 0 {
        None
    } else {
        Some(text)
    }
}

/// A domain without the dot that it may begin with.
pub open spec fn without_dot(domain: Seq<char>) -> Seq<char> {
    if domain.len() > 0 && domain[0] == '.' {
        domain.drop_first()
    } else {
        domain
    }
}

/// A cookie of the application as CEF has it. Without a path it holds for the whole
/// site.
pub open spec fn cef_cookie(cookie: CookieModel) -> CefCookieModel {
    CefCookieModel {
        name: cookie.name,
        value: cookie.value,
        domain: text_or(cookie.domain, Seq::empty()),
        path: text_or(cookie.path, "/"@),
        secure: flag_value(cookie.secure),
        httponly: flag_value(cookie.http_only),
    }
}

/// A cookie of CEF as the application has it. A dot at the beginning of its domain does
/// not count.
pub open spec fn web_cookie(cookie: CefCookieModel) -> CookieModel {
    CookieModel {
        name: cookie.name,
        value: cookie.value,
        domain: match text_if_any(cookie.domain) {
            Some(domain) => Some(without_dot(domain)),
            None => None,
        },
        path: text_if_any(cookie.path),
        secure: Some(cookie.secure != 0),
        http_only: Some(cookie.httponly != 0),
    }
}

fn flag(set: Option<bool>) -> (value: i32)
    ensures
        value == flag_value(set),
{
    match set {
        Some(true) => 1,
        _ => 0,
    }
}

fn optional(text: &String) -> (result: Option<String>)
    ensures
        text::text_of(result) == text_if_any(text@),
{
    if text.as_str().is_empty() {
        None
    } else {
        Some(text.clone())
    }
}

fn undotted(domain: &str) -> (result: String)
    ensures
        result@ == without_dot(domain@),
{
    let count: usize = domain.unicode_len();
    if count > 0 && domain.get_char(0) == '.' {
        assert(domain@.drop_first() =~= domain@.subrange(1, count as int));
        domain.substring_char(1, count).to_string()
    } else {
        domain.to_string()
    }
}

/// A cookie of the application as CEF has it.
pub fn tauri_cookie_to_cef(cookie: &WebCookie) -> (result: CefCookie)
    ensures
        result@ == cef_cookie(cookie@),
{
    CefCookie {
        name: cookie.name.clone(),
        value: cookie.value.clone(),
        domain: match &cookie.domain {
            Some(domain) => domain.clone(),
            None => String::new(),
        },
        path: match &cookie.path {
            Some(path) => path.clone(),
            None => "/".to_string(),
        },
        secure: flag(cookie.secure),
        httponly: flag(cookie.http_only),
    }
}

/// A cookie of CEF as the application has it.
pub fn cef_cookie_to_tauri(cookie: &CefCookie) -> (result: WebCookie)
    ensures
        result@ == web_cookie(cookie@),
{
    WebCookie {
        name: cookie.name.clone(),
        value: cookie.value.clone(),
        domain: match optional(&cookie.domain) {
            Some(domain) => Some(undotted(domain.as_str())),
            None => None,
        },
        path: optional(&cookie.path),
        secure: Some(cookie.secure != 0),
        http_only: Some(cookie.httponly != 0),
    }
}

/// A cookie that went to CEF comes back with the same name, value, domain, path and
/// flags. A path that was not set has become that of the whole site, and flags that
/// were not set are off. An empty domain or path is not told from one that is not
/// set, nor a domain that begins with a dot from one that does not.
pub proof fn lemma_cookie_round_trip(cookie: CookieModel)
    requires
        cookie.domain matches Some(domain) ==> domain.len() > 0 && domain[0] != '.',
        cookie.path matches Some(path) ==> path.len() > 0,
    ensures
        ({
            let back = web_cookie(cef_cookie(cookie));
            &&& back.name == cookie.name
            &&& back.value == cookie.value
            &&& back.domain == cookie.domain
            &&& back.path == Some(text_or(cookie.path, "/"@))
            &&& back.secure == Some(cookie.secure == Some(true))
            &&& back.http_only == Some(cookie.http_only == Some(true))
        }),
{
    reveal_strlit("/");
}

/// What a cookie of the application becomes at CEF is not changed by another round,
/// unless its domain begins with a dot.
pub proof fn lemma_second_round_changes_nothing(cookie: CookieModel)
    requires
        cookie.domain matches Some(domain) ==> domain.len() == 0 || domain[0] != '.',
        cookie.path matches Some(path) ==> path.len() > 0,
    ensures
        cef_cookie(web_cookie(cef_cookie(cookie))) == cef_cookie(cookie),
{
    reveal_strlit("/");
    assert(cookie.domain matches Some(domain) && domain.len() == 0 ==> cookie.domain->Some_0
        =~= Seq::empty());
}

/// Collector of the cookies that CEF visits.
#[derive(Debug)]
pub struct CollectCookiesVisitor {
    pub items: Vec<WebCookie>,
    /// The end of the visit was not signalled yet.
    pub waiting: bool,
}

/// CEF visits the last of `total` cookies. CEF counts from zero.
pub open spec fn is_last_visit(count: i32, total: i32) -> bool {
    total <= 0 || count + 1 >= total
}

impl CollectCookiesVisitor {
    /// A collector that has seen no cookie.
    pub fn new() -> (visitor: Self)
        ensures
            visitor.items@ == Seq::<WebCookie>::empty(),
            visitor.waiting,
    {
        CollectCookiesVisitor { items: Vec::new(), waiting: true }
    }

    /// Takes a cookie. Returns the answer to CEF, which is to go on, and whether the
    /// end of the visit is to be signalled now. It is signalled once.
    pub fn visit(&mut self, cookie: Option<&CefCookie>, count: i32, total: i32) -> (result: (
        i32,
        bool,
    ))
        ensures
            result.0 == 1,
            result.1 == (old(self).waiting && is_last_visit(count, total)),
            final(self).waiting == (old(self).waiting && !is_last_visit(count, total)),
            match cookie {
                Some(cookie) => {
                    &&& final(self).items@.len() == old(self).items@.len() + 1
                    &&& final(self).items@.drop_last() == old(self).items@
                    &&& final(self).items@.last()@ == web_cookie(cookie@)
                },
                None => final(self).items@ == old(self).items@,
            },
    {
        if let Some(cookie) = cookie {
            self.items.push(cef_cookie_to_tauri(cookie));
            assert(self.items@.drop_last() =~= old(self).items@);
        }
        let last = total <= 0 || count as i64 + 1 >= total as i64;
        let signal = self.waiting && last;
        if signal {
            self.waiting = false;
        }
        (1, signal)
    }
}

/// A store that CEF keeps cookies in.
#[derive(Debug, Clone, Copy, PartialEq, Eq, Structural)]
pub enum CookieManager {
    /// The store of the request context of the browser.
    OfContext,
    /// The store of the whole application.
    Global,
}

/// The search for a cookie store: the next question to CEF, or its end.
#[derive(Debug, Clone, Copy, PartialEq, Eq, Structural)]
pub enum ManagerSearch {
    AskHost,
    AskRequestContext,
    AskContextManager,
    AskGlobalManager,
    Found(CookieManager),
    Missing,
}

/// The search after CEF said whether it has what was asked for.
pub open spec fn search_after(search: ManagerSearch, available: bool) -> ManagerSearch {
    match search {
        ManagerSearch::AskHost => if available {
            ManagerSearch::AskRequestContext
        } else {
            ManagerSearch::AskGlobalManager
        },
        ManagerSearch::AskRequestContext => if available {
            ManagerSearch::AskContextManager
        } else {
            ManagerSearch::AskGlobalManager
        },
        ManagerSearch::AskContextManager => if available {
            ManagerSearch::Found(CookieManager::OfContext)
        } else {
            ManagerSearch::AskGlobalManager
        },
        ManagerSearch::AskGlobalManager => if available {
            ManagerSearch::Found(CookieManager::Global)
        } else {
            ManagerSearch::Missing
        },
        _ => search,
    }
}

/// Where the search for the cookie store of a browser begins.
pub open spec fn search_begin(slot: Option<i32>) -> ManagerSearch {
    if slot is Some {
        ManagerSearch::AskHost
    } else {
        ManagerSearch::AskGlobalManager
    }
}

/// Begins the search for the cookie store of a browser.
pub fn get_cookie_manager(browsers: &BrowserSlots, slot: &BrowserSlot) -> (search: ManagerSearch)
    ensures
        search == search_begin(slot.browser(browsers@)),
{
    if slot.current(browsers).is_some() {
        ManagerSearch::AskHost
    } else {
        ManagerSearch::AskGlobalManager
    }
}

impl ManagerSearch {
    /// Goes on with what CEF said.
    pub fn answered(self, available: bool) -> (next: ManagerSearch)
        ensures
            next == search_after(self, available),
    {
        match self {
            ManagerSearch::AskHost => if available {
                ManagerSearch::AskRequestContext
            } else {
                ManagerSearch::AskGlobalManager
            },
            ManagerSearch::AskRequestContext => if available {
                ManagerSearch::AskContextManager
            } else {
                ManagerSearch::AskGlobalManager
            },
            ManagerSearch::AskContextManager => if available {
                ManagerSearch::Found(CookieManager::OfContext)
            } else {
                ManagerSearch::AskGlobalManager
            },
            ManagerSearch::AskGlobalManager => if available {
                ManagerSearch::Found(CookieManager::Global)
            } else {
                ManagerSearch::Missing
            },
            _ => self,
        }
    }

    /// The store that was found, once the search has ended.
    pub fn result(self) -> (result: Option<Result<CookieManager, WebviewError>>)
        ensures
            result == match self {
                ManagerSearch::Found(manager) => Some(Ok(manager)),
                ManagerSearch::Missing => Some(Err(WebviewError::CookieManagerUnavailable)),
                _ => None,
            },
    {
        match self {
            ManagerSearch::Found(manager) => Some(Ok(manager)),
            ManagerSearch::Missing => Some(Err(WebviewError::CookieManagerUnavailable)),
            _ => None,
        }
    }
}

/// How the search for a cookie store ends when CEF has, or has not, what it is asked
/// for.
pub open spec fn search_end(
    slot: Option<i32>,
    host: bool,
    context: bool,
    manager: bool,
    global: bool,
) -> ManagerSearch {
    let first = search_begin(slot);
    let second = if first == ManagerSearch::AskHost {
        search_after(first, host)
    } else {
        first
    };
    let third = if second == ManagerSearch::AskRequestContext {
        search_after(second, context)
    } else {
        second
    };
    let fourth = if third == ManagerSearch::AskContextManager {
        search_after(third, manager)
    } else {
        third
    };
    if fourth == ManagerSearch::AskGlobalManager {
        search_after(fourth, global)
    } else {
        fourth
    }
}

/// The store of the browser's own context is used where there is one, the global one
/// otherwise, and a search fails only where there is neither.
pub proof fn lemma_own_cookie_store_comes_first(
    slot: Option<i32>,
    host: bool,
    context: bool,
    manager: bool,
    global: bool,
)
    ensures
        search_end(slot, host, context, manager, global) == if slot is Some && host && context
            && manager {
            ManagerSearch::Found(CookieManager::OfContext)
        } else if global {
            ManagerSearch::Found(CookieManager::Global)
        } else {
            ManagerSearch::Missing
        },
{
}

/// What CEF is asked to visit.
#[derive(Debug)]
pub enum CookieQuery {
    All,
    /// The cookies that a URL gets, those that scripts cannot see too.
    ForUrl(String),
}

/// How long the end of a visit of cookies is waited for, in milliseconds. What was
/// visited until then is collected.
pub const COOKIE_WAIT_MILLIS: u64 = 60;

/// The query for the cookies of a URL, or for all.
pub fn collect_cookies(url: Option<&str>) -> (query: CookieQuery)
    ensures
        match url {
            Some(url) => query is ForUrl && query->ForUrl_0@ == url@,
            None => query is All,
        },
{
    match url {
        Some(url) => CookieQuery::ForUrl(url.to_string()),
        None => CookieQuery::All,
    }
}

/// Whether a query has begun, by what CEF answered.
pub fn query_started(accepted: i32) -> (result: Result<(), WebviewError>)
    ensures
        result == if accepted == 0 {
            Err(WebviewError::CookieQueryFailed)
        } else {
            Ok(())
        },
{
    if accepted == 0 {
        Err(WebviewError::CookieQueryFailed)
    } else {
        Ok(())
    }
}

/// A cookie that CEF is to keep under a URL.
#[derive(Debug)]
pub struct SetCookieRequest {
    pub url: String,
    pub cookie: CefCookie,
}

/// A cookie that CEF is to delete under a URL.
#[derive(Debug)]
pub struct DeleteCookieRequest {
    pub url: String,
    pub name: String,
}

/// The request by which CEF keeps a cookie. `current_url` is the URL of the page, if
/// it has one.
pub fn set_cookie(cookie: &WebCookie, current_url: Option<&str>) -> (result: Result<
    SetCookieRequest,
    WebviewError,
>)
    ensures
        match urls::cookie_url(cookie@.domain, urls::page_of(urls::chars_of(current_url))) {
            Some(url) => {
                &&& result is Ok
                &&& result->Ok_0.url@ == url
                &&& result->Ok_0.cookie@ == cef_cookie(cookie@)
            },
            None => result == Err::<SetCookieRequest, _>(WebviewError::CookieUrlUnknown),
        },
{
    let url = match &cookie.domain {
        Some(domain) => urls::cookie_url_from(Some(domain.as_str()), current_url),
        None => urls::cookie_url_from(None, current_url),
    };
    match url {
        Some(url) => Ok(SetCookieRequest { url, cookie: tauri_cookie_to_cef(cookie) }),
        None => Err(WebviewError::CookieUrlUnknown),
    }
}

/// Whether CEF has taken a cookie.
pub fn cookie_set(ret: i32) -> (result: Result<(), WebviewError>)
    ensures
        result == if ret == 0 {
            Err(WebviewError::SetCookieFailed)
        } else {
            Ok(())
        },
{
    if ret == 0 {
        Err(WebviewError::SetCookieFailed)
    } else {
        Ok(())
    }
}

/// The request by which CEF deletes a cookie. `current_url` is the URL of the page,
/// if it has one.
pub fn delete_cookie(cookie: &WebCookie, current_url: Option<&str>) -> (result: Result<
    DeleteCookieRequest,
    WebviewError,
>)
    ensures
        match urls::cookie_url(cookie@.domain, urls::page_of(urls::chars_of(current_url))) {
            Some(url) => {
                &&& result is Ok
                &&& result->Ok_0.url@ == url
                &&& result->Ok_0.name@ == cookie@.name
            },
            None => result == Err::<DeleteCookieRequest, _>(WebviewError::CookieUrlUnknown),
        },
{
    let url = match &cookie.domain {
        Some(domain) => urls::cookie_url_from(Some(domain.as_str()), current_url),
        None => urls::cookie_url_from(None, current_url),
    };
    match url {
        Some(url) => Ok(DeleteCookieRequest { url, name: cookie.name.clone() }),
        None => Err(WebviewError::CookieUrlUnknown),
    }
}

/// Whether CEF has deleted a cookie.
pub fn cookie_deleted(deleted: i32) -> (result: Result<(), WebviewError>)
    ensures
        result == if deleted < 0 {
            Err(WebviewError::DeleteCookieFailed)
        } else {
            Ok(())
        },
{
    if deleted < 0 {
        Err(WebviewError::DeleteCookieFailed)
    } else {
        Ok(())
    }
}

/// How browsing data is cleared: the next call to CEF, or the end. Calls that only
/// look something up say whether it is there; the others go on in any case.
#[derive(Debug, Clone, Copy, PartialEq, Eq, Structural)]
pub enum ClearBrowsingData {
    AskHost,
    AskRequestContext,
    ClearHttpCache,
    AskContextManager,
    AskGlobalManager,
    DeleteCookies(CookieManager),
    FlushStore(CookieManager),
    Cleared,
    NothingToClear,
}

/// Clearing after CEF answered.
pub open spec fn clear_after(step: ClearBrowsingData, available: bool) -> ClearBrowsingData {
    match step {
        ClearBrowsingData::AskHost => if available {
            ClearBrowsingData::AskRequestContext
        } else {
            ClearBrowsingData::AskGlobalManager
        },
        ClearBrowsingData::AskRequestContext => if available {
            ClearBrowsingData::ClearHttpCache
        } else {
            ClearBrowsingData::AskGlobalManager
        },
        ClearBrowsingData::ClearHttpCache => ClearBrowsingData::AskContextManager,
        ClearBrowsingData::AskContextManager => if available {
            ClearBrowsingData::DeleteCookies(CookieManager::OfContext)
        } else {
            ClearBrowsingData::Cleared
        },
        ClearBrowsingData::AskGlobalManager => if available {
            ClearBrowsingData::DeleteCookies(CookieManager::Global)
        } else {
            ClearBrowsingData::NothingToClear
        },
        ClearBrowsingData::DeleteCookies(manager) => ClearBrowsingData::FlushStore(manager),
        ClearBrowsingData::FlushStore(_) => ClearBrowsingData::Cleared,
        _ => step,
    }
}

/// Where clearing the data of a browser begins.
pub open spec fn clear_begin(slot: Option<i32>) -> ClearBrowsingData {
    if slot is Some {
        ClearBrowsingData::AskHost
    } else {
        ClearBrowsingData::AskGlobalManager
    }
}

/// Begins to clear the data of a browser: its cache and its cookies, or, where it
/// has no request context, the cookies of the application.
pub fn clear_all_browsing_data(
    browsers: &BrowserSlots,
    slot: &BrowserSlot,
) -> (step: ClearBrowsingData)
    ensures
        step == clear_begin(slot.browser(browsers@)),
{
    if slot.current(browsers).is_some() {
        ClearBrowsingData::AskHost
    } else {
        ClearBrowsingData::AskGlobalManager
    }
}

impl ClearBrowsingData {
    /// Goes on with what CEF answered.
    pub fn answered(self, available: bool) -> (next: ClearBrowsingData)
        ensures
            next == clear_after(self, available),
    {
        match self {
            ClearBrowsingData::AskHost => if available {
                ClearBrowsingData::AskRequestContext
            } else {
                ClearBrowsingData::AskGlobalManager
            },
            ClearBrowsingData::AskRequestContext => if available {
                ClearBrowsingData::ClearHttpCache
            } else {
                ClearBrowsingData::AskGlobalManager
            },
            ClearBrowsingData::ClearHttpCache => ClearBrowsingData::AskContextManager,
            ClearBrowsingData::AskContextManager => if available {
                ClearBrowsingData::DeleteCookies(CookieManager::OfContext)
            } else {
                ClearBrowsingData::Cleared
            },
            ClearBrowsingData::AskGlobalManager => if available {
                ClearBrowsingData::DeleteCookies(CookieManager::Global)
            } else {
                ClearBrowsingData::NothingToClear
            },
            ClearBrowsingData::DeleteCookies(manager) => ClearBrowsingData::FlushStore(manager),
            ClearBrowsingData::FlushStore(_) => ClearBrowsingData::Cleared,
            _ => self,
        }
    }

    /// Whether the data was cleared, once that is known.
    pub fn result(self) -> (result: Option<Result<(), WebviewError>>)
        ensures
            result == match self {
                ClearBrowsingData::Cleared => Some(Ok::<(), WebviewError>(())),
                ClearBrowsingData::NothingToClear => Some(Err(WebviewError::ContextUnavailable)),
                _ => None,
            },
    {
        match self {
            ClearBrowsingData::Cleared => Some(Ok(())),
            ClearBrowsingData::NothingToClear => Some(Err(WebviewError::ContextUnavailable)),
            _ => None,
        }
    }
}

/// A number that falls with every step of clearing: clearing ends after seven calls
/// at most.
pub open spec fn clear_steps_left(step: ClearBrowsingData) -> nat {
    match step {
        ClearBrowsingData::AskHost => 7,
        ClearBrowsingData::AskRequestContext => 6,
        ClearBrowsingData::ClearHttpCache => 5,
        ClearBrowsingData::AskContextManager => 4,
        ClearBrowsingData::AskGlobalManager => 3,
        ClearBrowsingData::DeleteCookies(_) => 2,
        ClearBrowsingData::FlushStore(_) => 1,
        _ => 0,
    }
}

/// Clearing comes to an end. Once the cache was cleared, it ends well.
pub proof fn lemma_clearing_ends(step: ClearBrowsingData, available: bool)
    ensures
        clear_steps_left(step) > 0 ==> clear_steps_left(clear_after(step, available))
            < clear_steps_left(step),
        step == ClearBrowsingData::ClearHttpCache || step == ClearBrowsingData::AskContextManager
            || step is DeleteCookies || step is FlushStore ==> clear_after(step, available)
            != ClearBrowsingData::NothingToClear && clear_after(step, available)
            != ClearBrowsingData::AskGlobalManager,
{
}

/// The calls that clear something, up to the end of clearing, when CEF has, or has not,
/// what it is asked for, and that end.
pub open spec fn clearing(
    step: ClearBrowsingData,
    host: bool,
    context: bool,
    manager: bool,
    global: bool,
) -> (Seq<ClearBrowsingData>, ClearBrowsingData)
    decreases clear_steps_left(step),
{
    let available = match step {
        ClearBrowsingData::AskHost => host,
        ClearBrowsingData::AskRequestContext => context,
        ClearBrowsingData::AskContextManager => manager,
        ClearBrowsingData::AskGlobalManager => global,
        _ => true,
    };
    if clear_steps_left(step) == 0 {
        (Seq::empty(), step)
    } else {
        let rest = clearing(clear_after(step, available), host, context, manager, global);
        let clears = step is ClearHttpCache || step is DeleteCookies || step is FlushStore;
        (
            if clears {
                seq![step] + rest.0
            } else {
                rest.0
            },
            rest.1,
        )
    }
}

/// The calls that empty a store of cookies.
pub open spec fn emptying(manager: CookieManager) -> Seq<ClearBrowsingData> {
    seq![ClearBrowsingData::DeleteCookies(manager), ClearBrowsingData::FlushStore(manager)]
}

/// Clearing the data of a browser clears the cache of its request context, and the cookies
/// of that context if it has a store of them. Where there is no request context the cookies
/// of the application are cleared, and where there are none either it fails and clears
/// nothing.
pub proof fn lemma_clearing_clears(
    slot: Option<i32>,
    host: bool,
    context: bool,
    manager: bool,
    global: bool,
)
    ensures
        clearing(clear_begin(slot), host, context, manager, global) == if slot is Some && host
            && context {
            (
                seq![ClearBrowsingData::ClearHttpCache] + if manager {
                    emptying(CookieManager::OfContext)
                } else {
                    Seq::empty()
                },
                ClearBrowsingData::Cleared,
            )
        } else if global {
            (emptying(CookieManager::Global), ClearBrowsingData::Cleared)
        } else {
            (Seq::empty(), ClearBrowsingData::NothingToClear)
        },
{
    reveal_with_fuel(clearing, 8);
    let made = clearing(clear_begin(slot), host, context, manager, global).0;
    if slot is Some && host && context {
        if manager {
            assert(made =~= seq![ClearBrowsingData::ClearHttpCache] + emptying(
                CookieManager::OfContext,
            ));
        } else {
            assert(made =~= seq![ClearBrowsingData::ClearHttpCache] + Seq::empty());
        }
    } else if global {
        assert(made =~= emptying(CookieManager::Global));
    }
}

/// A cookie goes to CEF with its name and its value, its domain or none, its path or that of
/// the whole site, and with each flag set exactly if it is set.
pub proof fn lemma_cookie_reaches_cef(cookie: &WebCookie, result: CefCookie)
    requires
        call_ensures(tauri_cookie_to_cef, (cookie,), result),
    ensures
        result.name@ == cookie.name@,
        result.value@ == cookie.value@,
        cookie.domain matches Some(domain) ==> result.domain@ == domain@,
        cookie.domain is None ==> result.domain@.len() == 0,
        cookie.path matches Some(path) ==> result.path@ == path@,
        cookie.path is None ==> result.path@ == "/"@,
        result.secure == 1 <==> cookie.secure == Some(true),
        result.secure == 0 <==> cookie.secure != Some(true),
        result.httponly == 1 <==> cookie.http_only == Some(true),
        result.httponly == 0 <==> cookie.http_only != Some(true),
{
}

/// A cookie of CEF comes with its name, its value and its flags, and with its domain, but for
/// one dot at its beginning, and its path, if they are not empty.
pub proof fn lemma_cookie_comes_from_cef(cookie: &CefCookie, result: WebCookie)
    requires
        call_ensures(cef_cookie_to_tauri, (cookie,), result),
    ensures
        result.name@ == cookie.name@,
        result.value@ == cookie.value@,
        cookie.domain@.len() == 0 <==> result.domain is None,
        cookie.domain@.len() > 0 && cookie.domain@[0] == '.' ==> result.domain->Some_0@
            == cookie.domain@.skip(1),
        cookie.domain@.len() > 0 && cookie.domain@[0] != '.' ==> result.domain->Some_0@
            == cookie.domain@,
        cookie.path@.len() == 0 <==> result.path is None,
        result.path matches Some(path) ==> path@ == cookie.path@,
        result.secure == Some(cookie.secure != 0),
        result.http_only == Some(cookie.httponly != 0),
{
    if cookie.domain@.len() > 0 {
        assert(cookie.domain@.drop_first() =~= cookie.domain@.skip(1));
    }
}

/// Every cookie that CEF visits is collected, after those before it, and CEF is told to go on.
/// The end is signalled once, at the last cookie, or at once if there are none.
pub proof fn lemma_visits_are_collected(
    cookie: Option<&CefCookie>,
    count: i32,
    total: i32,
    result: (i32, bool),
)
    ensures
        forall|visitor: &mut CollectCookiesVisitor| #[trigger]
            call_ensures(CollectCookiesVisitor::visit, (visitor, cookie, count, total), result)
                ==> {
                let (before, after) = (*visitor, *final(visitor));
                let last = total <= 0 || count >= total - 1;
                &&& result.0 == 1
                &&& result.1 <==> before.waiting && last
                &&& after.waiting <==> before.waiting && !last
                &&& cookie is None ==> after.items@ == before.items@
                &&& cookie matches Some(cookie) ==> {
                    let taken = after.items@.last();
                    &&& after.items@.len() == before.items@.len() + 1
                    &&& after.items@.take(before.items@.len() as int) == before.items@
                    &&& taken.name@ == cookie.name@
                    &&& taken.value@ == cookie.value@
                    &&& taken.secure == Some(cookie.secure != 0)
                    &&& taken.http_only == Some(cookie.httponly != 0)
                }
            },
{
    assert forall|visitor: &mut CollectCookiesVisitor| #[trigger]
        call_ensures(CollectCookiesVisitor::visit, (visitor, cookie, count, total), result)
        && cookie is Some implies (*final(visitor)).items@.take((*visitor).items@.len() as int)
        == (*visitor).items@ by {
        let after = (*final(visitor)).items@;
        assert(after.drop_last() =~= after.take((*visitor).items@.len() as int));
        assert(after.last()@ == web_cookie(cookie->Some_0@));
    }
    assert forall|visitor: &mut CollectCookiesVisitor| #[trigger]
        call_ensures(CollectCookiesVisitor::visit, (visitor, cookie, count, total), result)
        && cookie is Some implies (*final(visitor)).items@.last()@ == web_cookie(
        cookie->Some_0@,
    ) by {}
}

/// A cookie is kept, and deleted, under the URL of its domain, or else of the page; without
/// either it is an error. It is deleted by its name.
pub proof fn lemma_cookies_are_kept_and_deleted_alike(
    cookie: &WebCookie,
    current_url: Option<&str>,
    kept: Result<SetCookieRequest, WebviewError>,
    deleted: Result<DeleteCookieRequest, WebviewError>,
)
    requires
        call_ensures(set_cookie, (cookie, current_url), kept),
        call_ensures(delete_cookie, (cookie, current_url), deleted),
    ensures
        kept is Ok <==> deleted is Ok,
        kept matches Ok(kept) ==> {
            &&& deleted->Ok_0.url@ == kept.url@
            &&& deleted->Ok_0.name@ == cookie.name@
            &&& kept.cookie.name@ == cookie.name@
            &&& kept.cookie.value@ == cookie.value@
        },
        kept matches Err(error) ==> error == WebviewError::CookieUrlUnknown,
        deleted matches Err(error) ==> error == WebviewError::CookieUrlUnknown,
        cookie.domain is None && current_url is None ==> kept is Err,
        cookie.domain is Some && cookie.domain->Some_0@.len() > 0
            && cookie.domain->Some_0@[0] != '.' ==> kept is Ok && kept->Ok_0.url@ == "https://"@
            + cookie.domain->Some_0@ + "/"@,
{
}

/// A query is for a URL or for all cookies, as asked for; it has begun, and a cookie is kept,
/// unless CEF answers with zero, and a cookie is deleted unless the answer is negative.
pub proof fn lemma_cef_answers_on_cookies(
    url: &str,
    some: CookieQuery,
    all: CookieQuery,
    answer: i32,
    started: Result<(), WebviewError>,
    kept: Result<(), WebviewError>,
    deleted: Result<(), WebviewError>,
)
    requires
        call_ensures(collect_cookies, (Some(url),), some),
        call_ensures(collect_cookies, (None::<&str>,), all),
        call_ensures(query_started, (answer,), started),
        call_ensures(cookie_set, (answer,), kept),
        call_ensures(cookie_deleted, (answer,), deleted),
    ensures
        some is ForUrl && some->ForUrl_0@ == url@,
        all is All,
        started is Ok <==> answer != 0,
        started matches Err(error) ==> error == WebviewError::CookieQueryFailed,
        kept is Ok <==> answer != 0,
        kept matches Err(error) ==> error == WebviewError::SetCookieFailed,
        deleted is Ok <==> answer >= 0,
        deleted matches Err(error) ==> error == WebviewError::DeleteCookieFailed,
{
}

/// The store of a browser is looked for by its host, its request context and the store of
/// that, in turn; wherever one of them is missing the store of the application is looked for,
/// and if that is missing too there is none.
pub proof fn lemma_stores_are_looked_for_in_turn(
    browsers: &BrowserSlots,
    slot: &BrowserSlot,
    begun: ManagerSearch,
    search: ManagerSearch,
    available: bool,
    next: ManagerSearch,
    found: Option<Result<CookieManager, WebviewError>>,
)
    requires
        call_ensures(get_cookie_manager, (browsers, slot), begun),
        call_ensures(ManagerSearch::answered, (search, available), next),
        call_ensures(ManagerSearch::result, (search,), found),
    ensures
        slot.browser(browsers@) is Some <==> begun is AskHost,
        slot.browser(browsers@) is None <==> begun is AskGlobalManager,
        search is AskHost && available ==> next is AskRequestContext,
        search is AskRequestContext && available ==> next is AskContextManager,
        search is AskContextManager && available ==> next == ManagerSearch::Found(
            CookieManager::OfContext,
        ),
        (search is AskHost || search is AskRequestContext || search is AskContextManager)
            && !available ==> next is AskGlobalManager,
        search is AskGlobalManager && available ==> next == ManagerSearch::Found(
            CookieManager::Global,
        ),
        search is AskGlobalManager && !available ==> next is Missing,
        search is Found || search is Missing ==> next == search,
        search matches ManagerSearch::Found(manager) ==> found == Some(
            Ok::<CookieManager, WebviewError>(manager),
        ),
        search is Missing ==> found == Some(
            Err::<CookieManager, WebviewError>(WebviewError::CookieManagerUnavailable),
        ),
        !(search is Found) && !(search is Missing) ==> found is None,
{
}

/// Clearing ends well once the cache or the cookies were cleared, and badly only where there
/// was nothing to clear.
pub proof fn lemma_clearing_has_a_result(
    browsers: &BrowserSlots,
    slot: &BrowserSlot,
    begun: ClearBrowsingData,
    step: ClearBrowsingData,
    available: bool,
    next: ClearBrowsingData,
    result: Option<Result<(), WebviewError>>,
)
    requires
        call_ensures(clear_all_browsing_data, (browsers, slot), begun),
        call_ensures(ClearBrowsingData::answered, (step, available), next),
        call_ensures(ClearBrowsingData::result, (step,), result),
    ensures
        slot.browser(browsers@) is Some <==> begun is AskHost,
        slot.browser(browsers@) is None <==> begun is AskGlobalManager,
        step is AskRequestContext && available ==> next is ClearHttpCache,
        step is ClearHttpCache ==> next is AskContextManager,
        step is AskContextManager && available ==> next == ClearBrowsingData::DeleteCookies(
            CookieManager::OfContext,
        ),
        step is AskGlobalManager && available ==> next == ClearBrowsingData::DeleteCookies(
            CookieManager::Global,
        ),
        step matches ClearBrowsingData::DeleteCookies(manager) ==> next
            == ClearBrowsingData::FlushStore(manager),
        step is FlushStore ==> next is Cleared,
        next is NothingToClear ==> step is NothingToClear || step is AskGlobalManager
            && !available,
        step is Cleared ==> result == Some(Ok::<(), WebviewError>(())),
        step is NothingToClear ==> result == Some(
            Err::<(), WebviewError>(WebviewError::ContextUnavailable),
        ),
        !(step is Cleared) && !(step is NothingToClear) ==> result is None,
{
}

} // verus!
