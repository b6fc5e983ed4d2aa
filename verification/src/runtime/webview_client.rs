//! What a webview decides when its browser asks.

use crate::browser_slot;
use crate::browser_slot::BrowserSlots;
use crate::cef_calls::{CallOf, CallSequence, SequenceState};
use crate::client::{HandlerId, ResourceRequestPayload};
use crate::pump::Deadline;
use crate::runtime::store::{WindowId, WindowModel, WindowsStore};
use crate::runtime::urls;
use crate::runtime::urls::protocol_name_from_url;
use crate::runtime::web;
use crate::runtime::web::{
    parse_url, resource_request_to_http_request, timeout_response, HttpRequest, HttpResponse,
    ParsedUrl, UrlModel,
};
use vstd::prelude::*;

verus! {

/// A handler of the application is asked about a URL.
#[derive(Debug)]
pub struct UrlQuestion {
    pub handler: HandlerId,
    pub url: ParsedUrl,
}

/// A handler of the application is asked about a URL, with text as characters.
pub struct UrlQuestionModel {
    pub handler: HandlerId,
    pub url: UrlModel,
}

impl View for UrlQuestion {
    type V = UrlQuestionModel;

    open spec fn view(&self) -> UrlQuestionModel {
        UrlQuestionModel { handler: self.handler, url: self.url@ }
    }
}

/// A handler is asked about a URL if there is a handler and the URL is one.
pub open spec fn asked(handler: Option<HandlerId>, url: Option<UrlModel>) -> Option<
    UrlQuestionModel,
> {
    match (handler, url) {
        (Some(handler), Some(url)) => Some(UrlQuestionModel { handler, url }),
        _ => None,
    }
}

/// What an optional question is as characters.
pub open spec fn question_model(question: Option<UrlQuestion>) -> Option<UrlQuestionModel> {
    match question {
        Some(question) => Some(question@),
        None => None,
    }
}

/// Asks a handler about a URL, if there is a handler and the URL is one.
pub fn ask(handler: Option<HandlerId>, url: Option<ParsedUrl>) -> (question: Option<UrlQuestion>)
    ensures
        question_model(question) == asked(handler, web::url_model(url)),
{
    match (handler, url) {
        (Some(handler), Some(url)) => Some(UrlQuestion { handler, url }),
        _ => None,
    }
}

/// The question to the application before a page is loaded. Without one the page is
/// loaded.
pub fn before_browse(handler: Option<HandlerId>, url: &str) -> (question: Option<UrlQuestion>)
    ensures
        question_model(question) == asked(handler, web::url_of(url@)),
{
    ask(handler, parse_url(url))
}

/// Whether a page is loaded, by the answer of the application if it was asked.
pub fn browse_allowed(answer: Option<bool>) -> (allowed: bool)
    ensures
        allowed == (answer != Some(false)),
{
    match answer {
        Some(answer) => answer,
        None => true,
    }
}

/// Whether a link that opens elsewhere may be followed: always.
pub fn open_url_from_tab() -> (allowed: bool)
    ensures
        allowed,
{
    true
}

/// What is done about a page that wants to open a window.
#[derive(Debug)]
pub enum PopupDecision {
    Allow,
    Deny,
    Ask(UrlQuestion),
}

/// What is done about a page that wants to open a window, with text as characters.
pub enum PopupDecisionModel {
    Allow,
    Deny,
    Ask(UrlQuestionModel),
}

impl View for PopupDecision {
    type V = PopupDecisionModel;

    open spec fn view(&self) -> PopupDecisionModel {
        match self {
            PopupDecision::Allow => PopupDecisionModel::Allow,
            PopupDecision::Deny => PopupDecisionModel::Deny,
            PopupDecision::Ask(question) => PopupDecisionModel::Ask(question@),
        }
    }
}

/// A page may open windows unless the application handles them. Then it is asked, if it
/// gets to answer and the URL is one.
pub open spec fn popup(
    opener_optional: bool,
    handler: Option<HandlerId>,
    url: Option<UrlModel>,
) -> PopupDecisionModel {
    match handler {
        None => PopupDecisionModel::Allow,
        Some(handler) => match url {
            Some(url) if opener_optional => PopupDecisionModel::Ask(
                UrlQuestionModel { handler, url },
            ),
            _ => PopupDecisionModel::Deny,
        },
    }
}

/// What is done about a page that wants to open a window, once its URL is parsed.
pub fn popup_at(
    opener_optional: bool,
    handler: Option<HandlerId>,
    url: Option<ParsedUrl>,
) -> (decision: PopupDecision)
    ensures
        decision@ == popup(opener_optional, handler, web::url_model(url)),
{
    match handler {
        None => PopupDecision::Allow,
        Some(handler) => {
            if !opener_optional {
                return PopupDecision::Deny;
            }
            match url {
                Some(url) => PopupDecision::Ask(UrlQuestion { handler, url }),
                None => PopupDecision::Deny,
            }
        },
    }
}

/// What is done about a page that wants to open a window.
pub fn popup_requested(
    opener_optional: bool,
    handler: Option<HandlerId>,
    target_url: &str,
) -> (decision: PopupDecision)
    ensures
        decision@ == popup(opener_optional, handler, web::url_of(target_url@)),
{
    popup_at(opener_optional, handler, parse_url(target_url))
}

/// The answer of the application to a page that wants to open a window.
#[derive(Debug, Clone, Copy, PartialEq, Eq, Structural)]
pub enum NewWindowResponse {
    Allow,
    Deny,
    /// The page goes into a window of the application.
    Create { window_id: WindowId },
}

/// What becomes of a window that a page wants to open.
#[derive(Debug, Clone, Copy, PartialEq, Eq, Structural)]
pub struct PopupOutcome {
    /// The browser opens the window by itself.
    pub allowed: bool,
    /// The window of the application that gets the page.
    pub routed_to: Option<WindowId>,
}

/// Takes the answer of the application to a page that wants to open a window.
pub fn popup_answered(response: NewWindowResponse) -> (outcome: PopupOutcome)
    ensures
        outcome.allowed == (response == NewWindowResponse::Allow),
        outcome.routed_to == match response {
            NewWindowResponse::Create { window_id } => Some(window_id),
            _ => None,
        },
{
    match response {
        NewWindowResponse::Allow => PopupOutcome { allowed: true, routed_to: None },
        NewWindowResponse::Deny => PopupOutcome { allowed: false, routed_to: None },
        NewWindowResponse::Create { window_id } => PopupOutcome {
            allowed: false,
            routed_to: Some(window_id),
        },
    }
}

/// How long a new window is waited for, in nanoseconds.
pub const ROUTE_TIMEOUT_NANOS: u128 = 2000000000;

/// The pause between two looks for a new window, in milliseconds.
pub const ROUTE_PAUSE_MILLIS: u64 = 25;

/// The search for the webview of a window that gets a page.
#[derive(Debug, Clone, Copy, PartialEq, Eq, Structural)]
pub struct NewWindowRoute {
    pub target: WindowId,
    pub deadline: Deadline,
}

/// How the search for a webview goes on.
#[derive(Debug)]
pub enum RouteStep {
    /// The webview was found, and its browser is told to load the page.
    Load { browser: Option<i32>, calls: CallSequence },
    /// There is no such webview, and there was time for it.
    GiveUp,
    /// The webview may still come.
    Pause,
}

/// How the search for a webview goes on, with sequences of calls as they stand.
pub enum RouteStepModel {
    Load { browser: Option<i32>, calls: SequenceState },
    GiveUp,
    Pause,
}

impl View for RouteStep {
    type V = RouteStepModel;

    open spec fn view(&self) -> RouteStepModel {
        match self {
            RouteStep::Load { browser, calls } => RouteStepModel::Load {
                browser: *browser,
                calls: calls@,
            },
            RouteStep::GiveUp => RouteStepModel::GiveUp,
            RouteStep::Pause => RouteStepModel::Pause,
        }
    }
}

/// The browser of the first webview of a window. The outer result says whether there is
/// such a webview.
pub open spec fn first_browser(
    windows: Option<Map<WindowId, WindowModel>>,
    browsers: Seq<Option<i32>>,
    target: WindowId,
) -> Option<Option<i32>> {
    match windows {
        Some(windows) => if windows.contains_key(target) && windows[target].webviews.len() > 0 {
            Some(windows[target].webviews[0].browser(browsers))
        } else {
            None
        },
        None => None,
    }
}

/// The windows, where they can be looked at.
pub open spec fn windows_seen(windows: Option<&WindowsStore>) -> Option<
    Map<WindowId, WindowModel>,
> {
    match windows {
        Some(windows) => Some(windows@),
        None => None,
    }
}

/// Begins, at `now`, the search for the webview that gets a page.
pub fn route_new_window_to_existing_window(target: WindowId, now: u64) -> (route: NewWindowRoute)
    ensures
        route.target == target,
        route.deadline.nanos == now + ROUTE_TIMEOUT_NANOS,
{
    NewWindowRoute {
        target,
        deadline: Deadline { nanos: now as u128 + ROUTE_TIMEOUT_NANOS },
    }
}

impl NewWindowRoute {
    /// Looks for the webview at `now`. The windows are `None` while they are in use.
    pub fn look(
        &self,
        windows: Option<&WindowsStore>,
        browsers: &BrowserSlots,
        url: &str,
        now: u64,
    ) -> (step: RouteStep)
        ensures
            step@ == match first_browser(windows_seen(windows), browsers@, self.target) {
                Some(browser) => RouteStepModel::Load {
                    browser,
                    calls: browser_slot::on_browser(
                        browser,
                        browser_slot::load_url_steps(url@),
                        false,
                    ),
                },
                None => if now >= self.deadline.nanos {
                    RouteStepModel::GiveUp
                } else {
                    RouteStepModel::Pause
                },
            },
    {
        if let Some(windows) = windows {
            if let Some(window) = windows.get(self.target) {
                if window.webviews.len() > 0 {
                    let webview = &window.webviews[0];
                    let ghost model = webview@;
                    assert(windows@[self.target].webviews[0] == model);
                    return RouteStep::Load {
                        browser: webview.browser_slot.current(browsers),
                        calls: webview.load_url(browsers, url),
                    };
                }
            }
        }
        if now as u128 >= self.deadline.nanos {
            RouteStep::GiveUp
        } else {
            RouteStep::Pause
        }
    }
}

/// What is done about a file that a page wants to download.
#[derive(Debug)]
pub enum DownloadDecision {
    Accept,
    Refuse,
    Ask(UrlQuestion),
}

/// What is done about a file that a page wants to download, with text as characters.
pub enum DownloadDecisionModel {
    Accept,
    Refuse,
    Ask(UrlQuestionModel),
}

impl View for DownloadDecision {
    type V = DownloadDecisionModel;

    open spec fn view(&self) -> DownloadDecisionModel {
        match self {
            DownloadDecision::Accept => DownloadDecisionModel::Accept,
            DownloadDecision::Refuse => DownloadDecisionModel::Refuse,
            DownloadDecision::Ask(question) => DownloadDecisionModel::Ask(question@),
        }
    }
}

/// A file is downloaded unless the application handles downloads. Then it is asked, if
/// the URL is one.
pub open spec fn download(
    handler: Option<HandlerId>,
    url: Option<UrlModel>,
) -> DownloadDecisionModel {
    match handler {
        None => DownloadDecisionModel::Accept,
        Some(handler) => match url {
            Some(url) => DownloadDecisionModel::Ask(UrlQuestionModel { handler, url }),
            None => DownloadDecisionModel::Refuse,
        },
    }
}

/// What is done about a file that a page wants to download, once its URL is parsed.
pub fn download_at(handler: Option<HandlerId>, url: Option<ParsedUrl>) -> (decision:
    DownloadDecision)
    ensures
        decision@ == download(handler, web::url_model(url)),
{
    match handler {
        None => DownloadDecision::Accept,
        Some(handler) => match url {
            Some(url) => DownloadDecision::Ask(UrlQuestion { handler, url }),
            None => DownloadDecision::Refuse,
        },
    }
}

/// What is done about a file that a page wants to download.
pub fn download_requested(handler: Option<HandlerId>, url: &str) -> (decision: DownloadDecision)
    ensures
        decision@ == download(handler, web::url_of(url@)),
{
    download_at(handler, parse_url(url))
}

/// Where a file goes that is downloaded. `in_current_dir` is the destination taken
/// from the current directory, where there is one.
pub fn download_destination<P>(
    destination: P,
    is_relative: bool,
    in_current_dir: Option<P>,
) -> (path: P)
    ensures
        path == match in_current_dir {
            Some(in_current_dir) => if is_relative {
                in_current_dir
            } else {
                destination
            },
            None => destination,
        },
{
    match in_current_dir {
        Some(in_current_dir) => if is_relative {
            in_current_dir
        } else {
            destination
        },
        None => destination,
    }
}

/// The handler that learns that a download is finished.
pub fn download_finished(handler: Option<HandlerId>, url: &str) -> (question: Option<UrlQuestion>)
    ensures
        question_model(question) == asked(handler, web::url_of(url@)),
{
    ask(handler, parse_url(url))
}

/// The protocols that the application answers, by their names.
#[derive(Debug)]
pub struct UriSchemeProtocols {
    entries: Vec<(String, HandlerId)>,
}

/// Protocols by their names. The last one with a name counts.
pub open spec fn by_name(entries: Seq<(String, HandlerId)>) -> Map<Seq<char>, HandlerId>
    decreases entries.len(),
{
    if entries.len() == 0 {
        Map::empty()
    } else {
        by_name(entries.drop_last()).insert(entries.last().0@, entries.last().1)
    }
}

impl View for UriSchemeProtocols {
    type V = Map<Seq<char>, HandlerId>;

    closed spec fn view(&self) -> Map<Seq<char>, HandlerId> {
        by_name(self.entries@)
    }
}

impl UriSchemeProtocols {
    /// No protocols.
    pub fn new() -> (protocols: Self)
        ensures
            protocols@ == Map::<Seq<char>, HandlerId>::empty(),
    {
        UriSchemeProtocols { entries: Vec::new() }
    }

    /// Adds a protocol.
    pub fn insert(&mut self, name: String, handler: HandlerId)
        ensures
            final(self)@ == old(self)@.insert(name@, handler),
    {
        let ghost before = self.entries@;
        self.entries.push((name, handler));
        assert(self.entries@.drop_last() =~= before);
    }

    /// The handler of a protocol.
    pub fn get(&self, name: &String) -> (handler: Option<HandlerId>)
        ensures
            handler == if self@.contains_key(name@) {
                Some(self@[name@])
            } else {
                None
            },
    {
        let mut left: usize = self.entries.len();
        assert(self.entries@.take(left as int) =~= self.entries@);
        while left > 0
            invariant
                left <= self.entries@.len(),
                self@.contains_key(name@) == by_name(
                    self.entries@.take(left as int),
                ).contains_key(name@),
                self@.contains_key(name@) ==> self@[name@] == by_name(
                    self.entries@.take(left as int),
                )[name@],
            decreases left,
        {
            let ghost seen = self.entries@.take(left as int);
            assert(seen.drop_last() =~= self.entries@.take(left - 1));
            assert(seen.last() == self.entries@[left - 1]);
            left = left - 1;
            if self.entries[left].0 == *name {
                return Some(self.entries[left].1);
            }
        }
        assert(self.entries@.take(0) =~= Seq::empty());
        None
    }
}

/// A protocol of the application that answers a request.
pub struct ProtocolModel {
    pub handler: HandlerId,
    pub name: Seq<char>,
}

/// The protocol that answers requests for a URL, if the application has it.
pub open spec fn protocol_of(
    protocols: Map<Seq<char>, HandlerId>,
    url: Option<UrlModel>,
) -> Option<ProtocolModel> {
    match url {
        Some(url) => match urls::protocol_name(url) {
            Some(name) => if protocols.contains_key(name) {
                Some(ProtocolModel { handler: protocols[name], name })
            } else {
                None
            },
            None => None,
        },
        None => None,
    }
}

/// Finds the protocol that answers requests for a URL.
pub fn protocol_for(protocols: &UriSchemeProtocols, url: Option<ParsedUrl>) -> (protocol: Option<
    (HandlerId, String),
>)
    ensures
        match protocol {
            Some(protocol) => protocol_of(protocols@, web::url_model(url)) == Some(
                ProtocolModel { handler: protocol.0, name: protocol.1@ },
            ),
            None => protocol_of(protocols@, web::url_model(url)) is None,
        },
{
    let url = match url {
        Some(url) => url,
        None => {
            return None;
        },
    };
    match protocol_name_from_url(&url) {
        Some(name) => match protocols.get(&name) {
            Some(handler) => Some((handler, name)),
            None => None,
        },
        None => None,
    }
}

/// A request that a protocol of the application answers.
#[derive(Debug)]
pub struct ProtocolCall {
    pub handler: HandlerId,
    pub protocol: String,
    pub request: HttpRequest,
}

/// How long the answer of a protocol is waited for, in milliseconds.
pub const PROTOCOL_TIMEOUT_MILLIS: u64 = 10000;

/// Hands a request for a resource to the protocol that answers it. A request that none
/// answers, that is not an HTTP request or that has too many headers goes its ordinary
/// way.
pub fn resource_requested(protocols: &UriSchemeProtocols, payload: &ResourceRequestPayload) -> (
    call: Option<ProtocolCall>)
    ensures
        call is None ==> {
            ||| protocol_of(protocols@, web::url_of(payload.url@)) is None
            ||| web::request_uri(payload.url@) is None
            ||| !web::is_token(payload.method@)
            ||| payload.headers@.len() > 6553
        },
        call matches Some(call) ==> {
            &&& web::is_token(payload.method@)
            &&& protocol_of(protocols@, web::url_of(payload.url@)) == Some(
                ProtocolModel { handler: call.handler, name: call.protocol@ },
            )
            &&& Some(call.request.uri@) == web::request_uri(payload.url@)
            &&& call.request.method@ == payload.method@
            &&& web::header_entries(call.request.headers) == web::collected_headers(
                payload.headers@,
            )
            &&& call.request.body@ == payload.body@
        },
{
    match protocol_for(protocols, parse_url(payload.url.as_str())) {
        Some((handler, protocol)) => match resource_request_to_http_request(payload) {
            Some(request) => Some(ProtocolCall { handler, protocol, request }),
            None => None,
        },
        None => None,
    }
}

/// What becomes of the answer of a protocol.
#[derive(Debug)]
pub enum ResponseStep {
    /// There was none in time.
    TimedOut(HttpResponse),
    /// A handler of the application may change it, before pages may read it.
    Rewrite(HandlerId, HttpResponse),
    /// Pages may read it.
    Open(HttpResponse),
}

/// Takes the answer of a protocol, if there was one in time.
pub fn protocol_answered(response: Option<HttpResponse>, rewriter: Option<HandlerId>) -> (step:
    ResponseStep)
    ensures
        match response {
            Some(response) => step == match rewriter {
                Some(handler) => ResponseStep::Rewrite(handler, response),
                None => ResponseStep::Open(response),
            },
            None => {
                &&& step matches ResponseStep::TimedOut(response)
                &&& response.status == 504
                &&& web::header_entries(response.headers) == web::no_entries()
                &&& response.body@ == Seq::<u8>::empty()
            },
        },
{
    match response {
        Some(response) => match rewriter {
            Some(handler) => ResponseStep::Rewrite(handler, response),
            None => ResponseStep::Open(response),
        },
        None => ResponseStep::TimedOut(timeout_response()),
    }
}

/// Without a handler of the application nothing is refused: pages are loaded, windows
/// are opened and files are downloaded, whatever their URL.
pub proof fn lemma_nothing_is_refused_without_handlers(
    opener_optional: bool,
    url: Option<UrlModel>,
)
    ensures
        asked(None, url) is None,
        popup(opener_optional, None, url) is Allow,
        download(None, url) is Accept,
{
}

/// Where the application handles them, it is asked about every page that is loaded from
/// a URL, and no window is opened and no file is downloaded without its consent.
pub proof fn lemma_handlers_decide(
    opener_optional: bool,
    handler: HandlerId,
    url: Option<UrlModel>,
)
    ensures
        asked(Some(handler), url) is Some <==> url is Some,
        !(popup(opener_optional, Some(handler), url) is Allow),
        !(download(Some(handler), url) is Accept),
        popup(opener_optional, Some(handler), url) is Ask <==> opener_optional && url is Some,
        download(Some(handler), url) is Ask <==> url is Some,
{
}

/// A handler is asked about a URL, under that URL, exactly if there is a handler and the URL is
/// one; a page is loaded unless the answer is no.
pub proof fn lemma_pages_are_asked_about(
    handler: Option<HandlerId>,
    url: Option<ParsedUrl>,
    question: Option<UrlQuestion>,
    answer: Option<bool>,
    allowed: bool,
    elsewhere: bool,
)
    requires
        call_ensures(ask, (handler, url), question),
        call_ensures(browse_allowed, (answer,), allowed),
        call_ensures(open_url_from_tab, (), elsewhere),
    ensures
        question is Some <==> handler is Some && url is Some,
        question matches Some(question) ==> {
            &&& Some(question.handler) == handler
            &&& question.url@ == url->Some_0@
        },
        answer is None ==> allowed,
        answer matches Some(answer) ==> allowed == answer,
        elsewhere,
{
}

/// What the application is asked about a page, a window and a file goes by the same URL: each
/// is asked about exactly if the text is a URL, if the application handles it, and, for a
/// window, if it gets to answer.
pub proof fn lemma_questions_agree(
    opener_optional: bool,
    handler: HandlerId,
    text: &str,
    page: Option<UrlQuestion>,
    popup_decision: PopupDecision,
    file: DownloadDecision,
    done: Option<UrlQuestion>,
)
    requires
        call_ensures(before_browse, (Some(handler), text), page),
        call_ensures(popup_requested, (opener_optional, Some(handler), text), popup_decision),
        call_ensures(download_requested, (Some(handler), text), file),
        call_ensures(download_finished, (Some(handler), text), done),
    ensures
        page is Some <==> done is Some,
        page is Some <==> file is Ask,
        page is None <==> file is Refuse,
        page is Some && opener_optional <==> popup_decision is Ask,
        page is None || !opener_optional <==> popup_decision is Deny,
        page matches Some(page) ==> {
            &&& page.handler == handler
            &&& Some(page.url@) == web::url_of(text@)
            &&& done->Some_0@ == page@
            &&& file->Ask_0@ == page@
            &&& opener_optional ==> popup_decision->Ask_0@ == page@
        },
{
}

/// A page may open a window by itself only if the application allows it, and a window of the
/// application gets the page only if it was created for it.
pub proof fn lemma_answers_open_windows(
    window_id: WindowId,
    response: NewWindowResponse,
    outcome: PopupOutcome,
)
    requires
        call_ensures(popup_answered, (response,), outcome),
    ensures
        response is Allow <==> outcome.allowed,
        response == (NewWindowResponse::Create { window_id }) <==> outcome.routed_to == Some(
            window_id,
        ),
        response is Deny ==> !outcome.allowed && outcome.routed_to is None,
{
}

/// A new window is looked for until two seconds have passed. Its first webview loads the page
/// as soon as it is there.
pub proof fn lemma_new_windows_are_waited_for(
    target: WindowId,
    begin: u64,
    route: NewWindowRoute,
    windows: &WindowsStore,
    browsers: &BrowserSlots,
    url: &str,
    now: u64,
    step: RouteStep,
    blind: RouteStep,
)
    requires
        call_ensures(route_new_window_to_existing_window, (target, begin), route),
        call_ensures(NewWindowRoute::look, (&route, Some(windows), browsers, url, now), step),
        call_ensures(
            NewWindowRoute::look,
            (&route, None::<&WindowsStore>, browsers, url, now),
            blind,
        ),
    ensures
        ({
            let there = windows@.contains_key(target) && windows@[target].webviews.len() > 0;
            let late = now >= begin + 2000000000;
            &&& there <==> step is Load
            &&& !there && late <==> step is GiveUp
            &&& !there && !late <==> step is Pause
            &&& late <==> blind is GiveUp
            &&& !late <==> blind is Pause
            &&& step matches RouteStep::Load { browser, calls } ==> {
                &&& browser == windows@[target].webviews[0].browser(browsers@)
                &&& browser is Some ==> {
                    &&& calls@.remaining.len() == 2
                    &&& calls@.remaining[0].call == CallOf::<Seq<char>>::MainFrame
                    &&& calls@.remaining[1].call == CallOf::LoadUrl(url@)
                }
            }
        }),
{
}

/// A file goes where the application says, taken from the current directory if it is relative
/// and there is one.
pub proof fn lemma_files_go_where_told<P>(
    destination: P,
    is_relative: bool,
    in_current_dir: Option<P>,
    path: P,
)
    requires
        call_ensures(
            download_destination::<P>,
            (destination, is_relative, in_current_dir),
            path,
        ),
    ensures
        is_relative && in_current_dir is Some ==> in_current_dir == Some(path),
        !is_relative || in_current_dir is None ==> path == destination,
{
}

/// A protocol that was added is found under its name, in place of an earlier one, and no other
/// name is touched.
pub proof fn lemma_protocols_are_found(
    protocols: &UriSchemeProtocols,
    name: String,
    found: Option<HandlerId>,
    handler: HandlerId,
    other: Seq<char>,
)
    requires
        call_ensures(UriSchemeProtocols::get, (protocols, &name), found),
        other != name@,
    ensures
        found is Some <==> protocols@.contains_key(name@),
        found matches Some(found) ==> found == protocols@[name@],
        forall|entries: &mut UriSchemeProtocols| #[trigger]
            call_ensures(UriSchemeProtocols::insert, (entries, name, handler), ()) ==> {
                let (before, after) = ((*entries)@, (*final(entries))@);
                &&& after.contains_key(name@) && after[name@] == handler
                &&& after.contains_key(other) == before.contains_key(other)
                &&& before.contains_key(other) ==> after[other] == before[other]
            },
{
}

/// A request is answered by the protocol that its URL names, if the application has it, and
/// reaches it with its method and its body.
pub proof fn lemma_protocols_answer_their_requests(
    protocols: &UriSchemeProtocols,
    url: ParsedUrl,
    name: Option<String>,
    protocol: Option<(HandlerId, String)>,
    unparsed: Option<(HandlerId, String)>,
    payload: &ResourceRequestPayload,
    call: Option<ProtocolCall>,
)
    requires
        call_ensures(protocol_name_from_url, (&url,), name),
        call_ensures(protocol_for, (protocols, Some(url)), protocol),
        call_ensures(protocol_for, (protocols, None::<ParsedUrl>), unparsed),
        call_ensures(resource_requested, (protocols, payload), call),
    ensures
        unparsed is None,
        protocol is Some <==> name is Some && protocols@.contains_key(name->Some_0@),
        protocol matches Some(protocol) ==> {
            &&& protocol.1@ == name->Some_0@
            &&& protocol.0 == protocols@[name->Some_0@]
        },
        call matches Some(call) ==> {
            &&& call.request.method@ == payload.method@
            &&& call.request.body@ == payload.body@
            &&& protocols@.contains_key(call.protocol@)
            &&& protocols@[call.protocol@] == call.handler
        },
{
}

/// An answer in time is opened to pages, or rewritten before where a handler does that; without
/// one it is that of a gateway that timed out.
pub proof fn lemma_answers_are_opened(
    response: HttpResponse,
    rewriter: HandlerId,
    opened: ResponseStep,
    rewritten: ResponseStep,
    late: ResponseStep,
)
    requires
        call_ensures(protocol_answered, (Some(response), None::<HandlerId>), opened),
        call_ensures(protocol_answered, (Some(response), Some(rewriter)), rewritten),
        call_ensures(protocol_answered, (None::<HttpResponse>, Some(rewriter)), late),
    ensures
        opened == ResponseStep::Open(response),
        rewritten == ResponseStep::Rewrite(rewriter, response),
        late is TimedOut && late->TimedOut_0.status == 504 && late->TimedOut_0.body@.len() == 0,
{
}

} // verus!
