//! Commands to a webview.

use crate::browser_slot;
use crate::browser_slot::{BrowserSlot, BrowserSlots, NavigationReport, NavigationState};
use crate::cef_calls::{CallOf, CallSequence, ProcessId, SequenceState, StepModel};
use crate::text;
use vstd::prelude::*;

verus! {

/// What a webview can be told to do.
#[derive(Debug, Clone)]
pub enum WebviewCommand {
    LoadUrl(String),
    Eval(String),
    GoBack,
    GoForward,
    Reload,
    ReloadIgnoreCache,
    StopLoad,
    SendProcessMessage { target_process: ProcessId, name: String, payload: Option<String> },
    Close { force: bool },
}

/// The calls by which the browser in a slot carries out a command.
///
/// Without a browser every command fails, except that there is nothing left to
/// close.
pub open spec fn command_calls(slot: Option<i32>, command: WebviewCommand) -> SequenceState {
    match command {
        WebviewCommand::LoadUrl(url) => browser_slot::on_browser(
            slot,
            browser_slot::load_url_steps(url@),
            false,
        ),
        WebviewCommand::Eval(script) => browser_slot::on_browser(
            slot,
            browser_slot::eval_steps(script@),
            false,
        ),
        WebviewCommand::GoBack => browser_slot::on_browser(
            slot,
            browser_slot::go_back_steps(),
            false,
        ),
        WebviewCommand::GoForward => browser_slot::on_browser(
            slot,
            browser_slot::go_forward_steps(),
            false,
        ),
        WebviewCommand::Reload => browser_slot::on_browser(
            slot,
            browser_slot::reload_steps(false),
            false,
        ),
        WebviewCommand::ReloadIgnoreCache => browser_slot::on_browser(
            slot,
            browser_slot::reload_steps(true),
            false,
        ),
        WebviewCommand::StopLoad => browser_slot::on_browser(
            slot,
            browser_slot::stop_load_steps(),
            false,
        ),
        WebviewCommand::SendProcessMessage { target_process, name, payload } => {
            browser_slot::on_browser(
                slot,
                browser_slot::send_process_message_steps(target_process, name@, text::text_of(payload)),
                false,
            )
        },
        WebviewCommand::Close { force } => browser_slot::on_browser(
            slot,
            browser_slot::close_steps(force),
            true,
        ),
    }
}

/// Carrier of commands to the browser of a webview.
#[derive(Debug, Clone, Copy)]
pub struct WebviewDispatcher {
    browser_slot: BrowserSlot,
}

impl View for WebviewDispatcher {
    type V = BrowserSlot;

    closed spec fn view(&self) -> BrowserSlot {
        self.browser_slot
    }
}

impl WebviewDispatcher {
    /// A dispatcher to the browser in a slot.
    pub fn new(browser_slot: BrowserSlot) -> (dispatcher: Self)
        ensures
            dispatcher@ == browser_slot,
    {
        WebviewDispatcher { browser_slot }
    }

    /// What a report on the browser says, if there is a browser.
    pub fn navigation_state(
        &self,
        browsers: &BrowserSlots,
        report: NavigationReport,
    ) -> (state: Option<NavigationState>)
        ensures
            state == if self@.browser(browsers@) is Some {
                Some(browser_slot::reported(report))
            } else {
                None
            },
    {
        self.browser_slot.navigation_state(browsers, report)
    }

    /// Loads a URL.
    pub fn navigate(&self, browsers: &BrowserSlots, url: String) -> (calls: CallSequence)
        ensures
            calls@ == command_calls(self@.browser(browsers@), WebviewCommand::LoadUrl(url)),
    {
        self.dispatch(browsers, WebviewCommand::LoadUrl(url))
    }

    /// Runs a script.
    pub fn eval_script(&self, browsers: &BrowserSlots, script: String) -> (calls: CallSequence)
        ensures
            calls@ == command_calls(self@.browser(browsers@), WebviewCommand::Eval(script)),
    {
        self.dispatch(browsers, WebviewCommand::Eval(script))
    }

    /// Goes back in the history.
    pub fn go_back(&self, browsers: &BrowserSlots) -> (calls: CallSequence)
        ensures
            calls@ == command_calls(self@.browser(browsers@), WebviewCommand::GoBack),
    {
        self.dispatch(browsers, WebviewCommand::GoBack)
    }

    /// Goes forward in the history.
    pub fn go_forward(&self, browsers: &BrowserSlots) -> (calls: CallSequence)
        ensures
            calls@ == command_calls(self@.browser(browsers@), WebviewCommand::GoForward),
    {
        self.dispatch(browsers, WebviewCommand::GoForward)
    }

    /// Loads the page anew.
    pub fn reload(&self, browsers: &BrowserSlots) -> (calls: CallSequence)
        ensures
            calls@ == command_calls(self@.browser(browsers@), WebviewCommand::Reload),
    {
        self.dispatch(browsers, WebviewCommand::Reload)
    }

    /// Loads the page anew, past the cache.
    pub fn reload_ignore_cache(&self, browsers: &BrowserSlots) -> (calls: CallSequence)
        ensures
            calls@ == command_calls(self@.browser(browsers@), WebviewCommand::ReloadIgnoreCache),
    {
        self.dispatch(browsers, WebviewCommand::ReloadIgnoreCache)
    }

    /// Stops loading.
    pub fn stop_load(&self, browsers: &BrowserSlots) -> (calls: CallSequence)
        ensures
            calls@ == command_calls(self@.browser(browsers@), WebviewCommand::StopLoad),
    {
        self.dispatch(browsers, WebviewCommand::StopLoad)
    }

    /// Sends a message to a process.
    pub fn send_process_message(
        &self,
        browsers: &BrowserSlots,
        target_process: ProcessId,
        name: String,
        payload: Option<String>,
    ) -> (calls: CallSequence)
        ensures
            calls@ == command_calls(
                self@.browser(browsers@),
                WebviewCommand::SendProcessMessage { target_process, name, payload },
            ),
    {
        self.dispatch(
            browsers,
            WebviewCommand::SendProcessMessage { target_process, name, payload },
        )
    }

    /// Closes the browser.
    pub fn close_webview(&self, browsers: &BrowserSlots, force: bool) -> (calls: CallSequence)
        ensures
            calls@ == command_calls(self@.browser(browsers@), WebviewCommand::Close { force }),
    {
        self.dispatch(browsers, WebviewCommand::Close { force })
    }

    /// Carries out a command.
    pub fn dispatch(
        &self,
        browsers: &BrowserSlots,
        command: WebviewCommand,
    ) -> (calls: CallSequence)
        ensures
            calls@ == command_calls(self@.browser(browsers@), command),
    {
        match command {
            WebviewCommand::LoadUrl(url) => self.browser_slot.load_url(browsers, url.as_str()),
            WebviewCommand::Eval(script) => self.browser_slot.eval(browsers, script.as_str()),
            WebviewCommand::GoBack => self.browser_slot.go_back(browsers),
            WebviewCommand::GoForward => self.browser_slot.go_forward(browsers),
            WebviewCommand::Reload => self.browser_slot.reload(browsers, false),
            WebviewCommand::ReloadIgnoreCache => self.browser_slot.reload(browsers, true),
            WebviewCommand::StopLoad => self.browser_slot.stop_load(browsers),
            WebviewCommand::SendProcessMessage { target_process, name, payload } => {
                match payload {
                    Some(payload) => self.browser_slot.send_process_message(
                        browsers,
                        target_process,
                        name.as_str(),
                        Some(payload.as_str()),
                    ),
                    None => self.browser_slot.send_process_message(
                        browsers,
                        target_process,
                        name.as_str(),
                        None,
                    ),
                }
            },
            WebviewCommand::Close { force } => self.browser_slot.close(browsers, force),
        }
    }
}

/// A dispatcher works on whatever browser is in its slot, whenever that got there: one
/// that was made before its browser commands it once it is there.
pub proof fn lemma_dispatcher_follows_its_slot(
    browsers: Seq<Option<i32>>,
    slot: BrowserSlot,
    browser: i32,
    command: WebviewCommand,
)
    requires
        slot.is_among(browsers),
    ensures
        command_calls(
            slot.browser(browser_slot::with_browser(browsers, slot, Some(browser))),
            command,
        ) == command_calls(Some(browser), command),
{
}

/// A dispatcher without a browser makes no call, and reports failure for every
/// command but `Close`.
pub proof fn lemma_no_browser_no_calls(command: WebviewCommand)
    ensures
        command_calls(None, command).remaining.len() == 0,
        command_calls(None, command).outcome == Some(command is Close),
{
}

/// With a browser, a dispatcher never fails before it has asked CEF.
pub proof fn lemma_browser_is_asked(browser: i32, command: WebviewCommand)
    ensures
        command_calls(Some(browser), command).remaining.len() > 0,
        command_calls(Some(browser), command).outcome is None,
{
}

/// Each command makes the calls that carry it out, with what it says: a URL is loaded and a
/// script is run in the main frame, as they are; going back or forward is asked for first;
/// reloading goes past the cache only if told to; and closing is forced only if told to.
pub proof fn lemma_commands_are_carried_out(
    dispatcher: &WebviewDispatcher,
    browsers: &BrowserSlots,
    text: String,
    force: bool,
    loaded: CallSequence,
    run: CallSequence,
    back: CallSequence,
    forward: CallSequence,
    reloaded: CallSequence,
    reloaded_anew: CallSequence,
    stopped: CallSequence,
    closed: CallSequence,
)
    requires
        dispatcher@.browser(browsers@) is Some,
        call_ensures(WebviewDispatcher::navigate, (dispatcher, browsers, text), loaded),
        call_ensures(WebviewDispatcher::eval_script, (dispatcher, browsers, text), run),
        call_ensures(WebviewDispatcher::go_back, (dispatcher, browsers), back),
        call_ensures(WebviewDispatcher::go_forward, (dispatcher, browsers), forward),
        call_ensures(WebviewDispatcher::reload, (dispatcher, browsers), reloaded),
        call_ensures(
            WebviewDispatcher::reload_ignore_cache,
            (dispatcher, browsers),
            reloaded_anew,
        ),
        call_ensures(WebviewDispatcher::stop_load, (dispatcher, browsers), stopped),
        call_ensures(WebviewDispatcher::close_webview, (dispatcher, browsers, force), closed),
    ensures
        ({
            let calls = |made: CallSequence|
                made@.remaining.map_values(|step: StepModel| step.call);
            &&& calls(loaded) == seq![CallOf::MainFrame, CallOf::LoadUrl(text@)]
            &&& calls(run) == seq![
                CallOf::MainFrame,
                CallOf::ExecuteJavaScript {
                    code: text@,
                    script_url: "tauri-runtime-cef://eval"@,
                    start_line: 1,
                },
            ]
            &&& calls(back) == seq![CallOf::<Seq<char>>::CanGoBack, CallOf::GoBack]
            &&& calls(forward) == seq![CallOf::<Seq<char>>::CanGoForward, CallOf::GoForward]
            &&& calls(reloaded) == seq![CallOf::<Seq<char>>::Reload]
            &&& calls(reloaded_anew) == seq![CallOf::<Seq<char>>::ReloadIgnoreCache]
            &&& calls(stopped) == seq![CallOf::<Seq<char>>::StopLoad]
            &&& force ==> calls(closed) == seq![
                CallOf::<Seq<char>>::Host,
                CallOf::CloseBrowser(1),
            ]
            &&& !force ==> calls(closed) == seq![
                CallOf::<Seq<char>>::Host,
                CallOf::CloseBrowser(0),
            ]
        }),
{
    let calls = |made: CallSequence| made@.remaining.map_values(|step: StepModel| step.call);
    assert(calls(loaded) =~= seq![CallOf::MainFrame, CallOf::LoadUrl(text@)]);
    assert(calls(run) =~= seq![
        CallOf::MainFrame,
        CallOf::ExecuteJavaScript {
            code: text@,
            script_url: "tauri-runtime-cef://eval"@,
            start_line: 1,
        },
    ]);
    assert(calls(back) =~= seq![CallOf::<Seq<char>>::CanGoBack, CallOf::GoBack]);
    assert(calls(forward) =~= seq![CallOf::<Seq<char>>::CanGoForward, CallOf::GoForward]);
    assert(calls(reloaded) =~= seq![CallOf::<Seq<char>>::Reload]);
    assert(calls(reloaded_anew) =~= seq![CallOf::<Seq<char>>::ReloadIgnoreCache]);
    assert(calls(stopped) =~= seq![CallOf::<Seq<char>>::StopLoad]);
    assert(force ==> calls(closed) =~= seq![CallOf::<Seq<char>>::Host, CallOf::CloseBrowser(1)]);
    assert(!force ==> calls(closed) =~= seq![CallOf::<Seq<char>>::Host, CallOf::CloseBrowser(0)]);
}

/// A message is sent to the process that it is for, with its name and, if it has one, its
/// payload.
pub proof fn lemma_messages_are_sent(
    dispatcher: &WebviewDispatcher,
    browsers: &BrowserSlots,
    target_process: ProcessId,
    name: String,
    payload: Option<String>,
    sent: CallSequence,
)
    requires
        dispatcher@.browser(browsers@) is Some,
        call_ensures(
            WebviewDispatcher::send_process_message,
            (dispatcher, browsers, target_process, name, payload),
            sent,
        ),
    ensures
        ({
            let steps = sent@.remaining;
            &&& steps[0].call == CallOf::<Seq<char>>::MainFrame
            &&& steps[1].call == CallOf::CreateProcessMessage(name@)
            &&& steps.last().call == CallOf::<Seq<char>>::SendProcessMessage(target_process)
            &&& payload is None ==> steps.len() == 3
            &&& payload matches Some(payload) ==> {
                &&& steps.len() == 6
                &&& steps[2].call == CallOf::<Seq<char>>::ArgumentList
                &&& steps[3].call == CallOf::<Seq<char>>::SetArgumentCount(1)
                &&& steps[4].call == CallOf::SetStringArgument(0, payload@)
            }
        }),
{
}

} // verus!
