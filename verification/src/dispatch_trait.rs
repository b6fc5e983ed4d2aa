//! The runtime-facing side of a webview dispatcher.

use crate::browser_slot;
use crate::browser_slot::{BrowserSlots, NavigationReport, NavigationState};
use crate::cef_calls::{CallSequence, ProcessId, SequenceState};
use crate::dispatch;
use crate::dispatch::{WebviewCommand, WebviewDispatcher};
use vstd::prelude::*;

verus! {

/// Minimal runtime-facing webview dispatch trait.
///
/// An implementation says how it carries out a command; the named operations
/// follow from that.
pub trait TauriLikeWebviewDispatch {
    /// The calls by which a command is carried out.
    spec fn dispatched(&self, browsers: Seq<Option<i32>>, command: WebviewCommand) -> SequenceState;

    /// What a report says of the navigation.
    spec fn navigation(
        &self,
        browsers: Seq<Option<i32>>,
        report: NavigationReport,
    ) -> Option<NavigationState>;

    /// Carries out a command.
    fn dispatch(&self, browsers: &BrowserSlots, command: WebviewCommand) -> (calls: CallSequence)
        ensures
            calls@ == self.dispatched(browsers@, command),
    ;

    /// What a report on the browser says, if there is a browser.
    fn navigation_state(
        &self,
        browsers: &BrowserSlots,
        report: NavigationReport,
    ) -> (state: Option<NavigationState>)
        ensures
            state == self.navigation(browsers@, report),
    ;

    /// Loads a URL.
    fn navigate(&self, browsers: &BrowserSlots, url: String) -> (calls: CallSequence)
        ensures
            calls@ == self.dispatched(browsers@, WebviewCommand::LoadUrl(url)),
    {
        self.dispatch(browsers, WebviewCommand::LoadUrl(url))
    }

    /// Runs a script.
    fn eval_script(&self, browsers: &BrowserSlots, script: String) -> (calls: CallSequence)
        ensures
            calls@ == self.dispatched(browsers@, WebviewCommand::Eval(script)),
    {
        self.dispatch(browsers, WebviewCommand::Eval(script))
    }

    /// Goes back in the history.
    fn go_back(&self, browsers: &BrowserSlots) -> (calls: CallSequence)
        ensures
            calls@ == self.dispatched(browsers@, WebviewCommand::GoBack),
    {
        self.dispatch(browsers, WebviewCommand::GoBack)
    }

    /// Goes forward in the history.
    fn go_forward(&self, browsers: &BrowserSlots) -> (calls: CallSequence)
        ensures
            calls@ == self.dispatched(browsers@, WebviewCommand::GoForward),
    {
        self.dispatch(browsers, WebviewCommand::GoForward)
    }

    /// Loads the page anew.
    fn reload(&self, browsers: &BrowserSlots) -> (calls: CallSequence)
        ensures
            calls@ == self.dispatched(browsers@, WebviewCommand::Reload),
    {
        self.dispatch(browsers, WebviewCommand::Reload)
    }

    /// Loads the page anew, past the cache.
    fn reload_ignore_cache(&self, browsers: &BrowserSlots) -> (calls: CallSequence)
        ensures
            calls@ == self.dispatched(browsers@, WebviewCommand::ReloadIgnoreCache),
    {
        self.dispatch(browsers, WebviewCommand::ReloadIgnoreCache)
    }

    /// Stops loading.
    fn stop_load(&self, browsers: &BrowserSlots) -> (calls: CallSequence)
        ensures
            calls@ == self.dispatched(browsers@, WebviewCommand::StopLoad),
    {
        self.dispatch(browsers, WebviewCommand::StopLoad)
    }

    /// Sends a message to a process.
    fn send_process_message(
        &self,
        browsers: &BrowserSlots,
        target_process: ProcessId,
        name: String,
        payload: Option<String>,
    ) -> (calls: CallSequence)
        ensures
            calls@ == self.dispatched(
                browsers@,
                WebviewCommand::SendProcessMessage { target_process, name, payload },
            ),
    {
        self.dispatch(
            browsers,
            WebviewCommand::SendProcessMessage { target_process, name, payload },
        )
    }

    /// Closes the browser.
    fn close_webview(&self, browsers: &BrowserSlots, force: bool) -> (calls: CallSequence)
        ensures
            calls@ == self.dispatched(browsers@, WebviewCommand::Close { force }),
    {
        self.dispatch(browsers, WebviewCommand::Close { force })
    }
}

impl TauriLikeWebviewDispatch for WebviewDispatcher {
    open spec fn dispatched(
        &self,
        browsers: Seq<Option<i32>>,
        command: WebviewCommand,
    ) -> SequenceState {
        dispatch::command_calls(self@.browser(browsers), command)
    }

    open spec fn navigation(
        &self,
        browsers: Seq<Option<i32>>,
        report: NavigationReport,
    ) -> Option<NavigationState> {
        if self@.browser(browsers) is Some {
            Some(browser_slot::reported(report))
        } else {
            None
        }
    }

    fn dispatch(&self, browsers: &BrowserSlots, command: WebviewCommand) -> (calls: CallSequence) {
        WebviewDispatcher::dispatch(self, browsers, command)
    }

    fn navigation_state(
        &self,
        browsers: &BrowserSlots,
        report: NavigationReport,
    ) -> (state: Option<NavigationState>) {
        WebviewDispatcher::navigation_state(self, browsers, report)
    }
}

} // verus!
