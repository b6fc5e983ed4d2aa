//! The browser that a webview works on, and what can be asked of it.

use crate::cef_calls;
use crate::cef_calls::{CallOf, CallSequence, OnFailure, ProcessId, SequenceState, Step, StepModel};
use vstd::prelude::*;

verus! {

/// The browsers of webviews, by the slots that hold them.
#[derive(Debug)]
pub struct BrowserSlots {
    browsers: Vec<Option<i32>>,
}

impl View for BrowserSlots {
    type V = Seq<Option<i32>>;

    closed spec fn view(&self) -> Seq<Option<i32>> {
        self.browsers@
    }
}

/// The place that holds the browser of a webview once CEF has created it.
///
/// A browser is known by its CEF identifier. The operations of the slot yield the
/// calls that CEF is to receive for the browser that the slot holds. A slot can be
/// copied: all copies are one place, and what is put into it through one of them is
/// in it for the others.
#[derive(Debug, Clone, Copy, PartialEq, Eq, Structural)]
pub struct BrowserSlot {
    id: usize,
}

/// The browsers after a slot was given one, or none.
pub open spec fn with_browser(
    browsers: Seq<Option<i32>>,
    slot: BrowserSlot,
    browser: Option<i32>,
) -> Seq<Option<i32>> {
    if slot.is_among(browsers) {
        browsers.update(slot.id(), browser)
    } else {
        browsers
    }
}

/// What CEF answers to the navigation queries of a browser.
#[derive(Debug, Clone, Copy)]
pub struct NavigationReport {
    pub is_loading: i32,
    pub can_go_back: i32,
    pub can_go_forward: i32,
}

/// Where a browser stands in its navigation history.
#[derive(Debug, Clone, Copy, PartialEq, Eq, Structural)]
pub struct NavigationState {
    pub is_loading: bool,
    pub can_go_back: bool,
    pub can_go_forward: bool,
}

impl Default for NavigationState {
    fn default() -> (state: Self)
        ensures
            state == (NavigationState {
                is_loading: false,
                can_go_back: false,
                can_go_forward: false,
            }),
    {
        NavigationState { is_loading: false, can_go_back: false, can_go_forward: false }
    }
}

/// What a navigation report says.
pub open spec fn reported(report: NavigationReport) -> NavigationState {
    NavigationState {
        is_loading: report.is_loading != 0,
        can_go_back: report.can_go_back != 0,
        can_go_forward: report.can_go_forward != 0,
    }
}

/// The script location that evaluated scripts are reported under.
pub open spec fn eval_script_url() -> Seq<char> {
    "tauri-runtime-cef://eval"@
}

/// A step without which the sequence is done, and well done.
pub open spec fn helpful(call: CallOf<Seq<char>>) -> StepModel {
    StepModel { call, on_failure: OnFailure::Stop(true) }
}

/// `steps` on the browser of a slot, or the outcome where the slot holds none.
pub open spec fn on_browser(
    slot: Option<i32>,
    steps: Seq<StepModel>,
    without_browser: bool,
) -> SequenceState {
    if slot is Some {
        SequenceState::of(steps)
    } else {
        SequenceState::ended(without_browser)
    }
}

/// The calls that tell a browser that its window changed.
pub open spec fn resize_steps() -> Seq<StepModel> {
    seq![
        helpful(CallOf::Host),
        cef_calls::always(CallOf::NotifyMoveOrResizeStarted),
        cef_calls::always(CallOf::WasResized),
    ]
}

/// The calls that close a browser.
pub open spec fn close_steps(force: bool) -> Seq<StepModel> {
    seq![
        helpful(CallOf::Host),
        cef_calls::always(
            CallOf::CloseBrowser(
                if force {
                    1
                } else {
                    0
                },
            ),
        ),
    ]
}

/// The calls that go back in the history, where that is possible.
pub open spec fn go_back_steps() -> Seq<StepModel> {
    seq![cef_calls::required(CallOf::CanGoBack), cef_calls::always(CallOf::GoBack)]
}

/// The calls that go forward in the history, where that is possible.
pub open spec fn go_forward_steps() -> Seq<StepModel> {
    seq![cef_calls::required(CallOf::CanGoForward), cef_calls::always(CallOf::GoForward)]
}

/// The calls that load the page anew.
pub open spec fn reload_steps(ignore_cache: bool) -> Seq<StepModel> {
    if ignore_cache {
        seq![cef_calls::always(CallOf::ReloadIgnoreCache)]
    } else {
        seq![cef_calls::always(CallOf::Reload)]
    }
}

/// The calls that stop loading.
pub open spec fn stop_load_steps() -> Seq<StepModel> {
    seq![cef_calls::always(CallOf::StopLoad)]
}

/// The calls that load a URL.
pub open spec fn load_url_steps(url: Seq<char>) -> Seq<StepModel> {
    seq![cef_calls::required(CallOf::MainFrame), cef_calls::always(CallOf::LoadUrl(url))]
}

/// The calls that run a script in the main frame.
pub open spec fn eval_steps(script: Seq<char>) -> Seq<StepModel> {
    seq![
        cef_calls::required(CallOf::MainFrame),
        cef_calls::always(
            CallOf::ExecuteJavaScript {
                code: script,
                script_url: eval_script_url(),
                start_line: 1,
            },
        ),
    ]
}

/// The calls that give a process message its one argument.
pub open spec fn payload_steps(payload: Option<Seq<char>>) -> Seq<StepModel> {
    match payload {
        Some(payload) => seq![
            cef_calls::required(CallOf::ArgumentList),
            cef_calls::required(CallOf::SetArgumentCount(1)),
            cef_calls::required(CallOf::SetStringArgument(0, payload)),
        ],
        None => Seq::empty(),
    }
}

/// The calls that send a message from the main frame to a process.
pub open spec fn send_process_message_steps(
    target_process: ProcessId,
    name: Seq<char>,
    payload: Option<Seq<char>>,
) -> Seq<StepModel> {
    seq![
        cef_calls::required(CallOf::MainFrame),
        cef_calls::required(CallOf::CreateProcessMessage(name)),
    ] + payload_steps(payload) + seq![
        cef_calls::always(CallOf::SendProcessMessage(target_process)),
    ]
}

impl BrowserSlots {
    /// No slots.
    pub fn new() -> (browsers: Self)
        ensures
            browsers@ == Seq::<Option<i32>>::empty(),
    {
        BrowserSlots { browsers: Vec::new() }
    }
}

impl Default for BrowserSlots {
    fn default() -> (browsers: Self)
        ensures
            browsers@ == Seq::<Option<i32>>::empty(),
    {
        BrowserSlots::new()
    }
}

impl BrowserSlot {
    /// Where the slot is among all slots.
    pub closed spec fn id(&self) -> int {
        self.id as int
    }

    /// The slot is one of these.
    pub open spec fn is_among(&self, browsers: Seq<Option<i32>>) -> bool {
        0 <= self.id() < browsers.len()
    }

    /// The browser that the slot holds.
    pub open spec fn browser(&self, browsers: Seq<Option<i32>>) -> Option<i32> {
        if self.is_among(browsers) {
            browsers[self.id()]
        } else {
            None
        }
    }

    /// A slot of its own, without a browser.
    pub fn new(browsers: &mut BrowserSlots) -> (slot: Self)
        ensures
            slot.id() == old(browsers)@.len(),
            final(browsers)@ == old(browsers)@.push(None),
    {
        let id: usize = browsers.browsers.len();
        browsers.browsers.push(None);
        BrowserSlot { id }
    }

    /// Puts a browser into the slot, or takes it out.
    pub fn set(&self, browsers: &mut BrowserSlots, browser: Option<i32>)
        ensures
            final(browsers)@ == with_browser(old(browsers)@, *self, browser),
    {
        if self.id < browsers.browsers.len() {
            browsers.browsers.set(self.id, browser);
        }
    }

    /// The browser in the slot.
    pub fn current(&self, browsers: &BrowserSlots) -> (browser: Option<i32>)
        ensures
            browser == self.browser(browsers@),
    {
        if self.id < browsers.browsers.len() {
            browsers.browsers[self.id]
        } else {
            None
        }
    }

    /// Takes the browser out of the slot.
    pub fn clear(&self, browsers: &mut BrowserSlots)
        ensures
            final(browsers)@ == with_browser(old(browsers)@, *self, None),
    {
        self.set(browsers, None);
    }

    /// The calls of `steps` if there is a browser to make them on.
    fn calls(
        &self,
        browsers: &BrowserSlots,
        steps: Vec<Step>,
        without_browser: bool,
    ) -> (calls: CallSequence)
        ensures
            calls@ == on_browser(
                self.browser(browsers@),
                steps@.map_values(|step: Step| step@),
                without_browser,
            ),
    {
        if self.current(browsers).is_some() {
            CallSequence::of(steps)
        } else {
            CallSequence::ended(without_browser)
        }
    }

    /// Tells the browser that its window was moved or resized.
    pub fn notify_resized(&self, browsers: &BrowserSlots) -> (calls: CallSequence)
        ensures
            calls@ == on_browser(self.browser(browsers@), resize_steps(), true),
    {
        let steps: Vec<Step> = vec![
            Step { call: CallOf::Host, on_failure: OnFailure::Stop(true) },
            Step::always(CallOf::NotifyMoveOrResizeStarted),
            Step::always(CallOf::WasResized),
        ];
        assert(steps@.map_values(|step: Step| step@) =~= resize_steps());
        self.calls(browsers, steps, true)
    }

    /// Closes the browser.
    pub fn close(&self, browsers: &BrowserSlots, force: bool) -> (calls: CallSequence)
        ensures
            calls@ == on_browser(self.browser(browsers@), close_steps(force), true),
    {
        let force_flag: i32 = if force {
            1
        } else {
            0
        };
        let steps: Vec<Step> = vec![
            Step { call: CallOf::Host, on_failure: OnFailure::Stop(true) },
            Step::always(CallOf::CloseBrowser(force_flag)),
        ];
        assert(steps@.map_values(|step: Step| step@) =~= close_steps(force));
        self.calls(browsers, steps, true)
    }

    /// What a report on the browser in the slot says.
    pub fn navigation_state(
        &self,
        browsers: &BrowserSlots,
        report: NavigationReport,
    ) -> (state: Option<NavigationState>)
        ensures
            state == if self.browser(browsers@) is Some {
                Some(reported(report))
            } else {
                None
            },
    {
        if self.current(browsers).is_none() {
            return None;
        }
        Some(
            NavigationState {
                is_loading: report.is_loading != 0,
                can_go_back: report.can_go_back != 0,
                can_go_forward: report.can_go_forward != 0,
            },
        )
    }

    /// Goes back in the history. Fails where that is not possible.
    pub fn go_back(&self, browsers: &BrowserSlots) -> (calls: CallSequence)
        ensures
            calls@ == on_browser(self.browser(browsers@), go_back_steps(), false),
    {
        let steps: Vec<Step> = vec![
            Step::required(CallOf::CanGoBack),
            Step::always(CallOf::GoBack),
        ];
        assert(steps@.map_values(|step: Step| step@) =~= go_back_steps());
        self.calls(browsers, steps, false)
    }

    /// Goes forward in the history. Fails where that is not possible.
    pub fn go_forward(&self, browsers: &BrowserSlots) -> (calls: CallSequence)
        ensures
            calls@ == on_browser(self.browser(browsers@), go_forward_steps(), false),
    {
        let steps: Vec<Step> = vec![
            Step::required(CallOf::CanGoForward),
            Step::always(CallOf::GoForward),
        ];
        assert(steps@.map_values(|step: Step| step@) =~= go_forward_steps());
        self.calls(browsers, steps, false)
    }

    /// Loads the page anew, past the cache if asked to.
    pub fn reload(&self, browsers: &BrowserSlots, ignore_cache: bool) -> (calls: CallSequence)
        ensures
            calls@ == on_browser(self.browser(browsers@), reload_steps(ignore_cache), false),
    {
        let steps: Vec<Step> = if ignore_cache {
            vec![Step::always(CallOf::ReloadIgnoreCache)]
        } else {
            vec![Step::always(CallOf::Reload)]
        };
        assert(steps@.map_values(|step: Step| step@) =~= reload_steps(ignore_cache));
        self.calls(browsers, steps, false)
    }

    /// Stops loading.
    pub fn stop_load(&self, browsers: &BrowserSlots) -> (calls: CallSequence)
        ensures
            calls@ == on_browser(self.browser(browsers@), stop_load_steps(), false),
    {
        let steps: Vec<Step> = vec![Step::always(CallOf::StopLoad)];
        assert(steps@.map_values(|step: Step| step@) =~= stop_load_steps());
        self.calls(browsers, steps, false)
    }

    /// Loads a URL in the main frame.
    pub fn load_url(&self, browsers: &BrowserSlots, url: &str) -> (calls: CallSequence)
        ensures
            calls@ == on_browser(self.browser(browsers@), load_url_steps(url@), false),
    {
        let steps: Vec<Step> = vec![
            Step::required(CallOf::MainFrame),
            Step::always(CallOf::LoadUrl(url.to_string())),
        ];
        assert(steps@.map_values(|step: Step| step@) =~= load_url_steps(url@));
        self.calls(browsers, steps, false)
    }

    /// Runs a script in the main frame.
    pub fn eval(&self, browsers: &BrowserSlots, script: &str) -> (calls: CallSequence)
        ensures
            calls@ == on_browser(self.browser(browsers@), eval_steps(script@), false),
    {
        let steps: Vec<Step> = vec![
            Step::required(CallOf::MainFrame),
            Step::always(
                CallOf::ExecuteJavaScript {
                    code: script.to_string(),
                    script_url: "tauri-runtime-cef://eval".to_string(),
                    start_line: 1,
                },
            ),
        ];
        assert(steps@.map_values(|step: Step| step@) =~= eval_steps(script@));
        self.calls(browsers, steps, false)
    }

    /// Sends a message, with at most one argument, from the main frame to a
    /// process.
    pub fn send_process_message(
        &self,
        browsers: &BrowserSlots,
        target_process: ProcessId,
        name: &str,
        payload: Option<&str>,
    ) -> (calls: CallSequence)
        ensures
            calls@ == on_browser(
                self.browser(browsers@),
                send_process_message_steps(
                    target_process,
                    name@,
                    match payload {
                        Some(payload) => Some(payload@),
                        None => None,
                    },
                ),
                false,
            ),
    {
        let ghost payload_text = match payload {
            Some(payload) => Some(payload@),
            None => None,
        };
        let mut steps: Vec<Step> = vec![
            Step::required(CallOf::MainFrame),
            Step::required(CallOf::CreateProcessMessage(name.to_string())),
        ];
        if let Some(payload) = payload {
            steps.push(Step::required(CallOf::ArgumentList));
            steps.push(Step::required(CallOf::SetArgumentCount(1)));
            steps.push(Step::required(CallOf::SetStringArgument(0, payload.to_string())));
        }
        steps.push(Step::always(CallOf::SendProcessMessage(target_process)));
        assert(steps@.map_values(|step: Step| step@) =~= send_process_message_steps(
            target_process,
            name@,
            payload_text,
        ));
        self.calls(browsers, steps, false)
    }
}

/// All copies of a slot hold one browser, whenever they were made: what is put into a
/// slot is in it until something else is put into it, and it is in no other slot.
pub proof fn lemma_copies_share_a_browser(
    browsers: Seq<Option<i32>>,
    slot: BrowserSlot,
    copy: BrowserSlot,
    other: BrowserSlot,
    browser: Option<i32>,
)
    requires
        slot.is_among(browsers),
        copy == slot,
        other.id() != slot.id(),
    ensures
        slot.browser(with_browser(browsers, slot, browser)) == browser,
        copy.browser(with_browser(browsers, slot, browser)) == browser,
        slot.browser(with_browser(browsers, copy, browser)) == browser,
        other.browser(with_browser(browsers, slot, browser)) == other.browser(browsers),
        other.is_among(with_browser(browsers, slot, browser)) == other.is_among(browsers),
{
}

/// A new slot holds no browser, is none of those that there were, and changes none of
/// them.
pub proof fn lemma_new_slot_is_empty(
    browsers: Seq<Option<i32>>,
    slot: BrowserSlot,
    other: BrowserSlot,
)
    requires
        slot.id() == browsers.len(),
        other.is_among(browsers),
    ensures
        slot.is_among(browsers.push(None)),
        slot.browser(browsers.push(None)) is None,
        slot != other,
        other.browser(browsers.push(None)) == other.browser(browsers),
{
}

/// A message reaches a process only if the main frame, the message and, where
/// there is a payload, its argument could be had: nothing is sent after a failure.
pub proof fn lemma_nothing_is_sent_after_a_failure(
    target_process: ProcessId,
    name: Seq<char>,
    payload: Option<Seq<char>>,
    answers: Seq<i32>,
)
    requires
        answers.len() >= send_process_message_steps(target_process, name, payload).len(),
    ensures
        ({
            let steps = send_process_message_steps(target_process, name, payload);
            let made = cef_calls::run(steps, answers);
            &&& made.1 <==> made.0.len() == steps.len()
            &&& made.1 <==> made.0.last() == CallOf::<Seq<char>>::SendProcessMessage(target_process)
            &&& made.1 <==> forall|i: int| 0 <= i < steps.len() - 1 ==> #[trigger] answers[i] != 0
        }),
{
    let steps = send_process_message_steps(target_process, name, payload);
    let all = steps.len() as int;
    if forall|i: int| 0 <= i < all - 1 ==> #[trigger] answers[i] != 0 {
        lemma_run_to_the_end(steps, answers);
        cef_calls::lemma_calls_are_made_in_order(steps, answers);
    } else {
        lemma_run_to_the_first_failure(steps, answers);
        cef_calls::lemma_calls_are_made_in_order(steps, answers);
    }
}

/// A sequence of which only the last step is not required runs to its end if
/// every requirement is met.
proof fn lemma_run_to_the_end(steps: Seq<StepModel>, answers: Seq<i32>)
    requires
        0 < steps.len() <= answers.len(),
        steps.last().on_failure == OnFailure::Continue,
        forall|i: int| 0 <= i < steps.len() - 1 ==> #[trigger] answers[i] != 0,
    ensures
        cef_calls::run(steps, answers).1,
        cef_calls::run(steps, answers).0.len() == steps.len(),
    decreases steps.len(),
{
    if steps.len() > 1 {
        assert(answers[0] != 0);
        assert forall|i: int| 0 <= i < steps.drop_first().len() - 1 implies
            #[trigger] answers.drop_first()[i] != 0 by {
            assert(answers.drop_first()[i] == answers[i + 1]);
        }
        lemma_run_to_the_end(steps.drop_first(), answers.drop_first());
    } else {
        assert(cef_calls::run(steps.drop_first(), answers.drop_first()).0.len() == 0);
    }
}

/// A sequence of which only the last step is not required stops at the first
/// requirement that is not met.
proof fn lemma_run_to_the_first_failure(steps: Seq<StepModel>, answers: Seq<i32>)
    requires
        0 < steps.len() <= answers.len(),
        forall|i: int|
            0 <= i < steps.len() - 1 ==> (#[trigger] steps[i]).on_failure == OnFailure::Stop(false),
        exists|i: int| 0 <= i < steps.len() - 1 && #[trigger] answers[i] == 0,
    ensures
        !cef_calls::run(steps, answers).1,
        cef_calls::run(steps, answers).0.len() < steps.len(),
        cef_calls::run(steps, answers).0.len() > 0,
    decreases steps.len(),
{
    assert(steps[0].on_failure == OnFailure::Stop(false));
    if answers[0] != 0 {
        let failed = choose|i: int| 0 <= i < steps.len() - 1 && #[trigger] answers[i] == 0;
        assert(answers.drop_first()[failed - 1] == 0);
        assert forall|i: int| 0 <= i < steps.drop_first().len() - 1 implies (
        #[trigger] steps.drop_first()[i]).on_failure == OnFailure::Stop(false) by {
            assert(steps.drop_first()[i] == steps[i + 1]);
        }
        lemma_run_to_the_first_failure(steps.drop_first(), answers.drop_first());
    }
}

/// The calls that each operation makes on the browser of a slot, in order, and without which
/// of them it ends, and how.
pub proof fn lemma_operations_make_their_calls(
    slot: &BrowserSlot,
    browsers: &BrowserSlots,
    force: bool,
    resized: CallSequence,
    closed: CallSequence,
    back: CallSequence,
    forward: CallSequence,
    reloaded: CallSequence,
    reloaded_anew: CallSequence,
    stopped: CallSequence,
)
    requires
        slot.browser(browsers@) is Some,
        call_ensures(BrowserSlot::notify_resized, (slot, browsers), resized),
        call_ensures(BrowserSlot::close, (slot, browsers, force), closed),
        call_ensures(BrowserSlot::go_back, (slot, browsers), back),
        call_ensures(BrowserSlot::go_forward, (slot, browsers), forward),
        call_ensures(BrowserSlot::reload, (slot, browsers, false), reloaded),
        call_ensures(BrowserSlot::reload, (slot, browsers, true), reloaded_anew),
        call_ensures(BrowserSlot::stop_load, (slot, browsers), stopped),
    ensures
        ({
            let anyway = |call: CallOf<Seq<char>>|
                StepModel { call, on_failure: OnFailure::Continue };
            let or_end = |call: CallOf<Seq<char>>, outcome: bool|
                StepModel { call, on_failure: OnFailure::Stop(outcome) };
            &&& resized@.remaining == seq![
                or_end(CallOf::Host, true),
                anyway(CallOf::NotifyMoveOrResizeStarted),
                anyway(CallOf::WasResized),
            ]
            &&& force ==> closed@.remaining == seq![
                or_end(CallOf::Host, true),
                anyway(CallOf::CloseBrowser(1)),
            ]
            &&& !force ==> closed@.remaining == seq![
                or_end(CallOf::Host, true),
                anyway(CallOf::CloseBrowser(0)),
            ]
            &&& back@.remaining == seq![or_end(CallOf::CanGoBack, false), anyway(CallOf::GoBack)]
            &&& forward@.remaining == seq![
                or_end(CallOf::CanGoForward, false),
                anyway(CallOf::GoForward),
            ]
            &&& reloaded@.remaining == seq![anyway(CallOf::Reload)]
            &&& reloaded_anew@.remaining == seq![anyway(CallOf::ReloadIgnoreCache)]
            &&& stopped@.remaining == seq![anyway(CallOf::StopLoad)]
        }),
        resized@.outcome is None && closed@.outcome is None && back@.outcome is None,
        forward@.outcome is None && reloaded@.outcome is None && reloaded_anew@.outcome is None,
        stopped@.outcome is None,
{
}

/// A URL is loaded, and a script is run, in the main frame, with exactly its characters. A
/// message goes from the main frame to its process, with its name, and with its payload as its
/// only argument if it has one.
pub proof fn lemma_texts_reach_the_browser(
    slot: &BrowserSlot,
    browsers: &BrowserSlots,
    text: &str,
    loaded: CallSequence,
    run: CallSequence,
    target: ProcessId,
    payload: &str,
    sent: CallSequence,
    sent_without: CallSequence,
)
    requires
        slot.browser(browsers@) is Some,
        call_ensures(BrowserSlot::load_url, (slot, browsers, text), loaded),
        call_ensures(BrowserSlot::eval, (slot, browsers, text), run),
        call_ensures(
            BrowserSlot::send_process_message,
            (slot, browsers, target, text, Some(payload)),
            sent,
        ),
        call_ensures(
            BrowserSlot::send_process_message,
            (slot, browsers, target, text, None::<&str>),
            sent_without,
        ),
    ensures
        ({
            let anyway = |call: CallOf<Seq<char>>|
                StepModel { call, on_failure: OnFailure::Continue };
            let needed = |call: CallOf<Seq<char>>|
                StepModel { call, on_failure: OnFailure::Stop(false) };
            &&& loaded@.remaining == seq![
                needed(CallOf::MainFrame),
                anyway(CallOf::LoadUrl(text@)),
            ]
            &&& run@.remaining == seq![
                needed(CallOf::MainFrame),
                anyway(
                    CallOf::ExecuteJavaScript {
                        code: text@,
                        script_url: "tauri-runtime-cef://eval"@,
                        start_line: 1,
                    },
                ),
            ]
            &&& sent@.remaining == seq![
                needed(CallOf::MainFrame),
                needed(CallOf::CreateProcessMessage(text@)),
                needed(CallOf::ArgumentList),
                needed(CallOf::SetArgumentCount(1)),
                needed(CallOf::SetStringArgument(0, payload@)),
                anyway(CallOf::SendProcessMessage(target)),
            ]
            &&& sent_without@.remaining == seq![
                needed(CallOf::MainFrame),
                needed(CallOf::CreateProcessMessage(text@)),
                anyway(CallOf::SendProcessMessage(target)),
            ]
        }),
        loaded@.outcome is None && run@.outcome is None && sent@.outcome is None,
        sent_without@.outcome is None,
{
    let needed = |call: CallOf<Seq<char>>| StepModel { call, on_failure: OnFailure::Stop(false) };
    let anyway = |call: CallOf<Seq<char>>| StepModel { call, on_failure: OnFailure::Continue };
    assert(sent@.remaining =~= seq![
        needed(CallOf::MainFrame),
        needed(CallOf::CreateProcessMessage(text@)),
        needed(CallOf::ArgumentList),
        needed(CallOf::SetArgumentCount(1)),
        needed(CallOf::SetStringArgument(0, payload@)),
        anyway(CallOf::SendProcessMessage(target)),
    ]);
    assert(sent_without@.remaining =~= seq![
        needed(CallOf::MainFrame),
        needed(CallOf::CreateProcessMessage(text@)),
        anyway(CallOf::SendProcessMessage(target)),
    ]);
}

/// Without a browser no call is made, and only what has nothing left to do succeeds: telling a
/// browser of its size, and closing one. Where there is a browser, each answer of CEF that is
/// not zero is a yes.
pub proof fn lemma_empty_slot_makes_no_calls(
    slot: &BrowserSlot,
    browsers: &BrowserSlots,
    force: bool,
    text: &str,
    resized: CallSequence,
    closed: CallSequence,
    back: CallSequence,
    loaded: CallSequence,
    report: NavigationReport,
    state: Option<NavigationState>,
)
    requires
        call_ensures(BrowserSlot::notify_resized, (slot, browsers), resized),
        call_ensures(BrowserSlot::close, (slot, browsers, force), closed),
        call_ensures(BrowserSlot::go_back, (slot, browsers), back),
        call_ensures(BrowserSlot::load_url, (slot, browsers, text), loaded),
        call_ensures(BrowserSlot::navigation_state, (slot, browsers, report), state),
    ensures
        slot.browser(browsers@) is None ==> {
            &&& resized@.remaining.len() == 0 && resized@.outcome == Some(true)
            &&& closed@.remaining.len() == 0 && closed@.outcome == Some(true)
            &&& back@.remaining.len() == 0 && back@.outcome == Some(false)
            &&& loaded@.remaining.len() == 0 && loaded@.outcome == Some(false)
        },
        state is Some <==> slot.browser(browsers@) is Some,
        state matches Some(state) ==> {
            &&& state.is_loading <==> report.is_loading != 0
            &&& state.can_go_back <==> report.can_go_back != 0
            &&& state.can_go_forward <==> report.can_go_forward != 0
        },
{
}

/// What is put into a slot is in it, what is taken out of it is not, and no other slot changes;
/// a new slot is empty and none of those before.
pub proof fn lemma_slots_hold_their_browser(
    slot: &BrowserSlot,
    other: BrowserSlot,
    browser: Option<i32>,
    made: BrowserSlot,
    held: Option<i32>,
    shown: &BrowserSlots,
)
    requires
        other.id() != slot.id(),
        call_ensures(BrowserSlot::current, (slot, shown), held),
    ensures
        forall|browsers: &mut BrowserSlots| #[trigger]
            call_ensures(BrowserSlot::set, (slot, browsers, browser), ()) ==> {
                &&& slot.is_among((*browsers)@) ==> slot.browser((*final(browsers))@) == browser
                &&& other.browser((*final(browsers))@) == other.browser((*browsers)@)
                &&& (*final(browsers))@.len() == (*browsers)@.len()
            },
        forall|browsers: &mut BrowserSlots| #[trigger]
            call_ensures(BrowserSlot::clear, (slot, browsers), ()) ==> {
                &&& slot.browser((*final(browsers))@) is None
                &&& other.browser((*final(browsers))@) == other.browser((*browsers)@)
            },
        forall|browsers: &mut BrowserSlots| #[trigger]
            call_ensures(BrowserSlot::new, (browsers,), made) ==> {
                &&& made.is_among((*final(browsers))@)
                &&& made.browser((*final(browsers))@) is None
                &&& !made.is_among((*browsers)@)
                &&& other.is_among((*browsers)@) ==> other.browser((*final(browsers))@)
                    == other.browser((*browsers)@)
            },
        held == slot.browser(shown@),
{
}

} // verus!
