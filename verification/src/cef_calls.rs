//! Sequences of calls into CEF.
//!
//! The runtime decides which calls CEF receives; the embedding application makes
//! them on the live CEF objects. A [`CallSequence`] is the hand-over between the
//! two: the application asks for the current call, makes it, reports what CEF
//! answered, and goes on until the sequence has an outcome.

use vstd::prelude::*;

verus! {

/// CEF process that a message is sent to or comes from.
#[derive(Debug, Clone, Copy, PartialEq, Eq, Structural)]
pub enum ProcessId {
    Browser,
    Renderer,
}

/// A call on the CEF objects of a browser, with text of type `S`.
///
/// Calls that look an object up (`Host`, `MainFrame`, the `Create` calls,
/// `ArgumentList`) select the object that later calls work on. They answer zero
/// when CEF has no such object and a nonzero value otherwise.
#[derive(Debug, Clone)]
pub enum CallOf<S> {
    // On the browser.
    CanGoBack,
    CanGoForward,
    GoBack,
    GoForward,
    Reload,
    ReloadIgnoreCache,
    StopLoad,
    Host,
    MainFrame,
    // On the browser host.
    NotifyMoveOrResizeStarted,
    WasResized,
    WasHidden(i32),
    CloseBrowser(i32),
    Print,
    /// The zoom level, as the bits of a 64-bit float.
    SetZoomLevel(u64),
    SetFocus(i32),
    ShowDevTools,
    CloseDevTools,
    HasDevTools,
    // On the main frame.
    LoadUrl(S),
    ExecuteJavaScript { code: S, script_url: S, start_line: i32 },
    // On process messages.
    CreateProcessMessage(S),
    ArgumentList,
    SetArgumentCount(usize),
    SetStringArgument(usize, S),
    SetBoolArgument(usize, i32),
    SendProcessMessage(ProcessId),
    // On the preferences of a request context.
    CreateDictionary,
    SetDictionaryString { key: S, value: S },
    CreateValue,
    SetValueString(S),
    SetValueDictionary,
    CanSetPreference(S),
    SetPreference(S),
}

/// A call on the CEF objects of a browser.
pub type CefCall = CallOf<String>;

impl View for CallOf<String> {
    type V = CallOf<Seq<char>>;

    open spec fn view(&self) -> CallOf<Seq<char>> {
        match self {
            CallOf::CanGoBack => CallOf::CanGoBack,
            CallOf::CanGoForward => CallOf::CanGoForward,
            CallOf::GoBack => CallOf::GoBack,
            CallOf::GoForward => CallOf::GoForward,
            CallOf::Reload => CallOf::Reload,
            CallOf::ReloadIgnoreCache => CallOf::ReloadIgnoreCache,
            CallOf::StopLoad => CallOf::StopLoad,
            CallOf::Host => CallOf::Host,
            CallOf::MainFrame => CallOf::MainFrame,
            CallOf::NotifyMoveOrResizeStarted => CallOf::NotifyMoveOrResizeStarted,
            CallOf::WasResized => CallOf::WasResized,
            CallOf::WasHidden(hidden) => CallOf::WasHidden(*hidden),
            CallOf::CloseBrowser(force) => CallOf::CloseBrowser(*force),
            CallOf::Print => CallOf::Print,
            CallOf::SetZoomLevel(bits) => CallOf::SetZoomLevel(*bits),
            CallOf::SetFocus(focus) => CallOf::SetFocus(*focus),
            CallOf::ShowDevTools => CallOf::ShowDevTools,
            CallOf::CloseDevTools => CallOf::CloseDevTools,
            CallOf::HasDevTools => CallOf::HasDevTools,
            CallOf::LoadUrl(url) => CallOf::LoadUrl(url@),
            CallOf::ExecuteJavaScript { code, script_url, start_line } => {
                CallOf::ExecuteJavaScript {
                    code: code@,
                    script_url: script_url@,
                    start_line: *start_line,
                }
            },
            CallOf::CreateProcessMessage(name) => CallOf::CreateProcessMessage(name@),
            CallOf::ArgumentList => CallOf::ArgumentList,
            CallOf::SetArgumentCount(count) => CallOf::SetArgumentCount(*count),
            CallOf::SetStringArgument(index, value) => CallOf::SetStringArgument(*index, value@),
            CallOf::SetBoolArgument(index, value) => CallOf::SetBoolArgument(*index, *value),
            CallOf::SendProcessMessage(target) => CallOf::SendProcessMessage(*target),
            CallOf::CreateDictionary => CallOf::CreateDictionary,
            CallOf::SetDictionaryString { key, value } => CallOf::SetDictionaryString {
                key: key@,
                value: value@,
            },
            CallOf::CreateValue => CallOf::CreateValue,
            CallOf::SetValueString(value) => CallOf::SetValueString(value@),
            CallOf::SetValueDictionary => CallOf::SetValueDictionary,
            CallOf::CanSetPreference(name) => CallOf::CanSetPreference(name@),
            CallOf::SetPreference(name) => CallOf::SetPreference(name@),
        }
    }
}

/// What happens when CEF answers a call with zero.
#[derive(Debug, Clone, Copy, PartialEq, Eq, Structural)]
pub enum OnFailure {
    /// The answer is of no interest.
    Continue,
    /// No further call is made, and the sequence has this outcome.
    Stop(bool),
}

/// A call of a sequence.
#[derive(Debug, Clone)]
pub struct Step {
    pub call: CefCall,
    pub on_failure: OnFailure,
}

/// A call of a sequence, with its text as characters.
pub struct StepModel {
    pub call: CallOf<Seq<char>>,
    pub on_failure: OnFailure,
}

impl View for Step {
    type V = StepModel;

    open spec fn view(&self) -> StepModel {
        StepModel { call: self.call@, on_failure: self.on_failure }
    }
}

impl StepModel {
    /// The answer ends the sequence.
    pub open spec fn stops_on(self, answer: i32) -> bool {
        answer == 0 && self.on_failure is Stop
    }
}

/// A step whose answer is of no interest.
pub open spec fn always(call: CallOf<Seq<char>>) -> StepModel {
    StepModel { call, on_failure: OnFailure::Continue }
}

/// A step that ends the sequence without success if CEF answers zero.
pub open spec fn required(call: CallOf<Seq<char>>) -> StepModel {
    StepModel { call, on_failure: OnFailure::Stop(false) }
}

impl Step {
    /// A step whose answer is of no interest.
    pub fn always(call: CefCall) -> (step: Step)
        ensures
            step@ == always(call@),
    {
        Step { call, on_failure: OnFailure::Continue }
    }

    /// A step that ends the sequence without success if CEF answers zero.
    pub fn required(call: CefCall) -> (step: Step)
        ensures
            step@ == required(call@),
    {
        Step { call, on_failure: OnFailure::Stop(false) }
    }
}

/// Where a sequence of calls stands.
#[verifier::ext_equal]
pub struct SequenceState {
    /// The steps that were not made yet.
    pub remaining: Seq<StepModel>,
    /// The outcome, once there is one.
    pub outcome: Option<bool>,
}

impl SequenceState {
    /// A sequence that is about to make `steps`. With none to make it has already
    /// succeeded.
    pub open spec fn of(steps: Seq<StepModel>) -> SequenceState {
        SequenceState {
            remaining: steps,
            outcome: if steps.len() == 0 {
                Some(true)
            } else {
                None
            },
        }
    }

    /// A sequence that ends before its first call.
    pub open spec fn ended(outcome: bool) -> SequenceState {
        SequenceState { remaining: Seq::empty(), outcome: Some(outcome) }
    }

    /// The sequence after CEF answered the current call.
    pub open spec fn after(self, answer: i32) -> SequenceState
        recommends
            self.remaining.len() > 0,
    {
        let step = self.remaining[0];
        if step.stops_on(answer) {
            SequenceState::ended(step.on_failure->Stop_0)
        } else {
            SequenceState::of(self.remaining.drop_first())
        }
    }
}

/// A sequence of calls into CEF that is being made.
#[derive(Debug)]
pub struct CallSequence {
    steps: Vec<Step>,
    next: usize,
    stopped: Option<bool>,
}

impl View for CallSequence {
    type V = SequenceState;

    closed spec fn view(&self) -> SequenceState {
        match self.stopped {
            Some(outcome) => SequenceState::ended(outcome),
            None => SequenceState::of(
                self.steps@.skip(self.next as int).map_values(|step: Step| step@),
            ),
        }
    }
}

impl CallSequence {
    #[verifier::type_invariant]
    spec fn well_formed(self) -> bool {
        self.next <= self.steps@.len()
    }

    /// A sequence that makes `steps`.
    pub fn of(steps: Vec<Step>) -> (sequence: CallSequence)
        ensures
            sequence@ == SequenceState::of(steps@.map_values(|step: Step| step@)),
    {
        assert(steps@.skip(0) == steps@);
        CallSequence { steps, next: 0, stopped: None }
    }

    /// A sequence that ends before its first call.
    pub fn ended(outcome: bool) -> (sequence: CallSequence)
        ensures
            sequence@ == SequenceState::ended(outcome),
    {
        CallSequence { steps: Vec::new(), next: 0, stopped: Some(outcome) }
    }

    /// The call that is to be made now. There is one until the sequence has an
    /// outcome.
    pub fn current(&self) -> (call: Option<&CefCall>)
        ensures
            call is None <==> self@.outcome is Some,
            call matches Some(call) ==> self@.remaining.len() > 0 && call@
                == self@.remaining[0].call,
    {
        proof {
            use_type_invariant(self);
        }
        if self.stopped.is_some() {
            None
        } else if self.next < self.steps.len() {
            Some(&self.steps[self.next].call)
        } else {
            None
        }
    }

    /// Reports what CEF answered to the current call.
    pub fn report(&mut self, answer: i32)
        requires
            old(self)@.outcome is None,
        ensures
            final(self)@ == old(self)@.after(answer),
    {
        proof {
            use_type_invariant(&*self);
        }
        let ghost rest = self.steps@.skip(self.next as int);
        assert(rest.map_values(|step: Step| step@).drop_first() =~= self.steps@.skip(
            self.next + 1,
        ).map_values(|step: Step| step@));
        assert(self.next < self.steps.len());
        let on_failure = self.steps[self.next].on_failure;
        match on_failure {
            OnFailure::Stop(outcome) if answer == 0 => {
                self.stopped = Some(outcome);
            },
            _ => {
                self.next = self.next + 1;
            },
        }
    }

    /// Whether the sequence succeeded, once it has ended.
    pub fn outcome(&self) -> (outcome: Option<bool>)
        ensures
            outcome == self@.outcome,
    {
        proof {
            use_type_invariant(self);
        }
        if self.stopped.is_some() {
            self.stopped
        } else if self.next < self.steps.len() {
            None
        } else {
            Some(true)
        }
    }
}

/// The calls that CEF receives from `steps` when it gives `answers` in turn, and
/// the outcome. `answers` holds an answer for each step that is made.
pub open spec fn run(steps: Seq<StepModel>, answers: Seq<i32>) -> (Seq<CallOf<Seq<char>>>, bool)
    decreases steps.len(),
{
    if steps.len() == 0 {
        (Seq::empty(), true)
    } else if steps[0].stops_on(answers[0]) {
        (seq![steps[0].call], steps[0].on_failure->Stop_0)
    } else {
        let rest = run(steps.drop_first(), answers.drop_first());
        (seq![steps[0].call] + rest.0, rest.1)
    }
}

/// The calls that CEF receives from a sequence when it gives `answers` in turn, until the
/// sequence has an outcome or the answers run out, and where the sequence stands then.
pub open spec fn reported(state: SequenceState, answers: Seq<i32>) -> (
    Seq<CallOf<Seq<char>>>,
    SequenceState,
)
    decreases answers.len(),
{
    if state.outcome is Some || answers.len() == 0 {
        (Seq::empty(), state)
    } else {
        let rest = reported(state.after(answers[0]), answers.drop_first());
        (seq![state.remaining[0].call] + rest.0, rest.1)
    }
}

/// Making the calls of a sequence one by one, and reporting each answer before the next
/// call is made, makes the calls of `run` and ends with its outcome. `answers` holds an
/// answer for each call that is made.
pub proof fn lemma_reports_make_the_run(steps: Seq<StepModel>, answers: Seq<i32>)
    requires
        answers.len() >= run(steps, answers).0.len(),
    ensures
        reported(SequenceState::of(steps), answers).0 == run(steps, answers).0,
        reported(SequenceState::of(steps), answers).1.outcome == Some(run(steps, answers).1),
    decreases steps.len(),
{
    if steps.len() > 0 {
        let next = SequenceState::of(steps).after(answers[0]);
        if steps[0].stops_on(answers[0]) {
            assert(reported(next, answers.drop_first()).0 =~= Seq::empty());
        } else {
            lemma_reports_make_the_run(steps.drop_first(), answers.drop_first());
        }
    }
}

/// CEF receives the calls of a sequence in order and without gaps.
pub proof fn lemma_calls_are_made_in_order(steps: Seq<StepModel>, answers: Seq<i32>)
    ensures
        run(steps, answers).0.len() <= steps.len(),
        forall|i: int| 0 <= i < run(steps, answers).0.len() ==> #[trigger] run(steps, answers).0[i]
            == steps[i].call,
    decreases steps.len(),
{
    if steps.len() > 0 && !steps[0].stops_on(answers[0]) {
        let rest = run(steps.drop_first(), answers.drop_first());
        lemma_calls_are_made_in_order(steps.drop_first(), answers.drop_first());
        assert forall|i: int| 0 <= i < run(steps, answers).0.len() implies #[trigger] run(
            steps,
            answers,
        ).0[i] == steps[i].call by {
            if i > 0 {
                assert(run(steps, answers).0[i] == rest.0[i - 1]);
                assert(steps.drop_first()[i - 1] == steps[i]);
            }
        }
    }
}

/// If CEF answers no call with zero, every call of a sequence is made and the
/// sequence succeeds.
pub proof fn lemma_answered_calls_succeed(steps: Seq<StepModel>, answers: Seq<i32>)
    requires
        answers.len() >= steps.len(),
        forall|i: int| 0 <= i < steps.len() ==> #[trigger] answers[i] != 0,
    ensures
        run(steps, answers).1,
        run(steps, answers).0 =~= steps.map_values(|step: StepModel| step.call),
    decreases steps.len(),
{
    if steps.len() > 0 {
        assert forall|i: int| 0 <= i < steps.drop_first().len() implies
            #[trigger] answers.drop_first()[i] != 0 by {
            assert(answers.drop_first()[i] == answers[i + 1]);
        }
        lemma_answered_calls_succeed(steps.drop_first(), answers.drop_first());
    }
}

/// The first failed requirement is the last call that CEF receives, and it decides
/// the outcome.
pub proof fn lemma_failed_requirement_stops(
    steps: Seq<StepModel>,
    answers: Seq<i32>,
    failed: int,
)
    requires
        0 <= failed < steps.len(),
        failed < answers.len(),
        steps[failed].stops_on(answers[failed]),
        forall|i: int| 0 <= i < failed ==> !(#[trigger] steps[i]).stops_on(answers[i]),
    ensures
        run(steps, answers).0.len() == failed + 1,
        run(steps, answers).1 == steps[failed].on_failure->Stop_0,
    decreases failed,
{
    if failed > 0 {
        assert(!steps[0].stops_on(answers[0]));
        assert forall|i: int| 0 <= i < failed - 1 implies !(
        #[trigger] steps.drop_first()[i]).stops_on(answers.drop_first()[i]) by {
            assert(steps.drop_first()[i] == steps[i + 1]);
            assert(answers.drop_first()[i] == answers[i + 1]);
        }
        assert(steps.drop_first()[failed - 1] == steps[failed]);
        assert(answers.drop_first()[failed - 1] == answers[failed]);
        lemma_failed_requirement_stops(steps.drop_first(), answers.drop_first(), failed - 1);
    }
}

/// A call that CEF answers with anything but zero is done with, and the next one is to be
/// made; so it is after zero, unless the sequence stops there, and then it has the outcome that
/// the call names. After the last call it has succeeded.
pub proof fn lemma_answers_move_a_sequence_on(answer: i32)
    ensures
        forall|sequence: &mut CallSequence|
            (*sequence)@.outcome is None && (*sequence)@.remaining.len() > 0
                && #[trigger] call_ensures(CallSequence::report, (sequence, answer), ()) ==> {
                let before = (*sequence)@;
                let after = (*final(sequence))@;
                let stops = before.remaining[0].on_failure;
                &&& answer == 0 && stops is Stop ==> {
                    &&& after.outcome == Some(stops->Stop_0)
                    &&& after.remaining.len() == 0
                }
                &&& answer != 0 || stops is Continue ==> {
                    &&& after.remaining == before.remaining.skip(1)
                    &&& before.remaining.len() == 1 <==> after.outcome == Some(true)
                    &&& before.remaining.len() > 1 <==> after.outcome is None
                }
            },
{
    assert forall|sequence: &mut CallSequence|
        (*sequence)@.outcome is None && (*sequence)@.remaining.len() > 0
            && #[trigger] call_ensures(CallSequence::report, (sequence, answer), ())
        implies (*sequence)@.remaining.drop_first() == (*sequence)@.remaining.skip(1) by {
        assert((*sequence)@.remaining.drop_first() =~= (*sequence)@.remaining.skip(1));
    }
}

/// A sequence of steps begins with its first step and has no outcome before the last one was
/// made; one without steps has succeeded, and one that ended has its outcome and no steps.
pub proof fn lemma_sequences_begin(
    steps: Vec<Step>,
    sequence: CallSequence,
    outcome: bool,
    ended: CallSequence,
    i: int,
)
    requires
        call_ensures(CallSequence::of, (steps,), sequence),
        call_ensures(CallSequence::ended, (outcome,), ended),
    ensures
        sequence@.remaining.len() == steps@.len(),
        steps@.len() == 0 <==> sequence@.outcome == Some(true),
        steps@.len() > 0 <==> sequence@.outcome is None,
        0 <= i < steps@.len() ==> sequence@.remaining[i].call == steps@[i].call@
            && sequence@.remaining[i].on_failure == steps@[i].on_failure,
        ended@.remaining.len() == 0,
        ended@.outcome == Some(outcome),
{
}

/// The call that is to be made is the first of those that remain, and there is one exactly
/// until there is an outcome.
pub proof fn lemma_current_call_is_the_first(
    sequence: &CallSequence,
    call: Option<&CefCall>,
    outcome: Option<bool>,
)
    requires
        call_ensures(CallSequence::current, (sequence,), call),
        call_ensures(CallSequence::outcome, (sequence,), outcome),
    ensures
        call is Some <==> outcome is None,
        call matches Some(call) ==> call@ == sequence@.remaining[0].call,
        outcome == sequence@.outcome,
{
}

} // verus!
