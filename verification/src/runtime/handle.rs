//! The runtime, and what the application asks of it.

use crate::runtime::context;
use crate::runtime::context::{
    send_and_forget, send_user_message, Caller, Context, ContextModel, DetachedWebview,
    DetachedWindow, NextIds,
};
use crate::runtime::conversions::{ActivationPolicy, DeviceEventFilter, Error, Theme};
use crate::runtime::loop_events::LoopEvent;
use crate::runtime::messages;
use crate::runtime::messages::{
    ApplicationMessage, DataStoreId, Effect, EffectModel, EventLoopWindowTargetMessage, Message,
    ReplyId, TaskId,
};
use crate::runtime::platform::BuildOptions;
use crate::runtime::store::{TaoWindowId, WindowId};
use crate::tao::ControlFlow;
use vstd::prelude::*;

verus! {

/// A plugin of the event loop, by the number it was registered under.
pub type PluginId = u64;

/// Sends events of the application to the event loop.
#[derive(Debug, Clone, Copy, PartialEq, Eq, Structural)]
pub struct EventProxy;

impl EventProxy {
    /// Sends an event of the application to the event loop.
    pub fn send_event<T>(&self, context: &mut Context<T>, event: T) -> (result: Result<(), Error>)
        ensures
            final(context)@ == context::posted(old(context)@, Message::UserEvent(event)),
            result is Ok <==> !old(context)@.closed,
            result matches Err(error) ==> error == Error::EventLoopClosed,
    {
        match context.proxy.send_event(Message::UserEvent(event)) {
            Ok(()) => Ok(()),
            Err(_) => Err(Error::EventLoopClosed),
        }
    }
}

/// A handle to the runtime.
#[derive(Debug)]
pub struct WryHandle<T> {
    pub context: Context<T>,
    /// The plugins, in the order in which they get events.
    pub plugins: Vec<PluginId>,
}

impl<T> WryHandle<T> {
    /// Asks the event loop for a window that `task` describes, without webviews, and gives
    /// its identifier.
    pub fn create_tao_window(&mut self, caller: Caller, task: TaskId, reply: ReplyId) -> (result:
        Result<(WindowId, Vec<Effect>), Error>)
        ensures
            final(self).plugins == old(self).plugins,
            ({
                let id = old(self).context@.next_ids.window;
                let drawn = ContextModel {
                    next_ids: NextIds {
                        window: context::successor(id),
                        ..old(self).context@.next_ids
                    },
                    ..old(self).context@
                };
                let message = Message::CreateRawWindow(id, task, reply);
                let sent = context::dispatched(drawn, caller, message);
                &&& final(self).context@ == sent.0
                &&& match result {
                    Ok((window_id, effects)) => {
                        &&& window_id == id
                        &&& sent.1 == Ok::<Seq<EffectModel>, Error>(messages::models(effects@))
                    },
                    Err(error) => sent.1 == Err::<Seq<EffectModel>, Error>(error),
                }
            }),
    {
        let id: WindowId = self.context.next_window_id();
        let message: Message<T> = Message::CreateRawWindow(id, task, reply);
        match send_user_message(&mut self.context, caller, message) {
            Ok(effects) => Ok((id, effects)),
            Err(error) => Err(error),
        }
    }

    /// The identifier of a window that the runtime knows.
    pub fn window_id(&self, window: TaoWindowId) -> (id: WindowId)
        requires
            self.context@.ids.contains_key(window),
        ensures
            id == self.context@.ids[window],
    {
        match self.context.window_id_map.get(&window) {
            Some(id) => id,
            None => {
                assert(false);
                0
            },
        }
    }

    /// Sends a message to the event loop, whatever the thread.
    pub fn send_event(&mut self, message: Message<T>) -> (result: Result<(), Error>)
        ensures
            final(self).plugins == old(self).plugins,
            final(self).context@ == context::posted(old(self).context@, message),
            result is Ok <==> !old(self).context@.closed,
            result matches Err(error) ==> error == Error::FailedToSendMessage,
    {
        match self.context.post(message) {
            Ok(_) => Ok(()),
            Err(error) => Err(error),
        }
    }

    /// Adds a plugin. It gets events after those that were added before.
    pub fn plugin(&mut self, plugin: PluginId)
        ensures
            final(self).context == old(self).context,
            final(self).plugins@ == old(self).plugins@.push(plugin),
    {
        self.plugins.push(plugin);
    }

    /// A sender of events of the application.
    pub fn create_proxy(&self) -> (proxy: EventProxy)
        ensures
            proxy == EventProxy,
    {
        EventProxy
    }

    /// Asks the event loop to end. The event loop does it, whatever the thread: the callback
    /// of the application has a say.
    pub fn request_exit(&mut self, code: i32) -> (result: Result<Vec<Effect>, Error>)
        ensures
            final(self).plugins == old(self).plugins,
            final(self).context@ == context::posted(
                old(self).context@,
                Message::RequestExit(code),
            ),
            context::outcome(result) == context::post_result(old(self).context@),
    {
        self.context.post(Message::RequestExit(code))
    }

    /// Asks the event loop for a window.
    pub fn create_window(
        &mut self,
        caller: Caller,
        label: String,
        webview: Option<bool>,
        task: TaskId,
    ) -> (result: Result<(DetachedWindow, Vec<Effect>), Error>)
        ensures
            final(self).plugins == old(self).plugins,
            context::window_asked_for(
                old(self).context@,
                caller,
                label@,
                webview,
                task,
                final(self).context@,
                result,
            ),
    {
        self.context.create_window(caller, label, webview, task)
    }

    /// Asks the event loop for a webview in a window.
    pub fn create_webview(
        &mut self,
        caller: Caller,
        window_id: WindowId,
        label: String,
        task: TaskId,
    ) -> (result: Result<(DetachedWebview, Vec<Effect>), Error>)
        ensures
            final(self).plugins == old(self).plugins,
            context::webview_asked_for(
                old(self).context@,
                caller,
                window_id,
                label,
                task,
                final(self).context@,
                result,
            ),
    {
        self.context.create_webview(caller, window_id, label, task)
    }

    /// Runs work of the application on the main thread.
    pub fn run_on_main_thread(
        &mut self,
        caller: Caller,
        task: TaskId,
    ) -> (result: Result<Vec<Effect>, Error>)
        ensures
            final(self).plugins == old(self).plugins,
            (final(self).context@, context::outcome(result)) == context::dispatched(
                old(self).context@,
                caller,
                Message::Task(task),
            ),
    {
        send_user_message(
            &mut self.context,
            caller,
            Message::Task(task),
        )
    }

    /// Says how the application shows itself on macOS.
    pub fn set_activation_policy(
        &mut self,
        caller: Caller,
        policy: ActivationPolicy,
    ) -> (result: Result<Vec<Effect>, Error>)
        ensures
            final(self).plugins == old(self).plugins,
            (final(self).context@, context::outcome(result)) == context::dispatched(
                old(self).context@,
                caller,
                Message::SetActivationPolicy(policy),
            ),
    {
        send_user_message(
            &mut self.context,
            caller,
            Message::SetActivationPolicy(policy),
        )
    }

    /// Shows the application in the dock of macOS or not.
    pub fn set_dock_visibility(
        &mut self,
        caller: Caller,
        visible: bool,
    ) -> (result: Result<Vec<Effect>, Error>)
        ensures
            final(self).plugins == old(self).plugins,
            (final(self).context@, context::outcome(result)) == context::dispatched(
                old(self).context@,
                caller,
                Message::SetDockVisibility(visible),
            ),
    {
        send_user_message(
            &mut self.context,
            caller,
            Message::SetDockVisibility(visible),
        )
    }

    /// Shows the windows of the application on macOS.
    pub fn show_application(&mut self, caller: Caller) -> (result: Result<Vec<Effect>, Error>)
        ensures
            final(self).plugins == old(self).plugins,
            (final(self).context@, context::outcome(result)) == context::dispatched(
                old(self).context@,
                caller,
                Message::Application(ApplicationMessage::Show),
            ),
    {
        send_user_message(
            &mut self.context,
            caller,
            Message::Application(ApplicationMessage::Show),
        )
    }

    /// Hides the windows of the application on macOS.
    pub fn hide_application(&mut self, caller: Caller) -> (result: Result<Vec<Effect>, Error>)
        ensures
            final(self).plugins == old(self).plugins,
            (final(self).context@, context::outcome(result)) == context::dispatched(
                old(self).context@,
                caller,
                Message::Application(ApplicationMessage::Hide),
            ),
    {
        send_user_message(
            &mut self.context,
            caller,
            Message::Application(ApplicationMessage::Hide),
        )
    }

    /// Finds the stores of browsing data on Apple systems.
    pub fn fetch_data_store_identifiers(
        &mut self,
        caller: Caller,
        task: TaskId,
    ) -> (result: Result<Vec<Effect>, Error>)
        ensures
            final(self).plugins == old(self).plugins,
            (final(self).context@, context::outcome(result)) == context::dispatched(
                old(self).context@,
                caller,
                Message::Application(ApplicationMessage::FetchDataStoreIdentifiers(task)),
            ),
    {
        send_user_message(
            &mut self.context,
            caller,
            Message::Application(ApplicationMessage::FetchDataStoreIdentifiers(task)),
        )
    }

    /// Removes a store of browsing data on Apple systems.
    pub fn remove_data_store(
        &mut self,
        caller: Caller,
        store: DataStoreId,
        task: TaskId,
    ) -> (result: Result<Vec<Effect>, Error>)
        ensures
            final(self).plugins == old(self).plugins,
            (final(self).context@, context::outcome(result)) == context::dispatched(
                old(self).context@,
                caller,
                Message::Application(ApplicationMessage::RemoveDataStore(store, task)),
            ),
    {
        send_user_message(
            &mut self.context,
            caller,
            Message::Application(ApplicationMessage::RemoveDataStore(store, task)),
        )
    }

    /// Asks where the cursor is.
    pub fn cursor_position(
        &mut self,
        caller: Caller,
        reply: ReplyId,
    ) -> (result: Result<Vec<Effect>, Error>)
        ensures
            final(self).plugins == old(self).plugins,
            (final(self).context@, context::outcome(result)) == context::dispatched(
                old(self).context@,
                caller,
                Message::EventLoopWindowTarget(
                    EventLoopWindowTargetMessage::CursorPosition(reply),
                ),
            ),
    {
        send_user_message(
            &mut self.context,
            caller,
            Message::EventLoopWindowTarget(EventLoopWindowTargetMessage::CursorPosition(reply)),
        )
    }

    /// Gives the application a color scheme.
    pub fn set_theme(&mut self, caller: Caller, theme: Option<Theme>) -> (effects: Vec<Effect>)
        ensures
            final(self).plugins == old(self).plugins,
            ({
                let message = Message::EventLoopWindowTarget(
                    EventLoopWindowTargetMessage::SetTheme(theme),
                );
                let sent = context::dispatched(old(self).context@, caller, message);
                &&& final(self).context@ == sent.0
                &&& messages::models(effects@) == match sent.1 {
                    Ok(effects) => effects,
                    Err(_) => Seq::empty(),
                }
            }),
    {
        send_and_forget(
            &mut self.context,
            caller,
            Message::EventLoopWindowTarget(EventLoopWindowTargetMessage::SetTheme(theme)),
        )
    }

    /// Says when events of devices are reported.
    pub fn set_device_event_filter(&mut self, caller: Caller, filter: DeviceEventFilter) -> (effects:
        Vec<Effect>)
        ensures
            final(self).plugins == old(self).plugins,
            ({
                let message = Message::EventLoopWindowTarget(
                    EventLoopWindowTargetMessage::SetDeviceEventFilter(filter),
                );
                let sent = context::dispatched(old(self).context@, caller, message);
                &&& final(self).context@ == sent.0
                &&& messages::models(effects@) == match sent.1 {
                    Ok(effects) => effects,
                    Err(_) => Seq::empty(),
                }
            }),
    {
        send_and_forget(
            &mut self.context,
            caller,
            Message::EventLoopWindowTarget(
                EventLoopWindowTargetMessage::SetDeviceEventFilter(filter),
            ),
        )
    }
}

/// The runtime.
#[derive(Debug)]
pub struct Wry<T> {
    handle: WryHandle<T>,
}

impl<T> View for Wry<T> {
    type V = WryHandle<T>;

    closed spec fn view(&self) -> WryHandle<T> {
        self.handle
    }
}

impl<T> Wry<T> {
    /// A runtime whose event loop begins on a thread.
    pub fn init(options: BuildOptions, main_thread_id: u64) -> (runtime: Self)
        ensures
            runtime@.plugins@ == Seq::<PluginId>::empty(),
            runtime@.context@ == (ContextModel::<T> {
                options,
                ids: Map::empty(),
                main_thread_id,
                closed: false,
                sent: Seq::empty(),
                windows: Map::empty(),
                browsers: Seq::empty(),
                spans: Seq::empty(),
                next_ids: NextIds { window: 0, webview: 0, window_event: 0, webview_event: 0 },
                cells: Seq::empty(),
                webview_runtime_installed: true,
            }),
    {
        Wry {
            handle: WryHandle {
                context: Context::new(options, main_thread_id),
                plugins: Vec::new(),
            },
        }
    }

    /// A handle to the runtime.
    pub fn handle(self) -> (handle: WryHandle<T>)
        ensures
            handle == self@,
    {
        self.handle
    }
}

/// How the event loop waits before an event is handled, where it runs only until no more
/// events are pending.
pub fn iteration_flow<T>(event: &LoopEvent<T>) -> (flow: ControlFlow)
    ensures
        flow == if *event is MainEventsCleared {
            ControlFlow::ExitWithCode(0)
        } else {
            ControlFlow::Wait
        },
{
    match event {
        LoopEvent::MainEventsCleared => ControlFlow::ExitWithCode(0),
        _ => ControlFlow::Wait,
    }
}

/// The plugins get an event one after the other, until one keeps it to itself.
#[derive(Debug)]
pub struct PluginRound {
    plugins: Vec<PluginId>,
    asked: usize,
    prevented: bool,
}

/// The plugins that have not got an event yet, and whether one kept it to itself.
#[verifier::ext_equal]
pub struct PluginRoundModel {
    pub remaining: Seq<PluginId>,
    pub prevented: bool,
}

impl View for PluginRound {
    type V = PluginRoundModel;

    closed spec fn view(&self) -> PluginRoundModel {
        PluginRoundModel {
            remaining: self.plugins@.skip(self.asked as int),
            prevented: self.prevented,
        }
    }
}

impl PluginRoundModel {
    /// The plugin that gets the event next.
    pub open spec fn next(self) -> Option<PluginId> {
        if !self.prevented && self.remaining.len() > 0 {
            Some(self.remaining[0])
        } else {
            None
        }
    }

    /// The round after a plugin got the event.
    pub open spec fn after(self, prevents: bool) -> Self {
        PluginRoundModel { remaining: self.remaining.drop_first(), prevented: prevents }
    }
}

impl PluginRound {
    #[verifier::type_invariant]
    spec fn well_formed(self) -> bool {
        self.asked <= self.plugins@.len()
    }

    /// Begins a round.
    pub fn new(plugins: &Vec<PluginId>) -> (round: Self)
        ensures
            round@ == (PluginRoundModel { remaining: plugins@, prevented: false }),
    {
        let round = PluginRound { plugins: plugins.clone(), asked: 0, prevented: false };
        assert(round.plugins@ =~= plugins@);
        assert(round@.remaining =~= plugins@);
        round
    }

    /// The plugin that gets the event next.
    pub fn next(&self) -> (plugin: Option<PluginId>)
        ensures
            plugin == self@.next(),
    {
        proof {
            use_type_invariant(self);
        }
        if !self.prevented && self.asked < self.plugins.len() {
            Some(self.plugins[self.asked])
        } else {
            None
        }
    }

    /// Takes the answer of the plugin that got the event: whether it keeps it to itself.
    pub fn answered(self, prevents: bool) -> (round: Self)
        requires
            self@.next() is Some,
        ensures
            round@ == self@.after(prevents),
    {
        proof {
            use_type_invariant(&self);
        }
        let ghost before = self@;
        assert(self.asked < self.plugins.len());
        let round = PluginRound {
            plugins: self.plugins,
            asked: self.asked + 1,
            prevented: prevents,
        };
        assert(round@.remaining =~= before.remaining.drop_first());
        round
    }

    /// Whether the event loop gets the event: no plugin keeps it to itself.
    pub fn passes(&self) -> (passes: bool)
        ensures
            passes == !self@.prevented,
    {
        !self.prevented
    }
}

/// A round after some of its plugins answered.
pub open spec fn round_after(plugins: Seq<PluginId>, answers: Seq<bool>) -> PluginRoundModel
    decreases answers.len(),
{
    if answers.len() == 0 {
        PluginRoundModel { remaining: plugins, prevented: false }
    } else {
        round_after(plugins, answers.drop_last()).after(answers.last())
    }
}

/// A plugin gets an event exactly if every plugin before it let it pass, and the event loop
/// if all of them did.
pub proof fn lemma_plugins_go_first(plugins: Seq<PluginId>, answers: Seq<bool>)
    requires
        answers.len() <= plugins.len(),
        forall|i: int| 0 <= i < answers.len() - 1 ==> !(#[trigger] answers[i]),
    ensures
        round_after(plugins, answers).remaining == plugins.skip(answers.len() as int),
        round_after(plugins, answers).prevented == (answers.len() > 0 && answers.last()),
        answers.len() < plugins.len() && (answers.len() == 0 || !answers.last())
            ==> round_after(plugins, answers).next() == Some(plugins[answers.len() as int]),
        answers.len() == plugins.len() || (answers.len() > 0 && answers.last()) ==> round_after(
            plugins,
            answers,
        ).next() is None,
    decreases answers.len(),
{
    if answers.len() == 0 {
        assert(plugins.skip(0) =~= plugins);
    } else {
        let before = answers.drop_last();
        assert forall|i: int| 0 <= i < before.len() - 1 implies !(#[trigger] before[i]) by {
            assert(before[i] == answers[i]);
        }
        lemma_plugins_go_first(plugins, before);
        assert(plugins.skip(before.len() as int).drop_first() =~= plugins.skip(
            answers.len() as int,
        ));
    }
}

/// A plugin gets an event after all before it let it pass. The first one that keeps it to itself
/// ends the round, and the event does not reach the event loop.
pub proof fn lemma_plugins_take_turns(
    plugins: &Vec<PluginId>,
    begun: PluginRound,
    round: PluginRound,
    next: Option<PluginId>,
    prevents: bool,
    after: PluginRound,
    next_after: Option<PluginId>,
    passes: bool,
)
    requires
        call_ensures(PluginRound::new, (plugins,), begun),
        call_ensures(PluginRound::next, (&round,), next),
        next is Some,
        call_ensures(PluginRound::answered, (round, prevents), after),
        call_ensures(PluginRound::next, (&after,), next_after),
        call_ensures(PluginRound::passes, (&after,), passes),
    ensures
        begun@.remaining == plugins@ && !begun@.prevented,
        next == Some(round@.remaining[0]),
        after@.remaining == round@.remaining.skip(1),
        prevents ==> next_after is None && !passes,
        !prevents ==> passes,
        !prevents && round@.remaining.len() > 1 ==> next_after == Some(round@.remaining[1]),
        !prevents && round@.remaining.len() == 1 ==> next_after is None,
{
    assert(round@.remaining.drop_first() =~= round@.remaining.skip(1));
}

/// A plugin is added behind the others. A window is known by the number it was noted under.
pub proof fn lemma_handle_keeps_what_it_is_given<T>(
    plugin: PluginId,
    handle: &WryHandle<T>,
    window: TaoWindowId,
    id: WindowId,
)
    requires
        handle.context@.ids.contains_key(window),
        call_ensures(WryHandle::<T>::window_id, (handle, window), id),
    ensures
        id == handle.context@.ids[window],
        forall|changed: &mut WryHandle<T>| #[trigger]
            call_ensures(WryHandle::<T>::plugin, (changed, plugin), ()) ==> {
                &&& (*final(changed)).plugins@ == (*changed).plugins@.push(plugin)
                &&& (*final(changed)).context == (*changed).context
            },
{
}

/// An event loop that runs only until nothing is pending ends with the batch, and waits
/// otherwise.
pub proof fn lemma_iterations_end_with_the_batch<T>(event: &LoopEvent<T>, flow: ControlFlow)
    requires
        call_ensures(iteration_flow::<T>, (event,), flow),
    ensures
        *event is MainEventsCleared <==> flow == ControlFlow::ExitWithCode(0),
        !(*event is MainEventsCleared) <==> flow == ControlFlow::Wait,
{
}

/// A runtime begins without plugins and without windows, on the thread that it is begun on.
pub proof fn lemma_runtimes_begin_empty<T>(
    options: BuildOptions,
    thread: u64,
    runtime: Wry<T>,
    handle: WryHandle<T>,
)
    requires
        call_ensures(Wry::<T>::init, (options, thread), runtime),
        call_ensures(Wry::<T>::handle, (runtime,), handle),
    ensures
        handle.plugins@.len() == 0,
        handle.context@.options == options,
        handle.context@.main_thread_id == thread,
        handle.context@.sent.len() == 0,
        !handle.context@.closed,
        forall|id: WindowId| !(#[trigger] handle.context@.windows.contains_key(id)),
{
}

} // verus!
