//! Start of the CEF processes.
//!
//! CEF runs the same program several times: once as the browser process and again
//! for each of its subprocesses. [`bootstrap`] decides, from what the command line
//! and CEF say, which of them this process is and what it does next. In a render
//! process, [`RendererInitScripts`] keeps the scripts that each browser runs in
//! new documents.

use crate::cef_calls;
use crate::cef_calls::{
    CallOf, CallSequence, OnFailure, ProcessId, SequenceState, Step, StepModel,
};
use crate::config;
use crate::config::{CefRuntimeConfig, Settings};
use std::collections::HashMap;
use vstd::prelude::*;

verus! {

broadcast use vstd::std_specs::hash::group_hash_axioms;

/// Why CEF could not be started.
#[derive(Debug, Clone, Copy, PartialEq, Eq, Structural)]
pub enum BootstrapError {
    InvalidCommandLine,
    SubprocessExecuteFailed,
    BrowserExecuteFailed,
    InitializeFailed,
}

/// The message of an error.
pub open spec fn message_of(error: BootstrapError) -> Seq<char> {
    match error {
        BootstrapError::InvalidCommandLine => "failed to parse command line arguments"@,
        BootstrapError::SubprocessExecuteFailed => "failed to execute subprocess"@,
        BootstrapError::BrowserExecuteFailed => "failed to execute browser process"@,
        BootstrapError::InitializeFailed => "cef initialize returned 0"@,
    }
}

impl BootstrapError {
    /// The message shown for this error.
    pub fn message(&self) -> (text: String)
        ensures
            text@ == message_of(*self),
    {
        match self {
            BootstrapError::InvalidCommandLine => {
                "failed to parse command line arguments".to_string()
            },
            BootstrapError::SubprocessExecuteFailed => "failed to execute subprocess".to_string(),
            BootstrapError::BrowserExecuteFailed => "failed to execute browser process".to_string(),
            BootstrapError::InitializeFailed => "cef initialize returned 0".to_string(),
        }
    }
}

/// What this process turned out to be.
#[derive(Debug, PartialEq, Eq, Structural)]
pub enum BootstrapOutcome {
    /// The browser process, with CEF initialized.
    Browser(InitializedCef),
    /// A subprocess that has done its work and leaves with this code.
    Subprocess(i32),
}

/// CEF between its initialization and its shutdown.
#[derive(Debug, PartialEq, Eq, Structural)]
pub struct InitializedCef {
    active: bool,
}

impl InitializedCef {
    /// CEF runs.
    pub closed spec fn is_active(self) -> bool {
        self.active
    }

    /// CEF right after its initialization.
    pub closed spec fn running() -> InitializedCef {
        InitializedCef { active: true }
    }

    /// Whether CEF is to be shut down now. It is, the first time.
    pub fn shutdown(&mut self) -> (shut_down: bool)
        ensures
            shut_down == old(self).is_active(),
            !final(self).is_active(),
    {
        let shut_down = self.active;
        self.active = false;
        shut_down
    }
}

/// What the application hands to CEF beside its configuration.
#[derive(Debug, Clone, Copy, PartialEq, Eq, Structural)]
pub struct BootstrapOptions {
    /// The address of the sandbox information, or zero.
    pub sandbox_info: usize,
}

impl Default for BootstrapOptions {
    fn default() -> (options: Self)
        ensures
            options.sandbox_info == 0,
    {
        BootstrapOptions { sandbox_info: 0 }
    }
}

/// What the whole process knows of the bootstrap.
#[derive(Debug, Clone, Copy, PartialEq, Eq, Structural)]
pub struct ProcessState {
    /// Windows are surfaces of Wayland, which browsers cannot be children of.
    pub on_wayland: bool,
    /// Render processes accept init scripts.
    pub renderer_init_scripts_available: bool,
    /// CEF schedules its work through the queue of the message pump.
    pub pump_queue_installed: bool,
}

/// The process once the bootstrap has begun.
///
/// The runtime's own CEF application knows init scripts and, if the configuration
/// asks for it, feeds the message pump. An application that brings its own does
/// neither.
pub open spec fn begun(
    on_wayland: bool,
    app_provided: bool,
    config: CefRuntimeConfig,
) -> ProcessState {
    ProcessState {
        on_wayland,
        renderer_init_scripts_available: !app_provided,
        pump_queue_installed: !app_provided && config.external_message_pump,
    }
}

/// The process after CEF could not be initialized.
pub open spec fn withdrawn(process: ProcessState) -> ProcessState {
    ProcessState {
        renderer_init_scripts_available: false,
        pump_queue_installed: false,
        ..process
    }
}

/// A bootstrap that waits for the command line.
#[derive(Debug)]
pub struct Bootstrap {
    pub app_provided: bool,
    pub config: CefRuntimeConfig,
    pub options: BootstrapOptions,
    pub on_wayland: bool,
}

/// Begins to start CEF. `app_provided` says whether the application brings its own
/// CEF application object; otherwise CEF gets that of the runtime.
pub fn bootstrap(
    app_provided: bool,
    config: CefRuntimeConfig,
    process: &mut ProcessState,
) -> (bootstrap: Bootstrap)
    ensures
        *final(process) == begun(old(process).on_wayland, app_provided, config),
        bootstrap == (Bootstrap {
            app_provided,
            config,
            options: BootstrapOptions { sandbox_info: 0 },
            on_wayland: old(process).on_wayland,
        }),
{
    bootstrap_with_options(app_provided, config, BootstrapOptions::default(), process)
}

/// Begins to start CEF, with options.
pub fn bootstrap_with_options(
    app_provided: bool,
    config: CefRuntimeConfig,
    options: BootstrapOptions,
    process: &mut ProcessState,
) -> (bootstrap: Bootstrap)
    ensures
        *final(process) == begun(old(process).on_wayland, app_provided, config),
        bootstrap == (Bootstrap {
            app_provided,
            config,
            options,
            on_wayland: old(process).on_wayland,
        }),
{
    process.renderer_init_scripts_available = false;
    if !app_provided {
        process.pump_queue_installed = config.external_message_pump;
        process.renderer_init_scripts_available = true;
    } else {
        process.pump_queue_installed = false;
    }
    Bootstrap { app_provided, config, options, on_wayland: process.on_wayland }
}

/// The command line marks this process as a subprocess of CEF.
pub open spec fn is_subprocess(type_switch: i32) -> bool {
    type_switch == 1
}

/// How a bootstrap goes on once the command line is known.
pub open spec fn after_command_line(bootstrap: Bootstrap, type_switch: Option<i32>) -> Result<
    ProcessExecution,
    BootstrapError,
> {
    match type_switch {
        None => Err(BootstrapError::InvalidCommandLine),
        Some(type_switch) => Ok(
            ProcessExecution {
                is_browser_process: !is_subprocess(type_switch),
                use_runtime_app: !bootstrap.app_provided,
                sandbox_info: bootstrap.options.sandbox_info,
                config: bootstrap.config,
                on_wayland: bootstrap.on_wayland,
            },
        ),
    }
}

impl Bootstrap {
    /// Goes on once the command line is known. `type_switch` is what CEF answers
    /// when asked for the switch `type`, or `None` if the command line could not be
    /// parsed.
    pub fn command_line_parsed(self, type_switch: Option<i32>) -> (result: Result<
        ProcessExecution,
        BootstrapError,
    >)
        ensures
            result == after_command_line(self, type_switch),
    {
        match type_switch {
            None => Err(BootstrapError::InvalidCommandLine),
            Some(type_switch) => Ok(
                ProcessExecution {
                    is_browser_process: type_switch != 1,
                    use_runtime_app: !self.app_provided,
                    sandbox_info: self.options.sandbox_info,
                    config: self.config,
                    on_wayland: self.on_wayland,
                },
            ),
        }
    }
}

/// A bootstrap in which CEF executes this process, with the arguments given here.
#[derive(Debug)]
pub struct ProcessExecution {
    pub is_browser_process: bool,
    pub use_runtime_app: bool,
    pub sandbox_info: usize,
    pub config: CefRuntimeConfig,
    pub on_wayland: bool,
}

/// What follows when CEF has executed this process.
#[derive(Debug)]
pub enum AfterExecution {
    Finished(Result<BootstrapOutcome, BootstrapError>),
    Initialize(Initialization),
}

/// How a bootstrap goes on once CEF has executed this process.
pub open spec fn after_execution(execution: ProcessExecution, ret: i32) -> AfterExecution {
    if !execution.is_browser_process {
        AfterExecution::Finished(
            if ret >= 0 {
                Ok(BootstrapOutcome::Subprocess(ret))
            } else {
                Err(BootstrapError::SubprocessExecuteFailed)
            },
        )
    } else if ret != -1 {
        AfterExecution::Finished(Err(BootstrapError::BrowserExecuteFailed))
    } else {
        AfterExecution::Initialize(
            Initialization {
                settings: Settings {
                    windowless_rendering_enabled: config::flag_value(execution.on_wayland),
                    ..config::settings_of(execution.config)
                },
                use_runtime_app: execution.use_runtime_app,
                sandbox_info: execution.sandbox_info,
            },
        )
    }
}

impl ProcessExecution {
    /// Goes on with what CEF answered. A subprocess is done, with a code that is
    /// not negative; the browser process is the one that CEF does not execute.
    pub fn executed(self, ret: i32) -> (next: AfterExecution)
        ensures
            next == after_execution(self, ret),
    {
        if !self.is_browser_process {
            if ret >= 0 {
                return AfterExecution::Finished(Ok(BootstrapOutcome::Subprocess(ret)));
            }
            return AfterExecution::Finished(Err(BootstrapError::SubprocessExecuteFailed));
        }
        if ret != -1 {
            return AfterExecution::Finished(Err(BootstrapError::BrowserExecuteFailed));
        }
        let mut settings = self.config.into_settings();
        settings.windowless_rendering_enabled = config::flag(self.on_wayland);
        AfterExecution::Initialize(
            Initialization {
                settings,
                use_runtime_app: self.use_runtime_app,
                sandbox_info: self.sandbox_info,
            },
        )
    }
}

/// A bootstrap in which CEF is being initialized, with the arguments given here.
#[derive(Debug)]
pub struct Initialization {
    pub settings: Settings,
    pub use_runtime_app: bool,
    pub sandbox_info: usize,
}

/// How a bootstrap ends once CEF has answered to its initialization, and in what
/// state it leaves the process.
pub open spec fn after_initialization(ret: i32, process: ProcessState) -> (
    Result<BootstrapOutcome, BootstrapError>,
    ProcessState,
) {
    if ret == 1 {
        (Ok(BootstrapOutcome::Browser(InitializedCef::running())), process)
    } else {
        (Err(BootstrapError::InitializeFailed), withdrawn(process))
    }
}

impl Initialization {
    /// Ends the bootstrap with what CEF answered.
    pub fn initialized(self, ret: i32, process: &mut ProcessState) -> (result: Result<
        BootstrapOutcome,
        BootstrapError,
    >)
        ensures
            (result, *final(process)) == after_initialization(ret, *old(process)),
    {
        if ret != 1 {
            process.pump_queue_installed = false;
            process.renderer_init_scripts_available = false;
            return Err(BootstrapError::InitializeFailed);
        }
        Ok(BootstrapOutcome::Browser(InitializedCef { active: true }))
    }
}

/// How a bootstrap ends, and in what state it leaves the process, when the command
/// line, the execution and the initialization answer as given. Later answers do not
/// count where an earlier one ends it.
pub open spec fn bootstrap_end(
    bootstrap: Bootstrap,
    type_switch: Option<i32>,
    executed: i32,
    initialized: i32,
) -> (Result<BootstrapOutcome, BootstrapError>, ProcessState) {
    let process = begun(bootstrap.on_wayland, bootstrap.app_provided, bootstrap.config);
    match after_command_line(bootstrap, type_switch) {
        Err(error) => (Err(error), process),
        Ok(execution) => match after_execution(execution, executed) {
            AfterExecution::Finished(result) => (result, process),
            AfterExecution::Initialize(_) => after_initialization(initialized, process),
        },
    }
}

/// CEF that was just initialized runs, and is shut down once.
pub proof fn lemma_running_is_active()
    ensures
        InitializedCef::running().is_active(),
{
}

/// CEF is initialized in the browser process only, and only if every answer asked
/// for it.
pub proof fn lemma_browser_needs_every_answer(
    bootstrap: Bootstrap,
    type_switch: Option<i32>,
    executed: i32,
    initialized: i32,
)
    ensures
        bootstrap_end(bootstrap, type_switch, executed, initialized).0 == Ok::<_, BootstrapError>(
            BootstrapOutcome::Browser(InitializedCef::running()),
        ) <==> {
            &&& type_switch is Some
            &&& !is_subprocess(type_switch->Some_0)
            &&& executed == -1
            &&& initialized == 1
        },
{
}

/// A process that runs CEF after a bootstrap accepts init scripts exactly if the
/// application brought no CEF application of its own, and then feeds the message
/// pump exactly if the configuration asks for it.
pub proof fn lemma_process_state_of_browser(
    bootstrap: Bootstrap,
    type_switch: Option<i32>,
    executed: i32,
    initialized: i32,
)
    requires
        bootstrap_end(bootstrap, type_switch, executed, initialized).0 matches Ok(
            BootstrapOutcome::Browser(_),
        ),
    ensures
        ({
            let process = bootstrap_end(bootstrap, type_switch, executed, initialized).1;
            &&& process.renderer_init_scripts_available == !bootstrap.app_provided
            &&& process.pump_queue_installed == (!bootstrap.app_provided
                && bootstrap.config.external_message_pump)
        }),
{
}

/// CEF is initialized so that browsers may render off screen exactly if this process has
/// windows of Wayland, and otherwise as the configuration says.
pub proof fn lemma_wayland_renders_off_screen(
    bootstrap: Bootstrap,
    type_switch: i32,
    executed: i32,
)
    requires
        !is_subprocess(type_switch),
        executed == -1,
    ensures
        after_execution(after_command_line(bootstrap, Some(type_switch))->Ok_0, executed) matches
            AfterExecution::Initialize(initialization) && {
            let settings = initialization.settings;
            &&& settings.windowless_rendering_enabled == 1 <==> bootstrap.on_wayland
            &&& settings.no_sandbox == config::flag_value(bootstrap.config.no_sandbox)
            &&& settings.external_message_pump == config::flag_value(
                bootstrap.config.external_message_pump,
            )
            &&& settings.cache_path == bootstrap.config.cache_path
            &&& settings.root_cache_path == bootstrap.config.root_cache_path
        },
{
}

/// A subprocess never initializes CEF: its execution alone decides how it ends.
pub proof fn lemma_subprocess_is_not_initialized(
    bootstrap: Bootstrap,
    type_switch: i32,
    executed: i32,
    initialized: i32,
)
    requires
        is_subprocess(type_switch),
    ensures
        bootstrap_end(bootstrap, Some(type_switch), executed, initialized).0 == if executed >= 0 {
            Ok(BootstrapOutcome::Subprocess(executed))
        } else {
            Err(BootstrapError::SubprocessExecuteFailed)
        },
{
}

/// A script that a browser runs in new documents.
#[derive(Debug, Clone)]
pub struct RendererInitScript {
    pub script: String,
    pub for_main_frame_only: bool,
}

/// A script that a browser runs in new documents, with its text as characters.
pub struct InitScriptModel {
    pub script: Seq<char>,
    pub for_main_frame_only: bool,
}

impl View for RendererInitScript {
    type V = InitScriptModel;

    open spec fn view(&self) -> InitScriptModel {
        InitScriptModel { script: self.script@, for_main_frame_only: self.for_main_frame_only }
    }
}

/// A message to a render process. The arguments are those of a message that adds a
/// script; a message may have none.
#[derive(Debug)]
pub struct RendererMessage {
    pub name: String,
    pub arguments: Option<AddScriptArguments>,
}

/// The arguments of a message that adds a script.
#[derive(Debug)]
pub struct AddScriptArguments {
    pub script: String,
    pub for_main_frame_only: i32,
}

/// Who handles a message to a render process.
#[derive(Debug, Clone, Copy, PartialEq, Eq, Structural)]
pub enum MessageRouting {
    /// The message is handled; this is the answer to CEF.
    Handled(i32),
    /// The message router is asked.
    AskRouter,
}

/// The name of the message that adds a script to a browser.
pub open spec fn add_message() -> Seq<char> {
    "__TAURI_ADD_INIT_SCRIPT__"@
}

/// The name of the message that removes the scripts of a browser.
pub open spec fn clear_message() -> Seq<char> {
    "__TAURI_CLEAR_INIT_SCRIPTS__"@
}

/// The name of a message, where there is one.
pub open spec fn name_of(message: Option<RendererMessage>) -> Seq<char> {
    match message {
        Some(message) => message.name@,
        None => Seq::empty(),
    }
}

/// The script that a message adds, if it adds one.
pub open spec fn added_script(message: Option<RendererMessage>) -> Option<InitScriptModel> {
    match message {
        Some(RendererMessage { arguments: Some(arguments), .. }) => if arguments.script@.len() == 0 {
            None
        } else {
            Some(
                InitScriptModel {
                    script: arguments.script@,
                    for_main_frame_only: arguments.for_main_frame_only != 0,
                },
            )
        },
        _ => None,
    }
}

/// The scripts of a browser.
pub open spec fn scripts_of(scripts: Map<i32, Seq<InitScriptModel>>, browser: i32) -> Seq<
    InitScriptModel,
> {
    if scripts.contains_key(browser) {
        scripts[browser]
    } else {
        Seq::empty()
    }
}

/// A message from the browser process that concerns init scripts.
pub open spec fn concerns_scripts(source_process: ProcessId, name: Seq<char>) -> bool {
    source_process == ProcessId::Browser && (name == add_message() || name == clear_message())
}

/// The scripts of all browsers after a message. No script is left after a message
/// that clears; a message that adds appends its script.
pub open spec fn scripts_after(
    scripts: Map<i32, Seq<InitScriptModel>>,
    browser: Option<i32>,
    source_process: ProcessId,
    message: Option<RendererMessage>,
) -> Map<i32, Seq<InitScriptModel>> {
    match browser {
        None => scripts,
        Some(browser) => if source_process != ProcessId::Browser {
            scripts
        } else if name_of(message) == clear_message() {
            scripts.remove(browser)
        } else if name_of(message) == add_message() {
            match added_script(message) {
                Some(script) => scripts.insert(browser, scripts_of(scripts, browser).push(script)),
                None => scripts,
            }
        } else {
            scripts
        },
    }
}

/// The script location that init scripts are reported under.
pub open spec fn document_start_url() -> Seq<char> {
    "tauri-runtime-cef://document-start"@
}

/// The calls that run `scripts` in a new document, in order. Scripts for main
/// frames run in these only.
pub open spec fn script_steps(scripts: Seq<InitScriptModel>, is_main_frame: bool) -> Seq<StepModel>
    decreases scripts.len(),
{
    if scripts.len() == 0 {
        Seq::empty()
    } else if scripts.last().for_main_frame_only && !is_main_frame {
        script_steps(scripts.drop_last(), is_main_frame)
    } else {
        script_steps(scripts.drop_last(), is_main_frame).push(
            cef_calls::always(
                CallOf::ExecuteJavaScript {
                    code: scripts.last().script,
                    script_url: document_start_url(),
                    start_line: 1,
                },
            ),
        )
    }
}

/// The init scripts of the browsers of a render process.
#[derive(Debug)]
pub struct RendererInitScripts {
    scripts: HashMap<i32, Vec<RendererInitScript>>,
}

impl View for RendererInitScripts {
    type V = Map<i32, Seq<InitScriptModel>>;

    closed spec fn view(&self) -> Map<i32, Seq<InitScriptModel>> {
        self.scripts@.map_values(
            |scripts: Vec<RendererInitScript>|
                scripts@.map_values(|script: RendererInitScript| script@),
        )
    }
}

impl RendererInitScripts {
    /// No scripts.
    pub fn new() -> (scripts: Self)
        ensures
            scripts@ == Map::<i32, Seq<InitScriptModel>>::empty(),
    {
        let scripts = RendererInitScripts { scripts: HashMap::new() };
        assert(scripts@ =~= Map::<i32, Seq<InitScriptModel>>::empty());
        scripts
    }

    /// The calls that a new document begins with. `frame_is_main` is what CEF
    /// answers of the frame, if there is one.
    pub fn on_context_created(&self, browser: Option<i32>, frame_is_main: Option<i32>) -> (calls:
        CallSequence)
        ensures
            calls@ == match (browser, frame_is_main) {
                (Some(browser), Some(is_main)) => SequenceState::of(
                    script_steps(scripts_of(self@, browser), is_main != 0),
                ),
                _ => SequenceState::of(Seq::empty()),
            },
    {
        let mut steps: Vec<Step> = Vec::new();
        if let (Some(browser), Some(is_main)) = (browser, frame_is_main) {
            let is_main_frame = is_main != 0;
            if let Some(scripts) = self.scripts.get(&browser) {
                let ghost models = scripts@.map_values(|script: RendererInitScript| script@);
                assert(scripts_of(self@, browser) == models);
                assert(models.take(0) =~= Seq::empty());
                let mut index: usize = 0;
                while index < scripts.len()
                    invariant
                        index <= scripts.len(),
                        models == scripts@.map_values(|script: RendererInitScript| script@),
                        steps@.map_values(|step: Step| step@) == script_steps(
                            models.take(index as int),
                            is_main_frame,
                        ),
                    decreases scripts.len() - index,
                {
                    let script = &scripts[index];
                    let ghost before = steps@;
                    assert(models.take(index + 1).drop_last() =~= models.take(index as int));
                    if !(script.for_main_frame_only && !is_main_frame) {
                        steps.push(
                            Step::always(
                                CallOf::ExecuteJavaScript {
                                    code: script.script.clone(),
                                    script_url: "tauri-runtime-cef://document-start".to_string(),
                                    start_line: 1,
                                },
                            ),
                        );
                        assert(steps@.map_values(|step: Step| step@) =~= before.map_values(
                            |step: Step| step@,
                        ).push(steps@.last()@));
                    }
                    index = index + 1;
                }
                assert(models.take(index as int) =~= models);
            }
        }
        assert(script_steps(Seq::empty(), true) == script_steps(Seq::empty(), false));
        assert(steps@.len() == 0 ==> steps@.map_values(|step: Step| step@) =~= Seq::empty());
        CallSequence::of(steps)
    }

    /// Handles a message that concerns init scripts, and leaves every other to the
    /// message router.
    pub fn on_process_message_received(
        &mut self,
        browser: Option<i32>,
        source_process: ProcessId,
        message: Option<RendererMessage>,
    ) -> (routing: MessageRouting)
        ensures
            final(self)@ == scripts_after(old(self)@, browser, source_process, message),
            routing == if concerns_scripts(source_process, name_of(message)) {
                MessageRouting::Handled(1)
            } else {
                MessageRouting::AskRouter
            },
    {
        let name = match &message {
            Some(message) => message.name.clone(),
            None => String::new(),
        };
        if source_process == ProcessId::Browser {
            if name == "__TAURI_CLEAR_INIT_SCRIPTS__".to_string() {
                self.on_browser_destroyed(browser);
                return MessageRouting::Handled(1);
            }
            if name == "__TAURI_ADD_INIT_SCRIPT__".to_string() {
                if let (Some(browser), Some(message)) = (browser, message) {
                    if let Some(arguments) = message.arguments {
                        if !arguments.script.as_str().is_empty() {
                            self.add(browser, arguments);
                        }
                    }
                }
                return MessageRouting::Handled(1);
            }
        }
        MessageRouting::AskRouter
    }

    fn add(&mut self, browser: i32, arguments: AddScriptArguments)
        ensures
            final(self)@ == old(self)@.insert(
                browser,
                scripts_of(old(self)@, browser).push(
                    InitScriptModel {
                        script: arguments.script@,
                        for_main_frame_only: arguments.for_main_frame_only != 0,
                    },
                ),
            ),
    {
        let mut entry: Vec<RendererInitScript> = match self.scripts.remove(&browser) {
            Some(scripts) => scripts,
            None => Vec::new(),
        };
        let ghost before = entry@;
        assert(before.map_values(|script: RendererInitScript| script@) =~= scripts_of(
            old(self)@,
            browser,
        ));
        entry.push(
            RendererInitScript {
                script: arguments.script,
                for_main_frame_only: arguments.for_main_frame_only != 0,
            },
        );
        assert(entry@.map_values(|script: RendererInitScript| script@) =~= before.map_values(
            |script: RendererInitScript| script@,
        ).push(entry@.last()@));
        self.scripts.insert(browser, entry);
        assert(self@ =~= old(self)@.insert(
            browser,
            entry@.map_values(|script: RendererInitScript| script@),
        ));
    }

    /// Forgets the scripts of a browser that is gone.
    pub fn on_browser_destroyed(&mut self, browser: Option<i32>)
        ensures
            final(self)@ == match browser {
                Some(browser) => old(self)@.remove(browser),
                None => old(self)@,
            },
    {
        if let Some(browser) = browser {
            self.scripts.remove(&browser);
            assert(self@ =~= old(self)@.remove(browser));
        }
    }
}

/// Messages to one browser leave the scripts of every other browser alone.
pub proof fn lemma_scripts_are_per_browser(
    scripts: Map<i32, Seq<InitScriptModel>>,
    browser: i32,
    other: i32,
    source_process: ProcessId,
    message: Option<RendererMessage>,
)
    requires
        other != browser,
    ensures
        scripts_of(scripts_after(scripts, Some(browser), source_process, message), other)
            == scripts_of(scripts, other),
{
}

/// A script that was added runs after all that were added before it, and clearing
/// leaves a browser without scripts.
pub proof fn lemma_scripts_run_in_order(
    scripts: Map<i32, Seq<InitScriptModel>>,
    browser: i32,
    message: Option<RendererMessage>,
    is_main_frame: bool,
)
    ensures
        name_of(message) == clear_message() ==> scripts_of(
            scripts_after(scripts, Some(browser), ProcessId::Browser, message),
            browser,
        ).len() == 0,
        name_of(message) == add_message() && added_script(message) is Some && (is_main_frame
            || !added_script(message)->Some_0.for_main_frame_only) ==> script_steps(
            scripts_of(scripts_after(scripts, Some(browser), ProcessId::Browser, message), browser),
            is_main_frame,
        ) == script_steps(scripts_of(scripts, browser), is_main_frame).push(
            cef_calls::always(
                CallOf::ExecuteJavaScript {
                    code: added_script(message)->Some_0.script,
                    script_url: document_start_url(),
                    start_line: 1,
                },
            ),
        ),
{
    reveal_strlit("__TAURI_ADD_INIT_SCRIPT__");
    reveal_strlit("__TAURI_CLEAR_INIT_SCRIPTS__");
    assert(add_message().len() != clear_message().len());
    if name_of(message) == add_message() && added_script(message) is Some {
        let script = added_script(message)->Some_0;
        let before = scripts_of(scripts, browser);
        assert(before.push(script).drop_last() =~= before);
    }
}

/// A bootstrap has what it was begun with. The process accepts init scripts unless the
/// application brings its own CEF application, and feeds the message pump if the configuration
/// asks for it besides.
pub proof fn lemma_bootstrap_begins(
    app_provided: bool,
    config: CefRuntimeConfig,
    options: BootstrapOptions,
    plain: Bootstrap,
    begun_with_options: Bootstrap,
)
    ensures
        forall|process: &mut ProcessState| #[trigger]
            call_ensures(
                bootstrap_with_options,
                (app_provided, config, options, process),
                begun_with_options,
            ) ==> {
                let after = *final(process);
                &&& begun_with_options.app_provided == app_provided
                &&& begun_with_options.config == config
                &&& begun_with_options.options == options
                &&& begun_with_options.on_wayland == (*process).on_wayland
                &&& after.on_wayland == (*process).on_wayland
                &&& after.renderer_init_scripts_available <==> !app_provided
                &&& after.pump_queue_installed <==> !app_provided && config.external_message_pump
            },
        forall|process: &mut ProcessState| #[trigger]
            call_ensures(bootstrap, (app_provided, config, process), plain) ==> {
                let after = *final(process);
                &&& plain.app_provided == app_provided
                &&& plain.config == config
                &&& plain.options.sandbox_info == 0
                &&& plain.on_wayland == (*process).on_wayland
                &&& after.renderer_init_scripts_available <==> !app_provided
                &&& after.pump_queue_installed <==> !app_provided && config.external_message_pump
            },
{
}

/// A process is the browser process unless the command line has the switch `type`; without a
/// command line it is an error. What the bootstrap was begun with is handed on.
pub proof fn lemma_command_line_tells_the_process(
    bootstrap: Bootstrap,
    type_switch: Option<i32>,
    result: Result<ProcessExecution, BootstrapError>,
)
    requires
        call_ensures(Bootstrap::command_line_parsed, (bootstrap, type_switch), result),
    ensures
        type_switch is None <==> result is Err,
        result matches Err(error) ==> error == BootstrapError::InvalidCommandLine,
        result matches Ok(execution) ==> {
            &&& execution.is_browser_process <==> type_switch != Some(1i32)
            &&& execution.use_runtime_app <==> !bootstrap.app_provided
            &&& execution.sandbox_info == bootstrap.options.sandbox_info
            &&& execution.config == bootstrap.config
            &&& execution.on_wayland == bootstrap.on_wayland
        },
{
}

/// A subprocess leaves with the code of CEF, which is not negative, and fails with any other.
/// The browser process is the one that CEF answers with minus one, and fails with any other.
/// Then CEF is initialized as the configuration says, and renders off screen under Wayland only.
pub proof fn lemma_execution_decides(
    execution: ProcessExecution,
    ret: i32,
    next: AfterExecution,
    settings: Settings,
)
    requires
        call_ensures(ProcessExecution::executed, (execution, ret), next),
        call_ensures(CefRuntimeConfig::into_settings, (execution.config,), settings),
    ensures
        !execution.is_browser_process && ret >= 0 ==> next == AfterExecution::Finished(
            Ok(BootstrapOutcome::Subprocess(ret)),
        ),
        !execution.is_browser_process && ret < 0 ==> next == AfterExecution::Finished(
            Err(BootstrapError::SubprocessExecuteFailed),
        ),
        execution.is_browser_process && ret != -1 ==> next == AfterExecution::Finished(
            Err(BootstrapError::BrowserExecuteFailed),
        ),
        execution.is_browser_process && ret == -1 ==> {
            &&& next matches AfterExecution::Initialize(initialization)
            &&& initialization.use_runtime_app == execution.use_runtime_app
            &&& initialization.sandbox_info == execution.sandbox_info
            &&& initialization.settings.no_sandbox == settings.no_sandbox
            &&& initialization.settings.external_message_pump == settings.external_message_pump
            &&& initialization.settings.cache_path == settings.cache_path
            &&& initialization.settings.root_cache_path == settings.root_cache_path
            &&& execution.on_wayland ==> initialization.settings.windowless_rendering_enabled == 1
            &&& !execution.on_wayland ==> initialization.settings.windowless_rendering_enabled == 0
        },
{
}

/// CEF runs exactly if it answers its initialization with one. Otherwise it is an error, and
/// the process accepts no init scripts and feeds no message pump any more. What runs is shut
/// down once.
pub proof fn lemma_initialization_decides(
    initialization: Initialization,
    ret: i32,
    result: Result<BootstrapOutcome, BootstrapError>,
    shut_down: bool,
)
    ensures
        forall|process: &mut ProcessState| #[trigger]
            call_ensures(Initialization::initialized, (initialization, ret, process), result)
                ==> {
                let after = *final(process);
                &&& ret == 1 <==> result is Ok
                &&& result matches Ok(outcome) ==> {
                    &&& outcome matches BootstrapOutcome::Browser(cef)
                    &&& cef.is_active()
                    &&& after == *process
                }
                &&& result matches Err(error) ==> {
                    &&& error == BootstrapError::InitializeFailed
                    &&& !after.renderer_init_scripts_available && !after.pump_queue_installed
                    &&& after.on_wayland == (*process).on_wayland
                }
            },
        forall|cef: &mut InitializedCef| #[trigger]
            call_ensures(InitializedCef::shutdown, (cef,), shut_down) ==> {
                &&& shut_down <==> (*cef).is_active()
                &&& !(*final(cef)).is_active()
            },
{
}

/// Every error has a message of its own.
pub proof fn lemma_errors_have_messages(
    command_line: String,
    subprocess: String,
    browser: String,
    initialize: String,
)
    requires
        call_ensures(BootstrapError::message, (&BootstrapError::InvalidCommandLine,), command_line),
        call_ensures(
            BootstrapError::message,
            (&BootstrapError::SubprocessExecuteFailed,),
            subprocess,
        ),
        call_ensures(BootstrapError::message, (&BootstrapError::BrowserExecuteFailed,), browser),
        call_ensures(BootstrapError::message, (&BootstrapError::InitializeFailed,), initialize),
    ensures
        command_line@ == "failed to parse command line arguments"@,
        subprocess@ == "failed to execute subprocess"@,
        browser@ == "failed to execute browser process"@,
        initialize@ == "cef initialize returned 0"@,
{
}

/// A new document runs the scripts of its browser in order, each with its text; those for main
/// frames in main frames only. Without a browser or a frame there is nothing to run.
pub proof fn lemma_documents_run_their_scripts(
    scripts: &RendererInitScripts,
    browser: i32,
    in_main: CallSequence,
    in_other: CallSequence,
    without_browser: CallSequence,
    without_frame: CallSequence,
    first: Seq<InitScriptModel>,
    second: InitScriptModel,
)
    requires
        call_ensures(
            RendererInitScripts::on_context_created,
            (scripts, Some(browser), Some(1i32)),
            in_main,
        ),
        call_ensures(
            RendererInitScripts::on_context_created,
            (scripts, Some(browser), Some(0i32)),
            in_other,
        ),
        call_ensures(
            RendererInitScripts::on_context_created,
            (scripts, None::<i32>, Some(1i32)),
            without_browser,
        ),
        call_ensures(
            RendererInitScripts::on_context_created,
            (scripts, Some(browser), None::<i32>),
            without_frame,
        ),
        scripts@.contains_key(browser),
        scripts@[browser] == first.push(second),
    ensures
        ({
            let run = StepModel {
                call: CallOf::ExecuteJavaScript {
                    code: second.script,
                    script_url: "tauri-runtime-cef://document-start"@,
                    start_line: 1,
                },
                on_failure: OnFailure::Continue,
            };
            &&& in_main@.remaining.len() == first.len() + 1
            &&& in_main@.remaining.last() == run
            &&& in_main@.remaining.drop_last() == script_steps(first, true)
            &&& !second.for_main_frame_only ==> in_other@.remaining == script_steps(
                first,
                false,
            ).push(run)
            &&& second.for_main_frame_only ==> in_other@.remaining == script_steps(first, false)
            &&& without_browser@.remaining.len() == 0
            &&& without_frame@.remaining.len() == 0
        }),
{
    assert(first.push(second).drop_last() =~= first);
    lemma_main_frames_run_all(first);
    assert(in_main@.remaining =~= script_steps(first, true).push(in_main@.remaining.last()));
    assert(in_main@.remaining.drop_last() =~= script_steps(first, true));
}

/// A main frame runs all scripts, in order.
pub proof fn lemma_main_frames_run_all(scripts: Seq<InitScriptModel>)
    ensures
        script_steps(scripts, true).len() == scripts.len(),
        forall|i: int|
            0 <= i < scripts.len() ==> (#[trigger] script_steps(scripts, true)[i]).call
                == (CallOf::ExecuteJavaScript {
                code: scripts[i].script,
                script_url: "tauri-runtime-cef://document-start"@,
                start_line: 1,
            }),
    decreases scripts.len(),
{
    if scripts.len() > 0 {
        lemma_main_frames_run_all(scripts.drop_last());
        assert forall|i: int| 0 <= i < scripts.len() implies (#[trigger] script_steps(
            scripts,
            true,
        )[i]).call == (CallOf::ExecuteJavaScript {
            code: scripts[i].script,
            script_url: "tauri-runtime-cef://document-start"@,
            start_line: 1,
        }) by {
            if i < scripts.len() - 1 {
                assert(script_steps(scripts.drop_last(), true)[i] == script_steps(
                    scripts,
                    true,
                )[i]);
            }
        }
    }
}

/// A message of the browser process adds its script to those of its browser, behind them, if it
/// has one, or forgets them; these messages are handled. Any other message, and any from another
/// process, is for the router and changes nothing.
pub proof fn lemma_messages_change_the_scripts(
    browser: i32,
    source: ProcessId,
    message: RendererMessage,
    routing: MessageRouting,
)
    ensures
        forall|scripts: &mut RendererInitScripts| #[trigger]
            call_ensures(
                RendererInitScripts::on_process_message_received,
                (scripts, Some(browser), source, Some(message)),
                routing,
            ) ==> {
                let before = scripts_of((*scripts)@, browser);
                let after = scripts_of((*final(scripts))@, browser);
                let adds = source == ProcessId::Browser && message.name@
                    == "__TAURI_ADD_INIT_SCRIPT__"@;
                let clears = source == ProcessId::Browser && message.name@
                    == "__TAURI_CLEAR_INIT_SCRIPTS__"@;
                &&& adds || clears <==> routing == MessageRouting::Handled(1)
                &&& !adds && !clears <==> routing == MessageRouting::AskRouter
                &&& !adds && !clears ==> (*final(scripts))@ == (*scripts)@
                &&& clears ==> after.len() == 0
                &&& adds && message.arguments is None ==> after == before
                &&& adds && message.arguments is Some ==> {
                    let arguments = message.arguments->Some_0;
                    &&& arguments.script@.len() == 0 ==> after == before
                    &&& arguments.script@.len() > 0 ==> {
                        &&& after.len() == before.len() + 1
                        &&& after.drop_last() == before
                        &&& after.last().script == arguments.script@
                        &&& after.last().for_main_frame_only <==> arguments.for_main_frame_only != 0
                    }
                }
            },
{
    reveal_strlit("__TAURI_ADD_INIT_SCRIPT__");
    reveal_strlit("__TAURI_CLEAR_INIT_SCRIPTS__");
    assert(add_message().len() != clear_message().len());
    assert forall|scripts: &mut RendererInitScripts| #[trigger]
        call_ensures(
            RendererInitScripts::on_process_message_received,
            (scripts, Some(browser), source, Some(message)),
            routing,
        ) && source == ProcessId::Browser && message.name@ == "__TAURI_ADD_INIT_SCRIPT__"@
        && added_script(Some(message)) is Some implies scripts_of(
        (*final(scripts))@,
        browser,
    ).drop_last() == scripts_of((*scripts)@, browser) by {
        let script = added_script(Some(message))->Some_0;
        let before = scripts_of((*scripts)@, browser);
        assert(before.push(script).drop_last() =~= before);
    }
}

} // verus!
