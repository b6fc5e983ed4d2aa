//! How webviews are created.
//!
//! A plan says how the browser begins. Then the browser is created, which may take
//! several attempts, and finally it is set up and becomes a webview.

use crate::bootstrap::RendererInitScript;
use crate::browser_slot;
use crate::browser_slot::{BrowserSlot, BrowserSlots};
use crate::cef_calls::{CallOf, CallSequence, SequenceState};
use crate::client::BrowserEvent;
use crate::config;
use crate::osr::CefRect;
use crate::runtime::color;
use crate::runtime::color::{rgba_to_cef_color, Color};
use crate::runtime::dpi::{PhysicalPosition, PhysicalRect, PhysicalSize, Rect};
use crate::runtime::init_scripts;
use crate::runtime::init_scripts::{
    initialization_scripts, send_init_scripts_to_renderer, ScriptTransfer,
};
use crate::runtime::platform::BuildOptions;
use crate::runtime::store::{
    Listeners, WebviewBounds, WebviewId, WebviewModel, WebviewWrapper, WindowCell, WindowId,
};
use crate::runtime::urls;
use crate::runtime::urls::normalize_cef_initial_url;
use crate::runtime::web;
use crate::runtime::web::UrlModel;
use crate::runtime::webview;
use crate::runtime::webview_events;
use crate::runtime::webview_events::{
    ClientActionModel, EventHandlers, PageLoadEvent, WebviewEvents, WebviewKind,
};
use crate::tao_window;
use crate::tao_window::{
    cef_window_handle_is_null, CefWindowHandle, HostWindowError, HostWindowInfo, RawHandle,
};
use crate::text;
use vstd::prelude::*;

verus! {

/// What the application wants of a webview.
#[derive(Debug)]
pub struct WebviewAttributes {
    pub url: String,
    pub use_https_scheme: bool,
    pub initialization_scripts: Vec<RendererInitScript>,
    pub javascript_disabled: bool,
    pub clipboard: bool,
    pub look: WebviewLook,
}

/// How a webview looks, and how it begins.
#[derive(Debug, Clone, Copy, PartialEq, Eq, Structural)]
pub struct WebviewLook {
    /// Where the webview is in its window. Without bounds it fills the window.
    pub bounds: Option<Rect>,
    pub background_color: Option<Color>,
    pub transparent: bool,
    pub focus: bool,
    pub devtools: Option<bool>,
    pub auto_resize: bool,
}

/// A setting of a browser.
#[derive(Debug, Clone, Copy, PartialEq, Eq, Structural)]
pub enum SettingState {
    /// CEF decides.
    Unset,
    Disabled,
}

/// The settings of a browser.
#[derive(Debug, Clone, Copy, PartialEq, Eq, Structural)]
pub struct BrowserSettings {
    pub background_color: u32,
    pub javascript: SettingState,
    pub javascript_access_clipboard: SettingState,
    pub javascript_dom_paste: SettingState,
}

/// How a webview begins.
#[derive(Debug)]
pub struct WebviewPlan {
    pub initial_url: String,
    pub events: WebviewEvents,
    pub rect: Rect,
    pub background_color: Color,
    pub settings: BrowserSettings,
    pub focused: bool,
    pub open_devtools: bool,
    pub auto_resize: bool,
}

/// The bounds of a webview: what was asked for, or the whole window.
pub open spec fn initial_rect(bounds: Option<Rect>, window: PhysicalSize<u32>) -> Rect {
    match bounds {
        Some(bounds) => bounds,
        None => PhysicalRect {
            position: PhysicalPosition { x: 0, y: 0 },
            size: window,
        }.as_rect_spec(),
    }
}

/// The background color of a webview: what was asked for, or one that does not flash.
pub open spec fn initial_color(options: BuildOptions, look: WebviewLook) -> Color {
    match look.background_color {
        Some(color) => color,
        None => if look.transparent {
            Color { r: 0, g: 0, b: 0, a: 0 }
        } else if options.wayland_osr {
            Color { r: 0, g: 0, b: 0, a: 255 }
        } else {
            Color { r: 255, g: 255, b: 255, a: 255 }
        },
    }
}

/// A setting that is disabled or not.
pub open spec fn state_of(disabled: bool) -> SettingState {
    if disabled {
        SettingState::Disabled
    } else {
        SettingState::Unset
    }
}

fn setting(disabled: bool) -> (state: SettingState)
    ensures
        state == state_of(disabled),
{
    if disabled {
        SettingState::Disabled
    } else {
        SettingState::Unset
    }
}

fn color_for(options: BuildOptions, look: WebviewLook) -> (color: Color)
    ensures
        color == initial_color(options, look),
{
    match look.background_color {
        Some(color) => color,
        None => if look.transparent {
            Color { r: 0, g: 0, b: 0, a: 0 }
        } else if options.wayland_osr {
            Color { r: 0, g: 0, b: 0, a: 255 }
        } else {
            Color { r: 255, g: 255, b: 255, a: 255 }
        },
    }
}

/// Whether the browser of a webview renders off screen: where it can, on a window that it
/// cannot be a child of.
pub fn is_windowless(options: BuildOptions, host: Option<RawHandle>) -> (windowless: bool)
    ensures
        windowless == (options.wayland_osr && host is Some && host->Some_0 is Wayland),
{
    match host {
        Some(RawHandle::Wayland { .. }) => options.wayland_osr,
        _ => false,
    }
}

/// Plans a webview, which is found in the window of a cell. `window` is the size of the
/// content of that window, in pixels, and `renderer_runs_scripts` whether the render process
/// runs scripts by itself.
pub fn plan_webview(
    options: BuildOptions,
    kind: WebviewKind,
    cell: WindowCell,
    webview_id: WebviewId,
    attributes: &WebviewAttributes,
    handlers: EventHandlers,
    window: PhysicalSize<u32>,
    renderer_runs_scripts: bool,
) -> (plan: WebviewPlan)
    ensures
        plan.initial_url@ == urls::initial_url(
            attributes.url@,
            web::url_of(attributes.url@),
            attributes.use_https_scheme,
        ),
        plan.events.window == cell,
        plan.events.webview_id == webview_id,
        plan.events.kind == kind,
        plan.events.handlers == handlers,
        plan.events.explicit_background_color == (attributes.look.background_color is Some),
        plan.events.run_scripts_on_load == !renderer_runs_scripts,
        init_scripts::models(plan.events.scripts@) == init_scripts::all_scripts(
            init_scripts::models(attributes.initialization_scripts@),
        ),
        plan.rect == initial_rect(attributes.look.bounds, window),
        plan.background_color == initial_color(options, attributes.look),
        plan.settings.background_color == color::cef_color(plan.background_color),
        plan.settings.javascript == state_of(attributes.javascript_disabled),
        plan.settings.javascript_access_clipboard == state_of(!attributes.clipboard),
        plan.settings.javascript_dom_paste == state_of(!attributes.clipboard),
        plan.focused == attributes.look.focus,
        plan.open_devtools == (attributes.look.devtools == Some(true)),
        plan.auto_resize == attributes.look.auto_resize,
{
    let look = attributes.look;
    let background_color = color_for(options, look);
    let rect = match look.bounds {
        Some(bounds) => bounds,
        None => {
            let whole = PhysicalRect { position: PhysicalPosition { x: 0, y: 0 }, size: window };
            whole.as_rect()
        },
    };
    let open_devtools = match look.devtools {
        Some(devtools) => devtools,
        None => false,
    };
    WebviewPlan {
        initial_url: normalize_cef_initial_url(
            attributes.url.as_str(),
            attributes.use_https_scheme,
        ),
        events: WebviewEvents {
            window: cell,
            webview_id,
            kind,
            handlers,
            explicit_background_color: look.background_color.is_some(),
            run_scripts_on_load: !renderer_runs_scripts,
            scripts: initialization_scripts(&attributes.initialization_scripts),
        },
        rect,
        background_color,
        settings: BrowserSettings {
            background_color: rgba_to_cef_color(background_color),
            javascript: setting(attributes.javascript_disabled),
            javascript_access_clipboard: setting(!attributes.clipboard),
            javascript_dom_paste: setting(!attributes.clipboard),
        },
        focused: look.focus,
        open_devtools,
        auto_resize: look.auto_resize,
    }
}

/// The extent that a browser begins with: what was asked for, or a default.
pub open spec fn extent_or(extent: i32, default_extent: i32) -> i32 {
    if extent <= 0 {
        default_extent
    } else {
        extent
    }
}

/// The bounds that a browser begins with, in pixels.
pub fn browser_bounds(position: PhysicalPosition<i32>, width: i32, height: i32) -> (bounds: CefRect)
    ensures
        bounds == (CefRect {
            x: position.x,
            y: position.y,
            width: extent_or(width, 800),
            height: extent_or(height, 600),
        }),
{
    CefRect {
        x: position.x,
        y: position.y,
        width: if width <= 0 {
            800
        } else {
            width
        },
        height: if height <= 0 {
            600
        } else {
            height
        },
    }
}

/// The attempts to create a browser after the first one.
pub const CREATION_RETRIES: u32 = 30;

/// The pause after an attempt to create a browser, in milliseconds.
pub const CREATION_PAUSE_MILLIS: u64 = 20;

/// The creation of a browser.
#[derive(Debug)]
pub struct BrowserCreation {
    /// The browser renders off screen and has no window of its own.
    pub windowless: bool,
    pub bounds: CefRect,
    pub attempt: u32,
    /// Why the window of the application had no handle for the browser, the last time.
    pub last_error: Option<String>,
}

/// The creation of a browser, with text as characters.
#[verifier::ext_equal]
pub struct CreationModel {
    pub windowless: bool,
    pub bounds: CefRect,
    pub attempt: u32,
    pub last_error: Option<Seq<char>>,
}

impl View for BrowserCreation {
    type V = CreationModel;

    open spec fn view(&self) -> CreationModel {
        CreationModel {
            windowless: self.windowless,
            bounds: self.bounds,
            attempt: self.attempt,
            last_error: text::text_of(self.last_error),
        }
    }
}

/// How the creation of a browser goes on.
#[derive(Debug)]
pub enum CreationStep {
    CreateWindowless,
    /// The window of the application is asked for its handle.
    AskHostWindow,
    CreateChild { parent: CefWindowHandle, bounds: CefRect },
    /// A pause, before the next attempt.
    Pause,
    Created(i32),
    Failed(String),
}

/// How the creation of a browser goes on, with text as characters.
pub enum CreationStepModel {
    CreateWindowless,
    AskHostWindow,
    CreateChild { parent: CefWindowHandle, bounds: CefRect },
    Pause,
    Created(i32),
    Failed(Seq<char>),
}

impl View for CreationStep {
    type V = CreationStepModel;

    open spec fn view(&self) -> CreationStepModel {
        match *self {
            CreationStep::CreateWindowless => CreationStepModel::CreateWindowless,
            CreationStep::AskHostWindow => CreationStepModel::AskHostWindow,
            CreationStep::CreateChild { parent, bounds } => CreationStepModel::CreateChild {
                parent,
                bounds,
            },
            CreationStep::Pause => CreationStepModel::Pause,
            CreationStep::Created(browser) => CreationStepModel::Created(browser),
            CreationStep::Failed(message) => CreationStepModel::Failed(message@),
        }
    }
}

/// Why a window has no handle for a browser, if it has none.
pub open spec fn handle_error(host: Result<HostWindowInfo, HostWindowError>) -> Option<Seq<char>> {
    match host {
        Ok(info) => if info.parent_handle.value == 0 {
            Some("got null parent window handle"@)
        } else {
            None
        },
        Err(error) => Some(tao_window::message_of(error)),
    }
}

/// Bounds, as messages show them.
pub open spec fn bounds_text(bounds: CefRect) -> Seq<char> {
    text::signed_text(bounds.width as int) + "x"@ + text::signed_text(bounds.height as int) + "+"@
        + text::signed_text(bounds.x as int) + ","@ + text::signed_text(bounds.y as int)
}

/// The message for a browser that could not be created.
pub open spec fn failure_message(creation: CreationModel) -> Seq<char> {
    if creation.windowless {
        "CEF OSR browser creation failed ("@ + text::signed_text(creation.bounds.width as int)
            + "x"@ + text::signed_text(creation.bounds.height as int) + ")."@
    } else {
        match creation.last_error {
            Some(reason) => "CEF browser creation failed ("@ + reason + "; bounds="@ + bounds_text(
                creation.bounds,
            ) + ")."@,
            None => "CEF browser creation failed (bounds="@ + bounds_text(creation.bounds) + ")."@,
        }
    }
}

/// How the creation of a browser goes on once the window has answered.
pub open spec fn after_host_window(
    creation: CreationModel,
    host: Result<HostWindowInfo, HostWindowError>,
) -> (CreationModel, CreationStepModel) {
    match handle_error(host) {
        Some(error) => (
            CreationModel { last_error: Some(error), ..creation },
            CreationStepModel::Pause,
        ),
        None => (
            creation,
            CreationStepModel::CreateChild {
                parent: host->Ok_0.parent_handle,
                bounds: creation.bounds,
            },
        ),
    }
}

/// How the creation of a browser goes on once CEF has answered.
pub open spec fn after_creation(creation: CreationModel, browser: Option<i32>) -> CreationStepModel {
    match browser {
        Some(browser) => CreationStepModel::Created(browser),
        None => if creation.windowless {
            CreationStepModel::Failed(failure_message(creation))
        } else {
            CreationStepModel::Pause
        },
    }
}

/// How the creation of a browser goes on after a pause.
pub open spec fn after_pause(creation: CreationModel) -> (CreationModel, CreationStepModel) {
    if creation.attempt >= CREATION_RETRIES {
        (creation, CreationStepModel::Failed(failure_message(creation)))
    } else {
        (
            CreationModel { attempt: (creation.attempt + 1) as u32, ..creation },
            CreationStepModel::AskHostWindow,
        )
    }
}

fn append_number(message: &mut String, number: i32)
    ensures
        final(message)@ == old(message)@ + text::signed_text(number as int),
{
    let digits = text::signed_decimal(number as i64);
    message.append(digits.as_str());
}

fn append_bounds(message: &mut String, bounds: CefRect)
    ensures
        final(message)@ == old(message)@ + bounds_text(bounds),
{
    append_number(message, bounds.width);
    message.append("x");
    append_number(message, bounds.height);
    message.append("+");
    append_number(message, bounds.x);
    message.append(",");
    append_number(message, bounds.y);
    assert(message@ =~= old(message)@ + bounds_text(bounds));
}

impl BrowserCreation {
    /// Begins the creation of a browser.
    pub fn begin(windowless: bool, bounds: CefRect) -> (result: (Self, CreationStep))
        ensures
            result.0@ == (CreationModel { windowless, bounds, attempt: 0, last_error: None }),
            result.1@ == if windowless {
                CreationStepModel::CreateWindowless
            } else {
                CreationStepModel::AskHostWindow
            },
    {
        let creation = BrowserCreation { windowless, bounds, attempt: 0, last_error: None };
        let step = if windowless {
            CreationStep::CreateWindowless
        } else {
            CreationStep::AskHostWindow
        };
        (creation, step)
    }

    /// The message for a browser that could not be created.
    pub fn failure(&self) -> (message: String)
        ensures
            message@ == failure_message(self@),
    {
        if self.windowless {
            let mut message = "CEF OSR browser creation failed (".to_string();
            append_number(&mut message, self.bounds.width);
            message.append("x");
            append_number(&mut message, self.bounds.height);
            message.append(").");
            return message;
        }
        match &self.last_error {
            Some(reason) => {
                let mut message = "CEF browser creation failed (".to_string();
                message.append(reason.as_str());
                message.append("; bounds=");
                append_bounds(&mut message, self.bounds);
                message.append(").");
                message
            },
            None => {
                let mut message = "CEF browser creation failed (bounds=".to_string();
                append_bounds(&mut message, self.bounds);
                message.append(").");
                message
            },
        }
    }

    /// Takes the answer of the window of the application.
    pub fn host_window_asked(&mut self, host: Result<HostWindowInfo, HostWindowError>) -> (step:
        CreationStep)
        ensures
            (final(self)@, step@) == after_host_window(old(self)@, host),
    {
        match host {
            Ok(info) => if cef_window_handle_is_null(info.parent_handle) {
                self.last_error = Some("got null parent window handle".to_string());
                CreationStep::Pause
            } else {
                CreationStep::CreateChild { parent: info.parent_handle, bounds: self.bounds }
            },
            Err(error) => {
                self.last_error = Some(error.message());
                CreationStep::Pause
            },
        }
    }

    /// Takes the answer of CEF: the browser, if it was created.
    pub fn creation_tried(&self, browser: Option<i32>) -> (step: CreationStep)
        ensures
            step@ == after_creation(self@, browser),
    {
        match browser {
            Some(browser) => CreationStep::Created(browser),
            None => if self.windowless {
                CreationStep::Failed(self.failure())
            } else {
                CreationStep::Pause
            },
        }
    }

    /// Goes on after a pause.
    pub fn paused(&mut self) -> (step: CreationStep)
        ensures
            (final(self)@, step@) == after_pause(old(self)@),
    {
        if self.attempt >= CREATION_RETRIES {
            CreationStep::Failed(self.failure())
        } else {
            self.attempt = self.attempt + 1;
            CreationStep::AskHostWindow
        }
    }
}

/// How one attempt to create a browser in a window turned out.
pub enum AttemptOutcome {
    /// The window had no handle.
    NoHandle(Seq<char>),
    /// CEF created no browser.
    NoBrowser,
    Browser(i32),
}

/// The creation of a browser after an attempt that gave none.
pub open spec fn noted(creation: CreationModel, outcome: AttemptOutcome) -> CreationModel {
    match outcome {
        AttemptOutcome::NoHandle(error) => CreationModel { last_error: Some(error), ..creation },
        _ => creation,
    }
}

/// The end of the creation of a browser whose attempts turn out in a certain way, from
/// the current attempt on. There is none before the last attempt.
pub open spec fn creation_end(creation: CreationModel, outcomes: Seq<AttemptOutcome>) -> Option<
    CreationStepModel,
>
    decreases outcomes.len(),
{
    if outcomes.len() == 0 {
        None
    } else {
        match outcomes[0] {
            AttemptOutcome::Browser(browser) => Some(CreationStepModel::Created(browser)),
            _ => {
                let (next, step) = after_pause(noted(creation, outcomes[0]));
                if step is Failed {
                    Some(step)
                } else {
                    creation_end(next, outcomes.drop_first())
                }
            },
        }
    }
}

/// The answers of the window and of CEF make an attempt turn out as it does: a window
/// without a handle, or CEF without a browser, leads to a pause, and a browser to the
/// end.
pub proof fn lemma_attempts_turn_out(
    creation: CreationModel,
    host: Result<HostWindowInfo, HostWindowError>,
    browser: Option<i32>,
)
    requires
        !creation.windowless,
    ensures
        match handle_error(host) {
            Some(error) => after_host_window(creation, host) == (
                noted(creation, AttemptOutcome::NoHandle(error)),
                CreationStepModel::Pause,
            ),
            None => {
                &&& after_host_window(creation, host).0 == creation
                &&& after_host_window(creation, host).1 is CreateChild
                &&& after_creation(creation, browser) == match browser {
                    Some(browser) => CreationStepModel::Created(browser),
                    None => CreationStepModel::Pause,
                }
            },
        },
{
}

/// A browser is created by the first attempt that gives one, if that comes in time.
pub proof fn lemma_first_browser_counts(
    creation: CreationModel,
    outcomes: Seq<AttemptOutcome>,
    at: int,
)
    requires
        0 <= at < outcomes.len(),
        creation.attempt + at <= CREATION_RETRIES,
        outcomes[at] is Browser,
        forall|i: int| 0 <= i < at ==> !((#[trigger] outcomes[i]) is Browser),
    ensures
        creation_end(creation, outcomes) == Some(
            CreationStepModel::Created(outcomes[at]->Browser_0),
        ),
    decreases at,
{
    if at > 0 {
        assert(!(outcomes[0] is Browser));
        let next = after_pause(noted(creation, outcomes[0])).0;
        let rest = outcomes.drop_first();
        assert forall|i: int| 0 <= i < at - 1 implies !((#[trigger] rest[i]) is Browser) by {
            assert(rest[i] == outcomes[i + 1]);
        }
        assert(rest[at - 1] == outcomes[at]);
        lemma_first_browser_counts(next, rest, at - 1);
    }
}

/// Without a browser the creation fails after a fixed number of attempts, and not
/// before.
pub proof fn lemma_creation_fails_in_the_end(
    creation: CreationModel,
    outcomes: Seq<AttemptOutcome>,
)
    requires
        creation.attempt <= CREATION_RETRIES,
        forall|i: int| 0 <= i < outcomes.len() ==> !((#[trigger] outcomes[i]) is Browser),
    ensures
        creation.attempt + outcomes.len() > CREATION_RETRIES ==> creation_end(creation, outcomes)
            matches Some(CreationStepModel::Failed(_)),
        creation.attempt + outcomes.len() <= CREATION_RETRIES ==> creation_end(
            creation,
            outcomes,
        ) is None,
    decreases outcomes.len(),
{
    if outcomes.len() > 0 {
        assert(!(outcomes[0] is Browser));
        let next = after_pause(noted(creation, outcomes[0])).0;
        let rest = outcomes.drop_first();
        assert forall|i: int| 0 <= i < rest.len() implies !((#[trigger] rest[i]) is Browser) by {
            assert(rest[i] == outcomes[i + 1]);
        }
        if creation.attempt < CREATION_RETRIES {
            lemma_creation_fails_in_the_end(next, rest);
        }
    }
}

/// Something that is done once a browser was created.
#[derive(Debug)]
pub enum SetupStep {
    SendInitScripts(ScriptTransfer),
    /// The native window of the browser follows the bounds of the webview.
    MoveChild(Rect),
    Calls(CallSequence),
}

/// Something that is done once a browser was created, with text as characters.
pub enum SetupStepModel {
    SendInitScripts { lookup: SequenceState, messages: Seq<SequenceState> },
    MoveChild(Rect),
    Calls(SequenceState),
}

impl View for SetupStep {
    type V = SetupStepModel;

    open spec fn view(&self) -> SetupStepModel {
        match *self {
            SetupStep::SendInitScripts(transfer) => SetupStepModel::SendInitScripts {
                lookup: transfer.lookup@,
                messages: transfer.messages@.map_values(|calls: CallSequence| calls@),
            },
            SetupStep::MoveChild(rect) => SetupStepModel::MoveChild(rect),
            SetupStep::Calls(calls) => SetupStepModel::Calls(calls@),
        }
    }
}

/// Steps, with text as characters.
pub open spec fn setup_models(steps: Seq<SetupStep>) -> Seq<SetupStepModel> {
    steps.map_values(|step: SetupStep| step@)
}

/// What is done about the focus of a new browser. One that renders off screen begins
/// without the focus; any other begins with it.
pub open spec fn focus_setup(browser: i32, windowless: bool, focused: bool) -> Seq<
    SetupStepModel,
> {
    if windowless || !focused {
        seq![
            SetupStepModel::Calls(
                webview::host_calls_if_any(
                    Some(browser),
                    CallOf::SetFocus(config::flag_value(focused)),
                ),
            ),
        ]
    } else {
        Seq::empty()
    }
}

/// What is done once a browser was created.
pub open spec fn setup_of(plan: WebviewPlan, browser: i32, windowless: bool) -> Seq<
    SetupStepModel,
> {
    seq![
        SetupStepModel::SendInitScripts {
            lookup: SequenceState::of(init_scripts::lookup_steps()),
            messages: init_scripts::transfer_messages(
                init_scripts::models(plan.events.scripts@),
            ),
        },
    ] + (if windowless {
        Seq::empty()
    } else {
        seq![SetupStepModel::MoveChild(plan.rect)]
    }) + focus_setup(browser, windowless, plan.focused) + (
    if plan.events.explicit_background_color {
        seq![
            SetupStepModel::Calls(
                webview::background_calls(Some(browser), plan.background_color),
            ),
        ]
    } else {
        Seq::empty()
    }) + (if plan.open_devtools {
        seq![
            SetupStepModel::Calls(
                webview::host_calls_if_any(Some(browser), CallOf::ShowDevTools),
            ),
        ]
    } else {
        Seq::empty()
    })
}

fn push(steps: &mut Vec<SetupStep>, step: SetupStep)
    ensures
        setup_models(final(steps)@) == setup_models(old(steps)@).push(step@),
{
    steps.push(step);
    assert(setup_models(steps@) =~= setup_models(old(steps)@).push(step@));
}

/// Puts a browser that was created into the slot of its webview, and says what is done
/// with it.
pub fn set_up_browser(
    plan: &WebviewPlan,
    browsers: &mut BrowserSlots,
    slot: &BrowserSlot,
    browser: i32,
    windowless: bool,
) -> (steps: Vec<SetupStep>)
    requires
        slot.is_among(old(browsers)@),
    ensures
        final(browsers)@ == browser_slot::with_browser(old(browsers)@, *slot, Some(browser)),
        setup_models(steps@) == setup_of(*plan, browser, windowless),
{
    let mut steps: Vec<SetupStep> = Vec::new();
    assert(setup_models(steps@) =~= Seq::empty());
    let transfer = send_init_scripts_to_renderer(&plan.events.scripts);
    push(&mut steps, SetupStep::SendInitScripts(transfer));
    slot.set(browsers, Some(browser));
    if !windowless {
        push(&mut steps, SetupStep::MoveChild(plan.rect));
    }
    if windowless || !plan.focused {
        let calls = webview::set_browser_focus(browsers, slot, plan.focused);
        push(&mut steps, SetupStep::Calls(calls));
    }
    if plan.events.explicit_background_color {
        let calls = webview::apply_background_color(browsers, slot, plan.background_color);
        push(&mut steps, SetupStep::Calls(calls));
    }
    if plan.open_devtools {
        let calls = webview::show_devtools(browsers, slot);
        push(&mut steps, SetupStep::Calls(calls));
    }
    assert(setup_models(steps@) =~= setup_of(*plan, browser, windowless));
    steps
}

/// The webview of a plan. `rates` are the shares of the window that it takes.
pub fn webview_created(
    plan: &WebviewPlan,
    label: String,
    slot: BrowserSlot,
    rates: WebviewBounds,
    windowless: bool,
) -> (webview: WebviewWrapper)
    ensures
        webview@ == (WebviewModel {
            label: label@,
            id: plan.events.webview_id,
            slot,
            listeners: Seq::empty(),
            background_color: plan.background_color,
            rect: plan.rect,
            bounds: if plan.auto_resize {
                Some(rates)
            } else {
                None
            },
            osr: windowless,
        }),
{
    WebviewWrapper {
        label,
        id: plan.events.webview_id,
        browser_slot: slot,
        webview_event_listeners: Listeners::new(),
        background_color: plan.background_color,
        rect: plan.rect,
        bounds: if plan.auto_resize {
            Some(rates)
        } else {
            None
        },
        osr: windowless,
    }
}

/// A background color that the application asked for is applied when the browser is
/// created, and again whenever a page begins to load or has loaded.
pub proof fn lemma_background_is_reinforced(
    plan: WebviewPlan,
    browser: i32,
    windowless: bool,
    event: BrowserEvent,
    url: Option<UrlModel>,
    color: Color,
    cells: Seq<WindowId>,
)
    requires
        plan.events.explicit_background_color,
        event is LoadStarted || event is LoadFinished,
    ensures
        setup_of(plan, browser, windowless).contains(
            SetupStepModel::Calls(webview::background_calls(Some(browser), plan.background_color)),
        ),
        webview_events::actions_of(
            plan.events,
            event,
            url,
            Some(browser),
            color,
            cells,
        ).contains(
            ClientActionModel::Calls {
                browser: Some(browser),
                calls: webview::background_calls(Some(browser), color),
            },
        ),
{
    let steps = setup_of(plan, browser, windowless);
    let moved: int = if windowless {
        0
    } else {
        1
    };
    let at = 1 + moved + focus_setup(browser, windowless, plan.focused).len();
    assert(steps[at] == SetupStepModel::Calls(
        webview::background_calls(Some(browser), plan.background_color),
    ));
    let actions = webview_events::actions_of(
        plan.events,
        event,
        url,
        Some(browser),
        color,
        cells,
    );
    let loaded = webview_events::page_load(
        plan.events.handlers.page_load,
        url,
        if event is LoadStarted {
            PageLoadEvent::Started
        } else {
            PageLoadEvent::Finished
        },
    );
    assert(actions[loaded.len() as int] == ClientActionModel::Calls {
        browser: Some(browser),
        calls: webview::background_calls(Some(browser), color),
    });
}

/// A new browser gets its scripts before anything else is done with it.
pub proof fn lemma_scripts_are_sent_first(plan: WebviewPlan, browser: i32, windowless: bool)
    ensures
        setup_of(plan, browser, windowless).len() >= 1,
        setup_of(plan, browser, windowless)[0] is SendInitScripts,
        setup_of(plan, browser, windowless)[0]->messages == init_scripts::transfer_messages(
            init_scripts::models(plan.events.scripts@),
        ),
{
}

/// A webview begins where and how it was asked to: at its bounds, or else over the whole
/// window; in its color, or else black and see-through, black where it renders off screen, or
/// white; with the focus, the developer tools and growing with its window as asked for.
pub proof fn lemma_plan_follows_the_request(
    options: BuildOptions,
    kind: WebviewKind,
    cell: WindowCell,
    webview_id: WebviewId,
    attributes: &WebviewAttributes,
    handlers: EventHandlers,
    window: PhysicalSize<u32>,
    renderer_runs_scripts: bool,
    plan: WebviewPlan,
)
    requires
        call_ensures(
            plan_webview,
            (
                options,
                kind,
                cell,
                webview_id,
                attributes,
                handlers,
                window,
                renderer_runs_scripts,
            ),
            plan,
        ),
    ensures
        attributes.look.bounds matches Some(bounds) ==> plan.rect == bounds,
        attributes.look.bounds is None ==> {
            &&& plan.rect.position == crate::runtime::dpi::Position::Physical(
                PhysicalPosition { x: 0, y: 0 },
            )
            &&& plan.rect.size == crate::runtime::dpi::Size::Physical(window)
        },
        attributes.look.background_color matches Some(color) ==> plan.background_color == color,
        attributes.look.background_color is None ==> {
            let color = plan.background_color;
            &&& color.a == 0 <==> attributes.look.transparent
            &&& color.a == 0 || color.a == 255
            &&& color.r == color.g && color.g == color.b
            &&& color.r == 255 <==> !attributes.look.transparent && !options.wayland_osr
            &&& color.r == 0 || color.r == 255
        },
        plan.focused == attributes.look.focus,
        plan.auto_resize == attributes.look.auto_resize,
        plan.open_devtools <==> attributes.look.devtools == Some(true),
{
}

/// The browser of a webview is set up as asked for: its background in the form of CEF, no
/// JavaScript where it is disabled, and no use of the clipboard, by reading or by pasting,
/// where that is not allowed. Nothing else is disabled.
pub proof fn lemma_settings_follow_the_request(
    options: BuildOptions,
    kind: WebviewKind,
    cell: WindowCell,
    webview_id: WebviewId,
    attributes: &WebviewAttributes,
    handlers: EventHandlers,
    window: PhysicalSize<u32>,
    renderer_runs_scripts: bool,
    plan: WebviewPlan,
)
    requires
        call_ensures(
            plan_webview,
            (
                options,
                kind,
                cell,
                webview_id,
                attributes,
                handlers,
                window,
                renderer_runs_scripts,
            ),
            plan,
        ),
    ensures
        plan.settings.background_color / 0x100_0000 == plan.background_color.a,
        plan.settings.background_color / 0x1_0000 % 0x100 == plan.background_color.r,
        plan.settings.background_color / 0x100 % 0x100 == plan.background_color.g,
        plan.settings.background_color % 0x100 == plan.background_color.b,
        plan.settings.javascript == SettingState::Disabled <==> attributes.javascript_disabled,
        plan.settings.javascript_access_clipboard == SettingState::Disabled
            <==> !attributes.clipboard,
        plan.settings.javascript_dom_paste == SettingState::Disabled <==> !attributes.clipboard,
{
}

/// A webview knows where it is, what it is, and whom to tell; it colors its pages only if the
/// application gave a color, and runs scripts itself only if the render process does not. Of
/// the scripts the way to send messages comes first, for main frames, and then those of the
/// application. It begins with its own URL, as CEF reaches it.
pub proof fn lemma_webview_knows_its_surroundings(
    options: BuildOptions,
    kind: WebviewKind,
    cell: WindowCell,
    webview_id: WebviewId,
    attributes: &WebviewAttributes,
    handlers: EventHandlers,
    window: PhysicalSize<u32>,
    renderer_runs_scripts: bool,
    plan: WebviewPlan,
    i: int,
)
    requires
        call_ensures(
            plan_webview,
            (
                options,
                kind,
                cell,
                webview_id,
                attributes,
                handlers,
                window,
                renderer_runs_scripts,
            ),
            plan,
        ),
    ensures
        plan.events.window == cell,
        plan.events.webview_id == webview_id,
        plan.events.kind == kind,
        plan.events.handlers == handlers,
        plan.events.explicit_background_color <==> attributes.look.background_color is Some,
        plan.events.run_scripts_on_load <==> !renderer_runs_scripts,
        plan.events.scripts@.len() == attributes.initialization_scripts@.len() + 1,
        plan.events.scripts@[0].script@ == init_scripts::CEF_IPC_FALLBACK_SHIM@,
        plan.events.scripts@[0].for_main_frame_only,
        0 <= i < attributes.initialization_scripts@.len() ==> {
            let script = attributes.initialization_scripts@[i];
            &&& plan.events.scripts@[i + 1].script@ == script.script@
            &&& plan.events.scripts@[i + 1].for_main_frame_only == script.for_main_frame_only
        },
        ({
            let text = attributes.url@;
            let of_application = web::url_accepted(text) && web::url_scheme(text) == "tauri"@
                && web::url_host(text) == Some("localhost"@);
            &&& !of_application ==> plan.initial_url@ == text
            &&& of_application ==> plan.initial_url@ == (if attributes.use_https_scheme {
                "https"@
            } else {
                "http"@
            }) + "://tauri.localhost"@ + web::url_path(text) + (match web::url_query(text) {
                Some(query) => seq!['?'] + query,
                None => Seq::empty(),
            }) + (match web::url_fragment(text) {
                Some(fragment) => seq!['#'] + fragment,
                None => Seq::empty(),
            })
        }),
{
    urls::lemma_initial_url_parts(attributes.url@, attributes.use_https_scheme);
    let all = init_scripts::models(plan.events.scripts@);
    let own = init_scripts::models(attributes.initialization_scripts@);
    assert(all == init_scripts::all_scripts(own));
    assert(all.len() == plan.events.scripts@.len());
    assert(own.len() == attributes.initialization_scripts@.len());
    assert(all.len() == own.len() + 1);
    assert(all[0] == plan.events.scripts@[0]@);
    if 0 <= i < own.len() {
        assert(all[i + 1] == plan.events.scripts@[i + 1]@);
        assert(own[i] == attributes.initialization_scripts@[i]@);
        assert(init_scripts::all_scripts(own)[i + 1] == own[i]);
    }
}

/// A browser begins where its webview is, with the extent of that, or with 800 by 600 pixels
/// along an axis that has no extent. It renders off screen only where that is built in, on
/// windows of Wayland.
pub proof fn lemma_browser_begins_at_its_bounds(
    position: PhysicalPosition<i32>,
    width: i32,
    height: i32,
    bounds: CefRect,
    options: BuildOptions,
    host: Option<RawHandle>,
    windowless: bool,
)
    requires
        call_ensures(browser_bounds, (position, width, height), bounds),
        call_ensures(is_windowless, (options, host), windowless),
    ensures
        bounds.x == position.x,
        bounds.y == position.y,
        width > 0 ==> bounds.width == width,
        width <= 0 ==> bounds.width == 800,
        height > 0 ==> bounds.height == height,
        height <= 0 ==> bounds.height == 600,
        windowless <==> options.wayland_osr && host matches Some(RawHandle::Wayland { surface: _ }),
{
}

/// A browser that renders off screen is created at once; for any other the window is asked
/// for its handle first. No attempt was made yet, and nothing went wrong.
pub proof fn lemma_creation_begins(
    windowless: bool,
    bounds: CefRect,
    begun: (BrowserCreation, CreationStep),
)
    requires
        call_ensures(BrowserCreation::begin, (windowless, bounds), begun),
    ensures
        windowless <==> begun.1@ is CreateWindowless,
        !windowless <==> begun.1@ is AskHostWindow,
        begun.0.windowless == windowless,
        begun.0.bounds == bounds,
        begun.0.attempt == 0,
        begun.0.last_error is None,
{
}

/// A window with a handle gets the browser as its child, at the bounds that were asked for.
/// One without makes a pause, and it is noted why: because its handle is null, or for the
/// reason that it gives.
pub proof fn lemma_window_hosts_the_browser(
    host: Result<HostWindowInfo, HostWindowError>,
    step: CreationStep,
)
    ensures
        forall|creation: &mut BrowserCreation| #[trigger]
            call_ensures(BrowserCreation::host_window_asked, (creation, host), step) ==> {
                let before = (*creation)@;
                let after = (*final(creation))@;
                match host {
                    Ok(info) => if info.parent_handle.value != 0 {
                        &&& step@ == (CreationStepModel::CreateChild {
                            parent: info.parent_handle,
                            bounds: before.bounds,
                        })
                        &&& after == before
                    } else {
                        &&& step@ is Pause
                        &&& after == (CreationModel {
                            last_error: Some("got null parent window handle"@),
                            ..before
                        })
                    },
                    Err(error) => {
                        let reason = match error {
                            HostWindowError::RawHandleUnavailable =>
                                "failed to obtain raw window handle"@,
                            HostWindowError::SizeOverflow =>
                                "window dimensions exceed i32 limits"@,
                            HostWindowError::WaylandUnsupported =>
                                "wayland embedding is not supported by this prototype; run with X11 backend"@,
                            HostWindowError::UnsupportedHandle =>
                                "unsupported Tao window handle for CEF embedding"@,
                        };
                        &&& step@ is Pause
                        &&& after == (CreationModel { last_error: Some(reason), ..before })
                    },
                }
            },
{
}

/// A browser that CEF has created ends the creation. Without one, rendering off screen fails
/// at once, and else there is a pause. After a pause there is another attempt, but no more
/// than 30 of them: then it fails. The bounds do not change.
pub proof fn lemma_attempts_are_counted(
    tried: &BrowserCreation,
    browser: Option<i32>,
    outcome: CreationStep,
    step: CreationStep,
)
    requires
        call_ensures(BrowserCreation::creation_tried, (tried, browser), outcome),
    ensures
        browser matches Some(browser) ==> outcome@ == CreationStepModel::Created(browser),
        browser is None && tried.windowless ==> outcome@ is Failed,
        browser is None && !tried.windowless ==> outcome@ is Pause,
        forall|creation: &mut BrowserCreation| #[trigger]
            call_ensures(BrowserCreation::paused, (creation,), step) ==> {
                let before = (*creation)@;
                let after = (*final(creation))@;
                &&& before.attempt < 30 ==> {
                    &&& step@ is AskHostWindow
                    &&& after.attempt == before.attempt + 1
                }
                &&& before.attempt >= 30 ==> step@ is Failed && after.attempt == before.attempt
                &&& after.windowless == before.windowless
                &&& after.bounds == before.bounds
                &&& after.last_error == before.last_error
            },
{
}

/// The message of a failure tells the size, and for a browser with a window of its own the
/// place and, if one was noted, the reason.
pub proof fn lemma_failure_tells_why(creation: &BrowserCreation, message: String)
    requires
        call_ensures(BrowserCreation::failure, (creation,), message),
    ensures
        ({
            let width = text::signed_text(creation.bounds.width as int);
            let height = text::signed_text(creation.bounds.height as int);
            let x = text::signed_text(creation.bounds.x as int);
            let y = text::signed_text(creation.bounds.y as int);
            let bounds = width + "x"@ + height + "+"@ + x + ","@ + y;
            &&& creation.windowless ==> message@ == "CEF OSR browser creation failed ("@ + width
                + "x"@ + height + ")."@
            &&& !creation.windowless && creation.last_error is None ==> message@
                == "CEF browser creation failed (bounds="@ + bounds + ")."@
            &&& !creation.windowless && creation.last_error is Some ==> message@
                == "CEF browser creation failed ("@ + creation.last_error->Some_0@ + "; bounds="@
                + bounds + ")."@
        }),
{
}

/// A call on the host of a browser, if it has one.
pub open spec fn on_host(call: CallOf<Seq<char>>) -> SetupStepModel {
    SetupStepModel::Calls(
        SequenceState {
            remaining: seq![
                crate::cef_calls::StepModel {
                    call: CallOf::Host,
                    on_failure: crate::cef_calls::OnFailure::Stop(true),
                },
                crate::cef_calls::StepModel {
                    call,
                    on_failure: crate::cef_calls::OnFailure::Continue,
                },
            ],
            outcome: None,
        },
    )
}

/// A new browser is in the slot of its webview, and in no other. It gets its scripts; then it
/// is moved to its place, unless it renders off screen; then it is told of the focus, unless
/// it has a window of its own and begins with it; then its page is colored, if the
/// application gave a color; and then its developer tools are shown, if they were asked for.
pub proof fn lemma_browser_is_set_up_in_order(
    plan: &WebviewPlan,
    slot: &BrowserSlot,
    other: BrowserSlot,
    browser: i32,
    windowless: bool,
    steps: Vec<SetupStep>,
)
    requires
        other.id() != slot.id(),
    ensures
        forall|browsers: &mut BrowserSlots|
            slot.is_among((*browsers)@) && #[trigger] call_ensures(
                set_up_browser,
                (plan, browsers, slot, browser, windowless),
                steps,
            ) ==> {
                let models = setup_models(steps@);
                let moved: int = if windowless {
                    0
                } else {
                    1
                };
                let focus: int = if windowless || !plan.focused {
                    1
                } else {
                    0
                };
                let colored: int = if plan.events.explicit_background_color {
                    1
                } else {
                    0
                };
                let tools: int = if plan.open_devtools {
                    1
                } else {
                    0
                };
                &&& slot.browser((*final(browsers))@) == Some(browser)
                &&& other.browser((*final(browsers))@) == other.browser((*browsers)@)
                &&& models.len() == 1 + moved + focus + colored + tools
                &&& models[0] is SendInitScripts
                &&& !windowless ==> models[1] == SetupStepModel::MoveChild(plan.rect)
                &&& focus == 1 ==> models[1 + moved] == on_host(
                    CallOf::SetFocus(
                        if plan.focused {
                            1
                        } else {
                            0
                        },
                    ),
                )
                &&& colored == 1 ==> models[1 + moved + focus] == SetupStepModel::Calls(
                    SequenceState {
                        remaining: seq![
                            crate::cef_calls::StepModel {
                                call: CallOf::MainFrame,
                                on_failure: crate::cef_calls::OnFailure::Stop(false),
                            },
                            crate::cef_calls::StepModel {
                                call: CallOf::ExecuteJavaScript {
                                    code: webview::background_script(plan.background_color),
                                    script_url: "tauri-runtime-cef://eval"@,
                                    start_line: 1,
                                },
                                on_failure: crate::cef_calls::OnFailure::Continue,
                            },
                        ],
                        outcome: None,
                    },
                )
                &&& tools == 1 ==> models[1 + moved + focus + colored] == on_host(
                    CallOf::ShowDevTools,
                )
            },
{
    assert forall|call: CallOf<Seq<char>>| #[trigger] on_host(call) == SetupStepModel::Calls(
        webview::host_calls_if_any(Some(browser), call),
    ) by {
        assert(webview::host_calls_if_any(Some(browser), call) =~= (SequenceState {
            remaining: on_host(call)->Calls_0.remaining,
            outcome: None,
        }));
    }
    let painted = SequenceState {
        remaining: seq![
            crate::cef_calls::StepModel {
                call: CallOf::MainFrame,
                on_failure: crate::cef_calls::OnFailure::Stop(false),
            },
            crate::cef_calls::StepModel {
                call: CallOf::ExecuteJavaScript {
                    code: webview::background_script(plan.background_color),
                    script_url: "tauri-runtime-cef://eval"@,
                    start_line: 1,
                },
                on_failure: crate::cef_calls::OnFailure::Continue,
            },
        ],
        outcome: None,
    };
    assert(webview::background_calls(Some(browser), plan.background_color) =~= painted);
}

/// A webview has the label, the slot, the identifier, the bounds and the color that it was
/// planned with and no listeners; it grows with its window, by its shares, if it was to.
pub proof fn lemma_webview_is_as_planned(
    plan: &WebviewPlan,
    label: String,
    slot: BrowserSlot,
    rates: WebviewBounds,
    windowless: bool,
    webview: WebviewWrapper,
)
    requires
        call_ensures(webview_created, (plan, label, slot, rates, windowless), webview),
    ensures
        webview@.label == label@,
        webview@.id == plan.events.webview_id,
        webview@.slot == slot,
        webview@.listeners.len() == 0,
        webview@.background_color == plan.background_color,
        webview@.rect == plan.rect,
        plan.auto_resize ==> webview@.bounds == Some(rates),
        !plan.auto_resize ==> webview@.bounds is None,
        webview@.osr == windowless,
{
}

} // verus!
