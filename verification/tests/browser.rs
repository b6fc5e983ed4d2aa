use tauri_runtime_cef::browser_slot::{BrowserSlot, BrowserSlots, NavigationReport, NavigationState};
use tauri_runtime_cef::cef_calls::{CallOf, CallSequence, ProcessId, Step};
use tauri_runtime_cef::client::{
    BrowserEvent, DownloadReport, DownloadRequest, FrameReport, ReceivedMessage, RuntimeClient,
    RuntimeClientBuilder,
};
use tauri_runtime_cef::dispatch::{WebviewCommand, WebviewDispatcher};
use tauri_runtime_cef::dispatch_trait::TauriLikeWebviewDispatch;

/// Makes the calls of a sequence, all of them answered alike, and notes them.
fn make(mut calls: CallSequence, answer: i32) -> (Vec<String>, Option<bool>) {
    let mut made = Vec::new();
    while let Some(call) = calls.current() {
        made.push(format!("{call:?}"));
        calls.report(answer);
    }
    (made, calls.outcome())
}

fn slot_with(browser: i32) -> (BrowserSlots, BrowserSlot) {
    let mut browsers = BrowserSlots::new();
    let slot = BrowserSlot::new(&mut browsers);
    slot.set(&mut browsers, Some(browser));
    (browsers, slot)
}

fn empty_slot() -> (BrowserSlots, BrowserSlot) {
    let mut browsers = BrowserSlots::default();
    let slot = BrowserSlot::new(&mut browsers);
    (browsers, slot)
}

#[test]
fn missing_browser_returns_false_for_commands() {
    let (browsers, slot) = empty_slot();
    let dispatcher = WebviewDispatcher::new(slot);
    assert_eq!(
        dispatcher
            .dispatch(&browsers, WebviewCommand::LoadUrl("https://tauri.app".to_string()))
            .outcome(),
        Some(false)
    );
    assert_eq!(
        dispatcher
            .dispatch(&browsers, WebviewCommand::Eval("1 + 1".to_string()))
            .outcome(),
        Some(false)
    );
    assert_eq!(dispatcher.dispatch(&browsers, WebviewCommand::Reload).outcome(), Some(false));
}

#[test]
fn trait_defaults_forward_to_dispatch() {
    let (browsers, slot) = empty_slot();
    let dispatcher = WebviewDispatcher::new(slot);
    let fails = |calls: CallSequence| calls.outcome() == Some(false);
    let url = "https://tauri.app".to_string();
    assert!(fails(TauriLikeWebviewDispatch::navigate(&dispatcher, &browsers, url)));
    let script = "1 + 1".to_string();
    assert!(fails(TauriLikeWebviewDispatch::eval_script(&dispatcher, &browsers, script)));
    assert!(fails(TauriLikeWebviewDispatch::reload(&dispatcher, &browsers)));
    assert!(fails(TauriLikeWebviewDispatch::reload_ignore_cache(&dispatcher, &browsers)));
    assert!(fails(TauriLikeWebviewDispatch::stop_load(&dispatcher, &browsers)));
}

#[test]
fn closing_without_a_browser_succeeds() {
    let (browsers, slot) = empty_slot();
    let dispatcher = WebviewDispatcher::new(slot);
    assert_eq!(dispatcher.close_webview(&browsers, true).outcome(), Some(true));
    assert_eq!(slot.close(&browsers, false).outcome(), Some(true));
}

#[test]
fn copies_of_a_slot_share_its_browser() {
    let (mut browsers, slot) = empty_slot();
    let other = BrowserSlot::new(&mut browsers);
    let copy = slot.clone();
    assert_eq!(copy, slot);
    assert_ne!(other, slot);
    copy.set(&mut browsers, Some(5));
    assert_eq!(slot.current(&browsers), Some(5));
    assert_eq!(other.current(&browsers), None);
    slot.clear(&mut browsers);
    assert_eq!(copy.current(&browsers), None);
}

#[test]
fn a_dispatcher_follows_the_browser_of_its_slot() {
    let (mut browsers, slot) = empty_slot();
    let dispatcher = WebviewDispatcher::new(slot);
    assert_eq!(dispatcher.stop_load(&browsers).outcome(), Some(false));
    slot.set(&mut browsers, Some(7));
    let (made, outcome) = make(dispatcher.stop_load(&browsers), 0);
    assert_eq!((made, outcome), (vec!["StopLoad".to_string()], Some(true)));
    slot.clear(&mut browsers);
    assert_eq!(dispatcher.stop_load(&browsers).outcome(), Some(false));
}

#[test]
fn the_slot_of_an_application_is_the_slot_of_its_client() {
    let (mut browsers, slot) = empty_slot();
    let dispatcher = WebviewDispatcher::new(slot);
    let client = RuntimeClientBuilder::new().with_browser_slot(slot).build(&mut browsers);
    assert!(client.on_after_created(&mut browsers, Some(9)).is_none());
    assert_eq!(slot.current(&browsers), Some(9));
    assert_eq!(dispatcher.reload(&browsers).outcome(), None);
    // The closing of a popup leaves the slot alone.
    assert!(client.on_before_close(&mut browsers, Some(10)).is_none());
    assert_eq!(slot.current(&browsers), Some(9));
    assert!(client.on_before_close(&mut browsers, Some(9)).is_none());
    assert_eq!(slot.current(&browsers), None);
    assert_eq!(dispatcher.reload(&browsers).outcome(), Some(false));
}

#[test]
fn commands_make_their_calls_in_order() {
    let (browsers, slot) = slot_with(7);
    let dispatcher = WebviewDispatcher::new(slot);
    let (made, outcome) = make(dispatcher.navigate(&browsers, "https://tauri.app".to_string()), 1);
    assert_eq!(made, vec!["MainFrame", "LoadUrl(\"https://tauri.app\")"]);
    assert_eq!(outcome, Some(true));

    let (made, outcome) = make(dispatcher.reload_ignore_cache(&browsers), 0);
    assert_eq!(made, vec!["ReloadIgnoreCache"]);
    assert_eq!(outcome, Some(true));

    let (made, _) = make(
        dispatcher.send_process_message(
            &browsers,
            ProcessId::Renderer,
            "name".to_string(),
            Some("payload".to_string()),
        ),
        1,
    );
    assert_eq!(made[0], "MainFrame");
    assert!(made.contains(&"CreateProcessMessage(\"name\")".to_string()));
    assert!(made.contains(&"SetStringArgument(0, \"payload\")".to_string()));
    assert_eq!(made.last().unwrap(), "SendProcessMessage(Renderer)");
}

#[test]
fn nothing_is_sent_after_a_lookup_failed() {
    let (browsers, slot) = slot_with(7);
    let dispatcher = WebviewDispatcher::new(slot);
    let (made, outcome) = make(dispatcher.navigate(&browsers, "https://tauri.app".to_string()), 0);
    assert_eq!(made, vec!["MainFrame"]);
    assert_eq!(outcome, Some(false));
}

#[test]
fn sequences_go_on_or_stop_as_their_steps_say() {
    let steps = vec![
        Step::always(CallOf::Reload),
        Step::required(CallOf::Host),
        Step::always(CallOf::WasResized),
    ];
    let mut calls = CallSequence::of(steps);
    assert!(matches!(calls.current(), Some(CallOf::Reload)));
    calls.report(0);
    assert!(matches!(calls.current(), Some(CallOf::Host)));
    assert_eq!(calls.outcome(), None);
    calls.report(0);
    assert_eq!(calls.outcome(), Some(false));
    assert!(calls.current().is_none());
    assert_eq!(CallSequence::ended(true).outcome(), Some(true));
}

#[test]
fn a_slot_holds_one_browser_until_it_is_cleared() {
    let (mut browsers, slot) = empty_slot();
    assert_eq!(slot.current(&browsers), None);
    slot.set(&mut browsers, Some(3));
    assert_eq!(slot.current(&browsers), Some(3));
    slot.clear(&mut browsers);
    assert_eq!(slot.current(&browsers), None);
}

#[test]
fn navigation_state_is_what_cef_reports() {
    let report = NavigationReport { is_loading: 1, can_go_back: 0, can_go_forward: 5 };
    let (mut browsers, slot) = empty_slot();
    assert_eq!(slot.navigation_state(&browsers, report), None);
    slot.set(&mut browsers, Some(1));
    assert_eq!(
        slot.navigation_state(&browsers, report),
        Some(NavigationState { is_loading: true, can_go_back: false, can_go_forward: true })
    );
    assert_eq!(
        NavigationState::default(),
        NavigationState { is_loading: false, can_go_back: false, can_go_forward: false }
    );
}

#[test]
fn a_browser_goes_back_only_if_it_can() {
    let (browsers, slot) = slot_with(1);
    let (made, outcome) = make(slot.go_back(&browsers), 1);
    assert_eq!(made, vec!["CanGoBack", "GoBack"]);
    assert_eq!(outcome, Some(true));
    let (made, outcome) = make(slot.go_forward(&browsers), 0);
    assert_eq!(made, vec!["CanGoForward"]);
    assert_eq!(outcome, Some(false));
}

fn client() -> RuntimeClient {
    client_among(&mut BrowserSlots::new())
}

fn client_among(browsers: &mut BrowserSlots) -> RuntimeClient {
    RuntimeClientBuilder::new()
        .on_event(1)
        .on_before_browse(2)
        .on_open_url_from_tab(3)
        .on_download_requested(4)
        .on_download_finished(5)
        .build(browsers)
}

#[test]
fn a_client_without_handlers_allows_everything() {
    let mut browsers = BrowserSlots::new();
    let client = RuntimeClientBuilder::default().build(&mut browsers);
    assert!(client.on_before_browse(Some("https://tauri.app".to_string())).is_none());
    assert_eq!(RuntimeClient::navigation_answer(None), 0);
    assert!(client.on_after_created(&mut browsers, Some(1)).is_none());
    assert!(matches!(
        client.on_before_download(None, Some("file".to_string()), true),
        DownloadRequest::TemporaryFile { .. }
    ));
}

#[test]
fn a_client_asks_before_it_navigates() {
    let client = client();
    let query = client.on_before_browse(Some("https://tauri.app".to_string())).unwrap();
    assert_eq!((query.handler, query.url.as_str()), (2, "https://tauri.app"));
    assert_eq!(RuntimeClient::navigation_answer(Some(false)), 1);
    assert_eq!(RuntimeClient::navigation_answer(Some(true)), 0);
    let query = client.on_open_urlfrom_tab(None).unwrap();
    assert_eq!((query.handler, query.url.as_str()), (3, ""));
}

#[test]
fn a_client_holds_its_browser_until_it_closes() {
    let mut browsers = BrowserSlots::new();
    let client = client_among(&mut browsers);
    let emission = client.on_after_created(&mut browsers, Some(11)).unwrap();
    assert!(matches!(emission.event, BrowserEvent::Created { browser_id: 11 }));
    assert_eq!(client.state.browser_slot.current(&browsers), Some(11));
    let emission = client.on_before_close(&mut browsers, Some(11)).unwrap();
    assert!(matches!(emission.event, BrowserEvent::BeforeClose { browser_id: 11 }));
    assert_eq!(client.state.browser_slot.current(&browsers), None);
}

#[test]
fn a_client_reports_titles_and_loading() {
    let (mut browsers, slot) = slot_with(7);
    let client = RuntimeClientBuilder::new()
        .with_browser_slot(slot)
        .on_event(1)
        .build(&mut browsers);
    assert_eq!(client.state.browser_slot.current(&browsers), Some(7));
    let emission = client.on_title_change(Some(7), Some("title".to_string())).unwrap();
    assert_eq!(emission.handler, 1);
    match emission.event {
        BrowserEvent::TitleChanged { browser_id, title } => {
            assert_eq!((browser_id, title.as_str()), (7, "title"))
        }
        _ => unreachable!(),
    }
    let emission = client.on_loading_state_change(Some(7), 1, 0, 2).unwrap();
    assert!(matches!(
        emission.event,
        BrowserEvent::LoadingStateChanged {
            browser_id: 7,
            is_loading: true,
            can_go_back: false,
            can_go_forward: true,
        }
    ));
}

#[test]
fn only_main_frames_report_loads() {
    let client = client();
    let main = FrameReport { is_main: 1, url: "https://tauri.app".to_string() };
    let emission = client.on_load_start(Some(1), Some(main)).unwrap();
    match emission.event {
        BrowserEvent::LoadStarted { browser_id, url } => {
            assert_eq!((browser_id, url.as_str()), (1, "https://tauri.app"))
        }
        _ => unreachable!(),
    }
    let child = FrameReport { is_main: 0, url: "https://tauri.app".to_string() };
    assert!(client.on_load_end(Some(1), Some(child), 200).is_none());
}

#[test]
fn messages_of_pages_reach_the_application() {
    let client = client();
    let frame = FrameReport { is_main: 1, url: "https://tauri.app".to_string() };
    let message = ReceivedMessage {
        name: "ipc".to_string(),
        arguments: Some(vec!["payload".to_string()]),
    };
    let (answer, emission) = client.on_process_message_received(
        Some(4),
        Some(frame),
        ProcessId::Renderer,
        Some(message),
    );
    assert_eq!(answer, 0);
    match emission.unwrap().event {
        BrowserEvent::ProcessMessage { browser_id, name, arguments, .. } => {
            assert_eq!(browser_id, 4);
            assert_eq!(name, "ipc");
            assert_eq!(arguments.last().unwrap(), "payload");
        }
        _ => unreachable!(),
    }
}

#[test]
fn a_download_is_finished_once_it_is_no_longer_in_progress() {
    let client = client();
    let report = |in_progress: i32, complete: i32, canceled: i32| DownloadReport {
        is_in_progress: in_progress,
        is_complete: complete,
        is_canceled: canceled,
        is_interrupted: 0,
        url: "https://tauri.app/file".to_string(),
        full_path: "/tmp/file".to_string(),
    };
    assert!(client.on_download_updated(Some(report(1, 0, 0))).is_none());
    let finished = client.on_download_updated(Some(report(0, 1, 0))).unwrap();
    assert!(finished.success);
    assert_eq!(finished.path.as_deref(), Some("/tmp/file"));
    assert!(!client.on_download_updated(Some(report(0, 1, 1))).unwrap().success);
    assert_eq!(client.can_download(), 1);
    assert_eq!(
        RuntimeClient::download_answer(Some("/tmp/x".to_string())),
        (1, Some("/tmp/x".to_string()))
    );
    assert_eq!(RuntimeClient::download_answer(None), (0, None));
}
