use raw_window_handle::XcbWindowHandle;
use std::num::NonZeroU32;
use tauri_runtime_cef::bootstrap::{
    bootstrap, bootstrap_with_options, AddScriptArguments, AfterExecution, BootstrapError,
    BootstrapOptions, BootstrapOutcome, MessageRouting, ProcessState, RendererInitScripts,
    RendererMessage,
};
use tauri_runtime_cef::cef_calls::{CallSequence, ProcessId};
use tauri_runtime_cef::config::CefRuntimeConfig;
use tauri_runtime_cef::tao_window::{
    cef_null_window_handle, cef_parent_handle_from_raw, cef_window_handle_is_null,
    HostWindowError, HostWindowInfo, RawHandle,
};

#[test]
fn default_config_enables_external_pump() {
    let settings = CefRuntimeConfig::default().into_settings();
    assert_eq!(settings.external_message_pump, 1);
    assert_eq!(settings.multi_threaded_message_loop, 0);
}

#[test]
fn settings_carry_what_was_configured() {
    let mut config = CefRuntimeConfig::default();
    config.cache_path = Some("/tmp/cache".to_string());
    config.background_color = Some(0xff00_0000);
    let settings = config.into_settings();
    assert_eq!(settings.cache_path.as_deref(), Some("/tmp/cache"));
    assert_eq!(settings.root_cache_path, None);
    assert_eq!(settings.background_color, Some(0xff00_0000));
}

#[test]
fn maps_xcb_handle() {
    let raw = XcbWindowHandle::new(NonZeroU32::new(42).unwrap());
    let raw = RawHandle::Xcb { window: raw.window.get() as usize };
    let handle = cef_parent_handle_from_raw(raw).expect("failed to map xcb handle");
    assert_eq!(handle.value, 42);
}

#[test]
fn maps_wayland_handle() {
    let raw = RawHandle::Wayland { surface: 42 };
    let handle = cef_parent_handle_from_raw(raw).expect("failed to map wayland handle");
    assert_eq!(handle.value, 42);
}

#[test]
fn windows_that_cannot_host_a_browser_are_refused() {
    assert_eq!(
        HostWindowInfo::from_tao_window(u32::MAX, 1, Some(RawHandle::Xlib { window: 1 })),
        Err(HostWindowError::SizeOverflow)
    );
    assert_eq!(
        HostWindowInfo::from_tao_window(1, 1, None),
        Err(HostWindowError::RawHandleUnavailable)
    );
    assert_eq!(
        HostWindowInfo::from_tao_window(1, 1, Some(RawHandle::Other)),
        Err(HostWindowError::UnsupportedHandle)
    );
    let info = HostWindowInfo::from_tao_window(3, 4, Some(RawHandle::Win32 { hwnd: 9 })).unwrap();
    assert_eq!((info.width, info.height, info.parent_handle.value), (3, 4, 9));
    assert!(!HostWindowError::UnsupportedHandle.message().is_empty());
}

#[test]
fn only_the_null_handle_is_null() {
    assert!(cef_window_handle_is_null(cef_null_window_handle()));
    let handle = cef_parent_handle_from_raw(RawHandle::AppKit { ns_view: 5 }).unwrap();
    assert!(!cef_window_handle_is_null(handle));
}

fn fresh() -> ProcessState {
    ProcessState {
        renderer_init_scripts_available: false,
        pump_queue_installed: false,
        on_wayland: false,
    }
}

#[test]
fn a_browser_process_is_initialized() {
    let mut process = fresh();
    let started = bootstrap(false, CefRuntimeConfig::default(), &mut process);
    assert!(process.renderer_init_scripts_available);
    assert!(process.pump_queue_installed);
    let execution = started.command_line_parsed(Some(0)).unwrap();
    match execution.executed(-1) {
        AfterExecution::Initialize(initialization) => {
            match initialization.initialized(1, &mut process).unwrap() {
                BootstrapOutcome::Browser(mut cef) => {
                    assert!(cef.shutdown());
                    assert!(!cef.shutdown());
                }
                BootstrapOutcome::Subprocess(_) => unreachable!(),
            }
        }
        AfterExecution::Finished(_) => unreachable!(),
    }
}

#[test]
fn browsers_render_off_screen_on_wayland() {
    for (on_wayland, enabled) in [(true, 1), (false, 0)] {
        let mut process = ProcessState { on_wayland, ..fresh() };
        let started = bootstrap(false, CefRuntimeConfig::default(), &mut process);
        assert_eq!(process.on_wayland, on_wayland);
        match started.command_line_parsed(Some(0)).unwrap().executed(-1) {
            AfterExecution::Initialize(initialization) => {
                assert_eq!(initialization.settings.windowless_rendering_enabled, enabled);
            }
            AfterExecution::Finished(_) => unreachable!(),
        }
    }
}

#[test]
fn a_subprocess_leaves_with_its_code() {
    let mut process = fresh();
    let started = bootstrap_with_options(
        true,
        CefRuntimeConfig::default(),
        BootstrapOptions::default(),
        &mut process,
    );
    assert_eq!(process, fresh());
    match started.command_line_parsed(Some(1)).unwrap().executed(3) {
        AfterExecution::Finished(Ok(BootstrapOutcome::Subprocess(code))) => assert_eq!(code, 3),
        _ => unreachable!(),
    }
}

#[test]
fn each_failure_of_the_start_has_its_error() {
    let mut process = fresh();
    let start = |process: &mut ProcessState| {
        bootstrap(false, CefRuntimeConfig::default(), process)
    };
    assert_eq!(
        start(&mut process).command_line_parsed(None).unwrap_err(),
        BootstrapError::InvalidCommandLine
    );
    match start(&mut process).command_line_parsed(Some(1)).unwrap().executed(-5) {
        AfterExecution::Finished(Err(error)) => {
            assert_eq!(error, BootstrapError::SubprocessExecuteFailed);
            assert_eq!(error.message(), "failed to execute subprocess");
        }
        _ => unreachable!(),
    }
    match start(&mut process).command_line_parsed(Some(0)).unwrap().executed(4) {
        AfterExecution::Finished(Err(error)) => {
            assert_eq!(error, BootstrapError::BrowserExecuteFailed)
        }
        _ => unreachable!(),
    }
    match start(&mut process).command_line_parsed(Some(0)).unwrap().executed(-1) {
        AfterExecution::Initialize(initialization) => {
            let error = initialization.initialized(0, &mut process).unwrap_err();
            assert_eq!(error, BootstrapError::InitializeFailed);
            assert_eq!(process, fresh());
        }
        AfterExecution::Finished(_) => unreachable!(),
    }
}

fn add(script: &str, for_main_frame_only: i32) -> Option<RendererMessage> {
    Some(RendererMessage {
        name: "__TAURI_ADD_INIT_SCRIPT__".to_string(),
        arguments: Some(AddScriptArguments { script: script.to_string(), for_main_frame_only }),
    })
}

fn codes(mut calls: CallSequence) -> Vec<String> {
    let mut codes = Vec::new();
    while let Some(call) = calls.current() {
        codes.push(format!("{call:?}"));
        calls.report(1);
    }
    codes
}

#[test]
fn scripts_run_in_order_in_the_frames_they_are_for() {
    let mut scripts = RendererInitScripts::new();
    let handled = MessageRouting::Handled(1);
    assert_eq!(
        scripts.on_process_message_received(Some(1), ProcessId::Browser, add("first", 1)),
        handled
    );
    assert_eq!(
        scripts.on_process_message_received(Some(1), ProcessId::Browser, add("second", 0)),
        handled
    );
    assert_eq!(
        scripts.on_process_message_received(Some(1), ProcessId::Browser, add("", 0)),
        handled
    );
    let main = codes(scripts.on_context_created(Some(1), Some(1)));
    assert_eq!(main.len(), 2);
    assert!(main[0].contains("\"first\"") && main[1].contains("\"second\""));
    let child = codes(scripts.on_context_created(Some(1), Some(0)));
    assert_eq!(child.len(), 1);
    assert!(child[0].contains("\"second\""));
    assert!(codes(scripts.on_context_created(Some(2), Some(1))).is_empty());
    assert!(codes(scripts.on_context_created(None, Some(1))).is_empty());
}

#[test]
fn other_messages_and_processes_are_left_to_the_router() {
    let mut scripts = RendererInitScripts::new();
    assert_eq!(
        scripts.on_process_message_received(Some(1), ProcessId::Renderer, add("first", 1)),
        MessageRouting::AskRouter
    );
    assert_eq!(
        scripts.on_process_message_received(Some(1), ProcessId::Browser, None),
        MessageRouting::AskRouter
    );
    assert!(codes(scripts.on_context_created(Some(1), Some(1))).is_empty());
}

#[test]
fn clearing_concerns_one_browser() {
    let mut scripts = RendererInitScripts::new();
    let _ = scripts.on_process_message_received(Some(1), ProcessId::Browser, add("first", 0));
    let _ = scripts.on_process_message_received(Some(2), ProcessId::Browser, add("other", 0));
    let clear = RendererMessage {
        name: "__TAURI_CLEAR_INIT_SCRIPTS__".to_string(),
        arguments: None,
    };
    let _ = scripts.on_process_message_received(Some(1), ProcessId::Browser, Some(clear));
    assert!(codes(scripts.on_context_created(Some(1), Some(1))).is_empty());
    assert_eq!(codes(scripts.on_context_created(Some(2), Some(1))).len(), 1);
    scripts.on_browser_destroyed(Some(2));
    assert!(codes(scripts.on_context_created(Some(2), Some(1))).is_empty());
}
