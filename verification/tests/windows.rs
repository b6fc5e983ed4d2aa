use tauri_runtime_cef::runtime::color::{rgba_to_cef_color, Color};
use tauri_runtime_cef::runtime::conversions::{
    map_theme, tao_activation_policy, to_tao_theme, ActivationPolicy, BadIcon, CursorIcon,
    CursorIconWrapper, DeviceEventFilter, DeviceEventFilterWrapper, Error, Icon, ResizeDirection,
    ResizeDirectionWrapper, TaoActivationPolicy, TaoCursorIcon, TaoDeviceEventFilter, TaoIcon,
    TaoResizeDirection, TaoTheme, TaoUserAttentionType, Theme, UserAttentionType,
    UserAttentionTypeWrapper,
};
use tauri_runtime_cef::runtime::create_window::{
    apply_fit, kind_of_first_webview, plan_window, window_built, window_created, MonitorSearch,
    WindowParts,
};
use tauri_runtime_cef::runtime::dialog::{error, ErrorNotice};
use tauri_runtime_cef::runtime::dpi::{
    Float64, LogicalPosition, LogicalSize, PhysicalPosition, PhysicalRect, PhysicalSize, PixelUnit,
    Position, Size,
};
use tauri_runtime_cef::runtime::geometry::{
    calculate_window_center_position, fit_window, monitor_of_window, sanitize_bounds_for_window,
    FitRequest, FrameRect, MonitorCandidate,
};
use tauri_runtime_cef::runtime::platform::{BuildOptions, Platform};
use tauri_runtime_cef::runtime::store::WindowIdStore;
use tauri_runtime_cef::runtime::undecorated_resizing::attach_resize_handler;
use tauri_runtime_cef::runtime::webview_events::WebviewKind;
use tauri_runtime_cef::runtime::webview::background_color_script;
use tauri_runtime_cef::runtime::window_builder::{
    PreventOverflowConfig, TitleBarStyle, WindowBuilderWrapper, WindowConfig,
};
use tauri_runtime_cef::text::{decimal, padded_decimal, signed_decimal};

fn options(platform: Platform) -> BuildOptions {
    BuildOptions {
        platform,
        wayland_osr: false,
        unstable: false,
        new_window_opener_optional: false,
        macos_private_api: false,
        tracing: false,
    }
}

fn float(value: f64) -> Float64 {
    Float64 { bits: value.to_bits() }
}

#[test]
fn numbers_are_written_as_usual() {
    assert_eq!(decimal(0), "0");
    assert_eq!(decimal(u64::MAX), format!("{}", u64::MAX));
    assert_eq!(signed_decimal(-17), "-17");
    assert_eq!(signed_decimal(i64::MIN), format!("{}", i64::MIN));
    assert_eq!(padded_decimal(42, 4), "0042");
    assert_eq!(padded_decimal(12345, 4), "2345");
}

#[test]
fn background_scripts_name_their_color() {
    for alpha in 0..=255u8 {
        let script = background_color_script(Color { r: 1, g: 20, b: 255, a: alpha });
        let expected = format!("rgba(1, 20, 255, {:.4})", alpha as f64 / 255.0);
        assert!(script.contains(&expected));
    }
}

#[test]
fn colors_have_the_order_of_cef() {
    assert_eq!(rgba_to_cef_color(Color { r: 1, g: 2, b: 3, a: 4 }), 0x0401_0203);
}

#[test]
fn themes_are_mapped_both_ways() {
    assert_eq!(map_theme(&TaoTheme::Dark), Theme::Dark);
    assert_eq!(map_theme(&TaoTheme::Light), Theme::Light);
    assert_eq!(map_theme(&TaoTheme::Other), Theme::Light);
    assert_eq!(to_tao_theme(Some(Theme::Dark)), Some(TaoTheme::Dark));
    assert_eq!(to_tao_theme(Some(Theme::Other)), None);
    assert_eq!(to_tao_theme(None), None);
}

#[test]
fn names_of_the_window_system_are_found() {
    assert_eq!(
        tao_activation_policy(ActivationPolicy::Accessory),
        TaoActivationPolicy::Accessory
    );
    assert_eq!(
        DeviceEventFilterWrapper::from(DeviceEventFilter::Unfocused).0,
        TaoDeviceEventFilter::Unfocused
    );
    assert_eq!(CursorIconWrapper::from(CursorIcon::Grab).0, TaoCursorIcon::Grab);
    assert_eq!(
        ResizeDirectionWrapper::from(ResizeDirection::NorthEast).0,
        TaoResizeDirection::NorthEast
    );
    assert_eq!(
        UserAttentionTypeWrapper::from(UserAttentionType::Critical).0,
        TaoUserAttentionType::Critical
    );
}

fn icon(bytes: usize, width: u32, height: u32) -> Icon {
    Icon { rgba: vec![7; bytes], width, height }
}

#[test]
fn icons_have_four_bytes_for_each_pixel() {
    let made = TaoIcon::try_from((Platform::Windows, icon(24, 3, 2))).unwrap();
    assert_eq!((made.rgba.len(), made.width, made.height), (24, 3, 2));
    let fault = |icon: Icon| match TaoIcon::try_from((Platform::Windows, icon)) {
        Err(Error::InvalidIcon(fault)) => fault,
        _ => unreachable!(),
    };
    assert_eq!(
        fault(icon(0, 0, 2)),
        BadIcon::DimensionsZero { width: 0, height: 2 }
    );
    assert_eq!(fault(icon(5, 1, 1)), BadIcon::ByteCountNotDivisibleBy4 { byte_count: 5 });
    assert!(matches!(fault(icon(8, 1, 1)), BadIcon::DimensionsVsPixelCount { .. }));
    for bytes in [0, 5, 8] {
        let made = TaoIcon::try_from((Platform::Linux, icon(bytes, 1, 1))).unwrap();
        assert_eq!((made.rgba.len(), made.width, made.height), (bytes, 1, 1));
    }
}

fn rect(x: i32, y: i32, width: u32, height: u32) -> PhysicalRect {
    PhysicalRect {
        position: PhysicalPosition { x, y },
        size: PhysicalSize { width, height },
    }
}

#[test]
fn webviews_are_kept_within_their_window() {
    let window = PhysicalSize { width: 100, height: 50 };
    assert_eq!(sanitize_bounds_for_window(rect(10, 10, 20, 20), window), rect(10, 10, 20, 20));
    assert_eq!(sanitize_bounds_for_window(rect(-5, 0, 20, 20), window), rect(0, 0, 20, 20));
    assert_eq!(sanitize_bounds_for_window(rect(90, 10, 20, 20), window), rect(90, 10, 10, 20));
    assert_eq!(sanitize_bounds_for_window(rect(3, 3, 1, 20), window), rect(0, 0, 100, 50));
    assert_eq!(sanitize_bounds_for_window(rect(300, 0, 20, 20), window), rect(0, 0, 20, 20));
    assert_eq!(sanitize_bounds_for_window(rect(99, 0, 20, 20), window), rect(99, 0, 1, 20));
}

#[test]
fn sanitizing_can_make_bounds_that_are_taken_for_the_window() {
    let window = PhysicalSize { width: 100, height: 50 };
    let once = sanitize_bounds_for_window(rect(99, 0, 20, 20), window);
    assert_eq!(sanitize_bounds_for_window(once, window), rect(0, 0, 100, 50));
}

#[test]
fn a_window_is_on_the_monitor_that_it_begins_on() {
    let candidate = |x: i32, window_x: i32| MonitorCandidate {
        position: PhysicalPosition { x, y: 0 },
        size: PhysicalSize { width: 100, height: 100 },
        window_position: PhysicalPosition { x: window_x, y: 5 },
    };
    assert_eq!(monitor_of_window(&vec![candidate(0, 100), candidate(100, 100)]), Some(1));
    assert_eq!(monitor_of_window(&vec![candidate(0, 100)]), None);
}

#[test]
fn windows_are_centered_in_the_work_area() {
    let position = calculate_window_center_position(
        PhysicalSize { width: 50, height: 30 },
        rect(10, 20, 100, 100),
    );
    assert_eq!((position.x, position.y), (35, 55));
}

#[test]
fn windows_do_not_overflow_their_work_area() {
    let fit = fit_window(FitRequest {
        inner_size: PhysicalSize { width: 300, height: 80 },
        frame: Some(FrameRect { left: -8, top: -31, right: 8 }),
        margin: Some(PhysicalSize { width: 10, height: 10 }),
        work_area: rect(0, 0, 200, 100),
        center: true,
    });
    assert_eq!(fit.inner_size, Some(PhysicalSize { width: 190, height: 59 }));
    assert_eq!(fit.position, Some(PhysicalPosition { x: -3, y: 5 }));
    let kept = fit_window(FitRequest {
        inner_size: PhysicalSize { width: 50, height: 50 },
        frame: None,
        margin: None,
        work_area: rect(0, 0, 200, 100),
        center: false,
    });
    assert_eq!((kept.inner_size, kept.position), (None, None));
    // The shadow of a window that is not centered is of no account.
    let shadowed = fit_window(FitRequest {
        inner_size: PhysicalSize { width: u32::MAX, height: 50 },
        frame: Some(FrameRect { left: i32::MIN, top: 0, right: i32::MAX }),
        margin: None,
        work_area: rect(0, 0, 200, 100),
        center: false,
    });
    assert_eq!((shadowed.inner_size, shadowed.position), (None, None));
}

fn config() -> WindowConfig {
    WindowConfig {
        title: "title".to_string(),
        width: float(640.0),
        height: float(480.0),
        min_width: None,
        min_height: Some(float(100.0)),
        max_width: None,
        max_height: None,
        x: Some(float(1.0)),
        y: Some(float(2.0)),
        center: true,
        prevent_overflow: Some(PreventOverflowConfig::Enable(true)),
        focus: true,
        focusable: true,
        visible: false,
        resizable: true,
        fullscreen: false,
        decorations: false,
        maximized: false,
        transparent: true,
        always_on_bottom: false,
        always_on_top: true,
        visible_on_all_workspaces: false,
        content_protected: true,
        skip_taskbar: true,
        theme: Some(Theme::Dark),
        closable: true,
        maximizable: false,
        minimizable: true,
        shadow: true,
        background_color: Some(Color { r: 1, g: 2, b: 3, a: 4 }),
        window_classname: None,
        hidden_title: false,
        title_bar_style: TitleBarStyle::Visible,
        tabbing_identifier: None,
        traffic_light_position: None,
    }
}

#[test]
fn configured_windows_are_built_as_described() {
    let builder = WindowBuilderWrapper::with_config(options(Platform::Linux), &config());
    assert_eq!(builder.inner.texts.title, "title");
    assert_eq!(
        builder.inner.layout.inner_size,
        Some(Size::Logical(LogicalSize { width: float(640.0), height: float(480.0) }))
    );
    assert_eq!(
        builder.inner.layout.position,
        Some(Position::Logical(LogicalPosition { x: float(1.0), y: float(2.0) }))
    );
    assert!(builder.center);
    assert!(builder.prevent_overflow.is_some());
    assert!(builder.inner.look.transparent);
    assert!(!builder.inner.look.decorations);
    assert!(builder.inner.stacking.always_on_top);
    assert!(!builder.inner.controls.maximizable);
    assert_eq!(builder.get_theme(), Some(Theme::Dark));
    assert!(!builder.has_icon());
}

#[test]
fn builders_bound_their_sizes() {
    let builder = WindowBuilderWrapper::new(options(Platform::Linux))
        .min_inner_size(float(1.0), float(2.0))
        .max_inner_size(float(3.0), float(4.0));
    let bounds = builder.inner.layout.inner_size_constraints;
    assert_eq!(bounds.min_width, Some(PixelUnit::Logical(float(1.0))));
    assert_eq!(bounds.min_height, Some(PixelUnit::Logical(float(2.0))));
    assert_eq!(bounds.max_width, Some(PixelUnit::Logical(float(3.0))));
    assert_eq!(bounds.max_height, Some(PixelUnit::Logical(float(4.0))));
}

#[test]
fn builders_keep_what_they_are_told() {
    let builder = WindowBuilderWrapper::new(options(Platform::Windows))
        .title("window".to_string())
        .inner_size(float(10.0), float(20.0))
        .resizable(false)
        .visible(false)
        .theme(Some(Theme::Light))
        .prevent_overflow();
    assert_eq!(builder.inner.texts.title, "window");
    assert!(!builder.inner.controls.resizable);
    assert!(!builder.inner.state.visible);
    assert_eq!(builder.get_theme(), Some(Theme::Light));
    let builder = builder.icon(icon(4, 1, 1)).unwrap();
    assert!(builder.has_icon());
    assert!(matches!(builder.icon(icon(3, 1, 1)), Err(Error::InvalidIcon(_))));
}

#[test]
fn a_window_is_above_or_below_the_others() {
    let layers = |builder: &WindowBuilderWrapper| {
        let stacking = builder.inner.stacking;
        (stacking.always_on_bottom, stacking.always_on_top)
    };
    let builder = WindowBuilderWrapper::new(options(Platform::Linux)).always_on_bottom(true);
    assert_eq!(layers(&builder), (true, false));
    let builder = builder.always_on_top(true);
    assert_eq!(layers(&builder), (false, true));
    let builder = builder.always_on_bottom(false);
    assert_eq!(layers(&builder), (false, false));
    let mut both = config();
    both.always_on_bottom = true;
    let builder = WindowBuilderWrapper::with_config(options(Platform::Linux), &both);
    assert_eq!(layers(&builder), (false, true));
}

#[test]
fn a_window_has_an_owner_or_a_parent() {
    let ties = |builder: &WindowBuilderWrapper| {
        (builder.inner.windows.owner_window, builder.inner.stacking.parent_window)
    };
    let builder = WindowBuilderWrapper::new(options(Platform::Windows)).owner(3);
    assert_eq!(ties(&builder), (Some(3), None));
    let builder = builder.parent(4);
    assert_eq!(ties(&builder), (None, Some(4)));
    let builder = builder.owner(5);
    assert_eq!(ties(&builder), (Some(5), None));
}

#[test]
fn only_windows_that_are_placed_need_a_monitor() {
    let builder = WindowBuilderWrapper::new(options(Platform::Linux));
    let (builder, plan) = plan_window(builder);
    assert_eq!(plan.monitor, MonitorSearch::Unneeded);
    assert_eq!(
        plan.desired_size,
        Size::Physical(PhysicalSize { width: 800, height: 600 })
    );
    let (builder, plan) = plan_window(builder.center());
    assert_eq!(plan.monitor, MonitorSearch::Primary);
    assert!(plan.center && !plan.with_frame);
    let (_, plan) = plan_window(builder.position(float(1.0), float(2.0)));
    assert!(matches!(plan.monitor, MonitorSearch::At(Position::Logical(_))));
    let (_, plan) = plan_window(WindowBuilderWrapper::new(options(Platform::Ios)).center());
    assert_eq!(plan.monitor, MonitorSearch::Unneeded);
    let (_, plan) = plan_window(WindowBuilderWrapper::new(options(Platform::Windows)));
    assert!(plan.with_frame);
}

#[test]
fn windows_on_macos_are_grouped_only_by_name() {
    let tabbing = |builder: WindowBuilderWrapper| {
        plan_window(builder).0.inner.macos.automatic_window_tabbing
    };
    let new = || WindowBuilderWrapper::new(options(Platform::MacOs));
    assert_eq!(tabbing(new()), Some(false));
    let named = tabbing(new().tabbing_identifier("group"));
    assert_ne!(named, Some(false));
    assert_eq!(tabbing(new().tabbing_identifier("group").decorations(false)), Some(false));
}

#[test]
fn a_fitted_window_gets_its_size_and_position() {
    let builder = WindowBuilderWrapper::new(options(Platform::Linux));
    let size = PhysicalSize { width: 5, height: 6 };
    let builder = apply_fit(builder, Some(size), Some((float(1.0), float(2.0))));
    assert_eq!(builder.inner.layout.inner_size, Some(Size::Physical(size)));
    let builder = apply_fit(builder, None, None);
    assert_eq!(builder.inner.layout.inner_size, Some(Size::Physical(size)));
    assert!(matches!(builder.inner.layout.position, Some(Position::Logical(_))));
}

#[test]
fn a_window_that_was_built_is_known() {
    let mut ids = WindowIdStore::new();
    assert!(matches!(window_built(&mut ids, 3, None), Err(Error::CreateWindow)));
    assert_eq!(ids.get(&77), None);
    assert!(matches!(window_built(&mut ids, 3, Some(77)), Ok(77)));
    assert_eq!(ids.get(&77), Some(3));
    assert_eq!(kind_of_first_webview(options(Platform::Linux)), WebviewKind::WindowContent);
    let mut unstable = options(Platform::Linux);
    unstable.unstable = true;
    assert_eq!(kind_of_first_webview(unstable), WebviewKind::WindowChild);
}

#[test]
fn only_windows_draws_backgrounds_by_itself() {
    let parts = || WindowParts {
        label: "main".to_string(),
        window: 9,
        webview: None,
        background_color: Some(Color { r: 1, g: 2, b: 3, a: 4 }),
        transparent: true,
    };
    let window = window_created(options(Platform::Windows), parts(), true, true);
    assert!(window.surface && window.is_window_transparent && !window.osr_surface);
    assert_eq!(window.label(), "main");
    let window = window_created(options(Platform::Windows), parts(), false, true);
    assert!(!window.surface);
    let window = window_created(options(Platform::Linux), parts(), true, true);
    assert!(!window.surface && window.background_color.is_none());
    assert_eq!(window.inner, Some(9));
}

#[test]
fn errors_are_shown_where_the_user_looks() {
    match error(Platform::Linux, "broken") {
        ErrorNotice::Dialog(text) => assert_eq!(text, "broken"),
        ErrorNotice::Log(_) => unreachable!(),
    }
    match error(Platform::Windows, "broken") {
        ErrorNotice::Log(text) => assert_eq!(text, "Runtime error: broken"),
        ErrorNotice::Dialog(_) => unreachable!(),
    }
    assert!(attach_resize_handler(1).is_empty());
}
