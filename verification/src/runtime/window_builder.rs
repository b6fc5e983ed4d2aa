//! The attributes that windows are built with.

use crate::runtime::color::Color;
use crate::runtime::conversions::{Error, Icon, TaoIcon, TaoTheme, Theme};
use crate::runtime::dpi;
use crate::runtime::dpi::{
    Float64, LogicalPosition, LogicalSize, PhysicalSize, PixelUnit, Position, Size,
    WindowSizeConstraints,
};
use crate::runtime::platform::{BuildOptions, Platform};
use crate::text;
use vstd::prelude::*;

verus! {

/// Where a window is, and how large.
#[derive(Debug, Clone, Copy, PartialEq, Eq, Structural)]
pub struct WindowLayout {
    pub inner_size: Option<Size>,
    pub inner_size_constraints: WindowSizeConstraints,
    pub position: Option<Position>,
}

/// What the user can do to a window.
#[derive(Debug, Clone, Copy, PartialEq, Eq, Structural)]
pub struct WindowControls {
    pub resizable: bool,
    pub minimizable: bool,
    pub maximizable: bool,
    pub closable: bool,
}

/// How a window begins.
#[derive(Debug, Clone, Copy, PartialEq, Eq, Structural)]
pub struct WindowState {
    pub fullscreen: bool,
    pub maximized: bool,
    pub visible: bool,
    pub focused: bool,
    pub focusable: bool,
}

/// How a window is drawn.
#[derive(Debug, Clone, Copy, PartialEq, Eq, Structural)]
pub struct WindowLook {
    pub transparent: bool,
    pub decorations: bool,
    pub preferred_theme: Option<TaoTheme>,
    pub background_color: Option<Color>,
}

/// How a window stands to other windows and applications.
#[derive(Debug, Clone, Copy, PartialEq, Eq, Structural)]
pub struct WindowStacking {
    pub always_on_top: bool,
    pub always_on_bottom: bool,
    pub visible_on_all_workspaces: bool,
    pub content_protection: bool,
    pub parent_window: Option<usize>,
}

/// What is said of a window on Linux; of the task bar on Windows too.
#[derive(Debug, Clone, Copy, PartialEq, Eq, Structural)]
pub struct LinuxAttributes {
    pub cursor_moved_event: Option<bool>,
    pub skip_taskbar: Option<bool>,
    pub transient_for: Option<u64>,
}

/// What is said of a window on Windows.
#[derive(Debug, Clone, Copy, PartialEq, Eq, Structural)]
pub struct WindowsAttributes {
    pub undecorated_shadow: Option<bool>,
    pub owner_window: Option<usize>,
    pub drag_and_drop: Option<bool>,
}

/// What is said of a window on macOS.
#[derive(Debug, Clone, Copy, PartialEq, Eq, Structural)]
pub struct MacOsAttributes {
    pub has_shadow: Option<bool>,
    pub titlebar_transparent: Option<bool>,
    pub fullsize_content_view: Option<bool>,
    pub traffic_light_inset: Option<Position>,
    pub title_hidden: Option<bool>,
    pub automatic_window_tabbing: Option<bool>,
}

/// The text of a window.
#[derive(Debug)]
pub struct WindowTexts {
    pub title: String,
    pub window_classname: Option<String>,
    pub tabbing_identifier: Option<String>,
}

/// The text of a window, as characters.
pub struct TextsModel {
    pub title: Seq<char>,
    pub window_classname: Option<Seq<char>>,
    pub tabbing_identifier: Option<Seq<char>>,
}

impl View for WindowTexts {
    type V = TextsModel;

    open spec fn view(&self) -> TextsModel {
        TextsModel {
            title: self.title@,
            window_classname: text::text_of(self.window_classname),
            tabbing_identifier: text::text_of(self.tabbing_identifier),
        }
    }
}

/// What the window system is told of a window that it builds. An attribute that
/// only some platforms have is `None` where the window system is told nothing of
/// it.
#[derive(Debug)]
pub struct WindowAttributes {
    pub layout: WindowLayout,
    pub controls: WindowControls,
    pub state: WindowState,
    pub look: WindowLook,
    pub stacking: WindowStacking,
    pub linux: LinuxAttributes,
    pub windows: WindowsAttributes,
    pub macos: MacOsAttributes,
    pub window_icon: Option<TaoIcon>,
    pub texts: WindowTexts,
}

/// What the window system is told of a window, with its text as characters.
pub struct AttributesModel {
    pub layout: WindowLayout,
    pub controls: WindowControls,
    pub state: WindowState,
    pub look: WindowLook,
    pub stacking: WindowStacking,
    pub linux: LinuxAttributes,
    pub windows: WindowsAttributes,
    pub macos: MacOsAttributes,
    pub window_icon: Option<TaoIcon>,
    pub texts: TextsModel,
}

impl View for WindowAttributes {
    type V = AttributesModel;

    open spec fn view(&self) -> AttributesModel {
        AttributesModel {
            layout: self.layout,
            controls: self.controls,
            state: self.state,
            look: self.look,
            stacking: self.stacking,
            linux: self.linux,
            windows: self.windows,
            macos: self.macos,
            window_icon: self.window_icon,
            texts: self.texts@,
        }
    }
}

/// The attributes of a window of which nothing was said.
pub open spec fn default_attributes() -> AttributesModel {
    AttributesModel {
        layout: WindowLayout {
            inner_size: None,
            inner_size_constraints: dpi::unconstrained(),
            position: None,
        },
        controls: WindowControls {
            resizable: true,
            minimizable: true,
            maximizable: true,
            closable: true,
        },
        state: WindowState {
            fullscreen: false,
            maximized: false,
            visible: true,
            focused: true,
            focusable: true,
        },
        look: WindowLook {
            transparent: false,
            decorations: true,
            preferred_theme: None,
            background_color: None,
        },
        stacking: WindowStacking {
            always_on_top: false,
            always_on_bottom: false,
            visible_on_all_workspaces: false,
            content_protection: false,
            parent_window: None,
        },
        linux: LinuxAttributes {
            cursor_moved_event: None,
            skip_taskbar: None,
            transient_for: None,
        },
        windows: WindowsAttributes {
            undecorated_shadow: None,
            owner_window: None,
            drag_and_drop: None,
        },
        macos: MacOsAttributes {
            has_shadow: None,
            titlebar_transparent: None,
            fullsize_content_view: None,
            traffic_light_inset: None,
            title_hidden: None,
            automatic_window_tabbing: None,
        },
        window_icon: None,
        texts: TextsModel {
            title: "tao window"@,
            window_classname: None,
            tabbing_identifier: None,
        },
    }
}

impl Default for WindowAttributes {
    fn default() -> (attributes: Self)
        ensures
            attributes@ == default_attributes(),
    {
        WindowAttributes {
            layout: WindowLayout {
                inner_size: None,
                inner_size_constraints: WindowSizeConstraints::default(),
                position: None,
            },
            controls: WindowControls {
                resizable: true,
                minimizable: true,
                maximizable: true,
                closable: true,
            },
            state: WindowState {
                fullscreen: false,
                maximized: false,
                visible: true,
                focused: true,
                focusable: true,
            },
            look: WindowLook {
                transparent: false,
                decorations: true,
                preferred_theme: None,
                background_color: None,
            },
            stacking: WindowStacking {
                always_on_top: false,
                always_on_bottom: false,
                visible_on_all_workspaces: false,
                content_protection: false,
                parent_window: None,
            },
            linux: LinuxAttributes {
                cursor_moved_event: None,
                skip_taskbar: None,
                transient_for: None,
            },
            windows: WindowsAttributes {
                undecorated_shadow: None,
                owner_window: None,
                drag_and_drop: None,
            },
            macos: MacOsAttributes {
                has_shadow: None,
                titlebar_transparent: None,
                fullsize_content_view: None,
                traffic_light_inset: None,
                title_hidden: None,
                automatic_window_tabbing: None,
            },
            window_icon: None,
            texts: WindowTexts {
                title: "tao window".to_string(),
                window_classname: None,
                tabbing_identifier: None,
            },
        }
    }
}

/// How the title bar of a window looks on macOS.
#[derive(Debug, Clone, Copy, PartialEq, Eq, Structural)]
pub enum TitleBarStyle {
    Visible,
    Transparent,
    Overlay,
    /// A style that this library does not know.
    Other,
}

/// A style lets the title bar be seen through.
pub open spec fn is_see_through(style: TitleBarStyle) -> bool {
    style == TitleBarStyle::Transparent || style == TitleBarStyle::Overlay
}

/// A style lets the content cover the whole window.
pub open spec fn is_full_size(style: TitleBarStyle) -> bool {
    style == TitleBarStyle::Visible || style == TitleBarStyle::Overlay
}

/// Whether new windows are kept within the work area of their monitor.
#[derive(Debug, Clone, Copy, PartialEq, Eq, Structural)]
pub enum PreventOverflowConfig {
    Enable(bool),
    Margin { width: u32, height: u32 },
}

/// A window as the configuration of the application describes it.
#[derive(Debug)]
pub struct WindowConfig {
    pub title: String,
    pub width: Float64,
    pub height: Float64,
    pub min_width: Option<Float64>,
    pub min_height: Option<Float64>,
    pub max_width: Option<Float64>,
    pub max_height: Option<Float64>,
    pub x: Option<Float64>,
    pub y: Option<Float64>,
    pub center: bool,
    pub prevent_overflow: Option<PreventOverflowConfig>,
    pub focus: bool,
    pub focusable: bool,
    pub visible: bool,
    pub resizable: bool,
    pub fullscreen: bool,
    pub decorations: bool,
    pub maximized: bool,
    pub transparent: bool,
    pub always_on_bottom: bool,
    pub always_on_top: bool,
    pub visible_on_all_workspaces: bool,
    pub content_protected: bool,
    pub skip_taskbar: bool,
    pub theme: Option<Theme>,
    pub closable: bool,
    pub maximizable: bool,
    pub minimizable: bool,
    pub shadow: bool,
    pub background_color: Option<Color>,
    pub window_classname: Option<String>,
    pub hidden_title: bool,
    pub title_bar_style: TitleBarStyle,
    pub tabbing_identifier: Option<String>,
    pub traffic_light_position: Option<LogicalPosition<Float64>>,
}

/// Maker of windows.
#[derive(Debug)]
pub struct WindowBuilderWrapper {
    pub options: BuildOptions,
    pub inner: WindowAttributes,
    pub center: bool,
    pub prevent_overflow: Option<Size>,
    pub tabbing_identifier: Option<String>,
}

/// Maker of windows, with its text as characters.
pub struct BuilderModel {
    pub options: BuildOptions,
    pub inner: AttributesModel,
    pub center: bool,
    pub prevent_overflow: Option<Size>,
    pub tabbing_identifier: Option<Seq<char>>,
}

impl View for WindowBuilderWrapper {
    type V = BuilderModel;

    open spec fn view(&self) -> BuilderModel {
        BuilderModel {
            options: self.options,
            inner: self.inner@,
            center: self.center,
            prevent_overflow: self.prevent_overflow,
            tabbing_identifier: text::text_of(self.tabbing_identifier),
        }
    }
}

impl BuilderModel {
    /// The builder with other attributes.
    pub open spec fn with_inner(self, inner: AttributesModel) -> BuilderModel {
        BuilderModel { inner, ..self }
    }
}

/// A length in logical units, as a bound of the window size.
pub open spec fn logical_bound(length: Option<Float64>) -> Option<PixelUnit> {
    match length {
        Some(length) => Some(PixelUnit::Logical(length)),
        None => None,
    }
}

fn logical_unit(length: Option<Float64>) -> (unit: Option<PixelUnit>)
    ensures
        unit == logical_bound(length),
{
    match length {
        Some(length) => Some(PixelUnit::Logical(length)),
        None => None,
    }
}

/// The theme that a window is built with: light, unless it is asked to be dark.
pub open spec fn builder_theme(theme: Option<Theme>) -> Option<TaoTheme> {
    match theme {
        Some(Theme::Dark) => Some(TaoTheme::Dark),
        Some(_) => Some(TaoTheme::Light),
        None => None,
    }
}

/// A builder of which nothing was said but what every window begins with.
pub open spec fn new_builder(options: BuildOptions) -> BuilderModel {
    let blank = default_attributes();
    BuilderModel {
        options,
        inner: AttributesModel {
            macos: if options.platform == Platform::MacOs {
                MacOsAttributes {
                    titlebar_transparent: Some(false),
                    fullsize_content_view: Some(true),
                    ..blank.macos
                }
            } else {
                blank.macos
            },
            texts: TextsModel {
                title: "Tauri App"@,
                window_classname: if options.platform == Platform::Windows {
                    Some("Tauri Window"@)
                } else {
                    None
                },
                tabbing_identifier: None,
            },
            ..blank
        },
        center: false,
        prevent_overflow: None,
        tabbing_identifier: None,
    }
}

/// The margin that a configuration keeps to the edges of the work area, if any.
pub open spec fn configured_margin(config: WindowConfig) -> Option<Size> {
    match config.prevent_overflow {
        Some(PreventOverflowConfig::Enable(true)) => Some(
            Size::Physical(PhysicalSize { width: 0, height: 0 }),
        ),
        Some(PreventOverflowConfig::Margin { width, height }) => Some(
            Size::Physical(PhysicalSize { width, height }),
        ),
        _ => None,
    }
}

/// What a configuration says of a window on macOS.
pub open spec fn configured_macos(options: BuildOptions, config: WindowConfig) -> MacOsAttributes {
    let begun = new_builder(options).inner.macos;
    if options.platform == Platform::MacOs {
        MacOsAttributes {
            has_shadow: Some(config.shadow),
            titlebar_transparent: if config.title_bar_style == TitleBarStyle::Other {
                begun.titlebar_transparent
            } else {
                Some(is_see_through(config.title_bar_style))
            },
            fullsize_content_view: if config.title_bar_style == TitleBarStyle::Other {
                begun.fullsize_content_view
            } else {
                Some(is_full_size(config.title_bar_style))
            },
            traffic_light_inset: match config.traffic_light_position {
                Some(position) => Some(Position::Logical(position)),
                None => None,
            },
            title_hidden: Some(config.hidden_title),
            automatic_window_tabbing: None,
        }
    } else {
        begun
    }
}

/// The identifier that a configuration groups windows under, on macOS.
pub open spec fn configured_tabbing(options: BuildOptions, config: WindowConfig) -> Option<
    Seq<char>,
> {
    if options.platform == Platform::MacOs {
        text::text_of(config.tabbing_identifier)
    } else {
        None
    }
}

/// Whether a configuration makes a window transparent.
pub open spec fn configured_transparency(options: BuildOptions, config: WindowConfig) -> bool {
    config.transparent && (options.platform != Platform::MacOs || options.macos_private_api)
}

/// What a configuration says of cursor moves.
pub open spec fn configured_cursor(options: BuildOptions) -> Option<bool> {
    if options.platform == Platform::Linux && !options.wayland_osr {
        Some(false)
    } else {
        None
    }
}

/// The builder that a configuration for a desktop stands for.
pub open spec fn configured_desktop(options: BuildOptions, config: WindowConfig) -> BuilderModel {
    let begun = new_builder(options);
    let platform = options.platform;
    BuilderModel {
        options,
        inner: AttributesModel {
            layout: WindowLayout {
                inner_size: Some(
                    Size::Logical(LogicalSize { width: config.width, height: config.height }),
                ),
                inner_size_constraints: WindowSizeConstraints {
                    min_width: logical_bound(config.min_width),
                    min_height: logical_bound(config.min_height),
                    max_width: logical_bound(config.max_width),
                    max_height: logical_bound(config.max_height),
                },
                position: match (config.x, config.y) {
                    (Some(x), Some(y)) => Some(Position::Logical(LogicalPosition { x, y })),
                    _ => None,
                },
            },
            controls: WindowControls {
                resizable: config.resizable,
                minimizable: config.minimizable,
                maximizable: config.maximizable,
                closable: config.closable,
            },
            state: WindowState {
                fullscreen: config.fullscreen,
                maximized: config.maximized,
                visible: config.visible,
                focused: config.focus,
                focusable: config.focusable,
            },
            look: WindowLook {
                transparent: configured_transparency(options, config),
                decorations: config.decorations,
                preferred_theme: builder_theme(config.theme),
                background_color: config.background_color,
            },
            stacking: WindowStacking {
                always_on_top: config.always_on_top,
                always_on_bottom: false,
                visible_on_all_workspaces: config.visible_on_all_workspaces,
                content_protection: config.content_protected,
                parent_window: None,
            },
            linux: LinuxAttributes {
                cursor_moved_event: configured_cursor(options),
                skip_taskbar: if platform == Platform::MacOs {
                    None
                } else {
                    Some(config.skip_taskbar)
                },
                transient_for: None,
            },
            windows: WindowsAttributes {
                undecorated_shadow: if platform == Platform::Windows {
                    Some(config.shadow)
                } else {
                    None
                },
                owner_window: None,
                drag_and_drop: None,
            },
            macos: configured_macos(options, config),
            window_icon: None,
            texts: TextsModel {
                title: config.title@,
                window_classname: if platform == Platform::Windows && config.window_classname
                    is Some {
                    text::text_of(config.window_classname)
                } else {
                    begun.inner.texts.window_classname
                },
                tabbing_identifier: configured_tabbing(options, config),
            },
        },
        center: config.center,
        prevent_overflow: configured_margin(config),
        tabbing_identifier: configured_tabbing(options, config),
    }
}

/// The builder that a configuration stands for. Without a desktop, transparency is
/// all that it decides.
pub open spec fn configured(options: BuildOptions, config: WindowConfig) -> BuilderModel {
    if options.platform.is_desktop_spec() {
        configured_desktop(options, config)
    } else {
        let begun = new_builder(options);
        begun.with_inner(
            AttributesModel {
                look: WindowLook { transparent: config.transparent, ..begun.inner.look },
                ..begun.inner
            },
        )
    }
}

/// The builder of a desktop window once its platform has been looked at.
pub open spec fn configured_platform(options: BuildOptions, config: WindowConfig) -> BuilderModel {
    let begun = new_builder(options);
    BuilderModel {
        inner: AttributesModel {
            look: WindowLook {
                transparent: configured_transparency(options, config),
                ..begun.inner.look
            },
            linux: LinuxAttributes {
                cursor_moved_event: configured_cursor(options),
                ..begun.inner.linux
            },
            macos: MacOsAttributes { has_shadow: None, ..configured_macos(options, config) },
            texts: TextsModel {
                tabbing_identifier: configured_tabbing(options, config),
                ..begun.inner.texts
            },
            ..begun.inner
        },
        tabbing_identifier: configured_tabbing(options, config),
        ..begun
    }
}

impl WindowBuilderWrapper {
    /// A builder of which nothing was said.
    fn blank(options: BuildOptions) -> (builder: Self)
        ensures
            builder@ == (BuilderModel {
                options,
                inner: default_attributes(),
                center: false,
                prevent_overflow: None,
                tabbing_identifier: None,
            }),
    {
        WindowBuilderWrapper {
            options,
            inner: WindowAttributes::default(),
            center: false,
            prevent_overflow: None,
            tabbing_identifier: None,
        }
    }

    /// A builder with what every window begins with.
    pub fn new(options: BuildOptions) -> (builder: Self)
        ensures
            builder@ == new_builder(options),
    {
        let mut builder = WindowBuilderWrapper::blank(options).focused(true);
        if options.platform == Platform::MacOs {
            // Without a full-size content view the developer tools push the content
            // out of the window.
            builder = builder.title_bar_style(TitleBarStyle::Visible);
        }
        builder = builder.title("Tauri App".to_string());
        if options.platform == Platform::Windows {
            builder = builder.window_classname("Tauri Window".to_string());
        }
        builder
    }

    /// The builder of a window that a configuration describes.
    pub fn with_config(options: BuildOptions, config: &WindowConfig) -> (builder: Self)
        ensures
            builder@ == configured(options, *config),
    {
        let mut window = WindowBuilderWrapper::new(options);
        if options.platform == Platform::MacOs {
            window = window.hidden_title(config.hidden_title).title_bar_style(
                config.title_bar_style,
            );
            if let Some(identifier) = &config.tabbing_identifier {
                window = window.tabbing_identifier(identifier.as_str());
            }
            if let Some(position) = config.traffic_light_position {
                window = window.traffic_light_position(Position::Logical(position));
            }
        }
        if options.platform != Platform::MacOs || options.macos_private_api {
            window = window.transparent(config.transparent);
        }
        if options.platform == Platform::Linux && !options.wayland_osr {
            // Cursor moves would saturate the event loop. Off-screen browsers need
            // them to find what is under the cursor.
            window = window.cursor_moved_event(false);
        }
        if options.platform.is_desktop() {
            assert(window@ == configured_platform(options, *config));
            window.configure_desktop(config)
        } else {
            window
        }
    }

    /// Applies what a configuration says of windows on a desktop.
    fn configure_desktop(self, config: &WindowConfig) -> (builder: Self)
        requires
            self.options.platform.is_desktop_spec(),
            self@ == configured_platform(self.options, *config),
        ensures
            builder@ == configured_desktop(self.options, *config),
    {
        self.configure_controls(config).configure_stacking(config).configure_look(
            config,
        ).configure_layout(config)
    }

    /// Applies what a configuration says of how a window begins, and of what the user
    /// can do to it.
    fn configure_controls(self, config: &WindowConfig) -> (builder: Self)
        ensures
            builder@ == self@.with_inner(
                AttributesModel {
                    controls: WindowControls {
                        resizable: config.resizable,
                        minimizable: config.minimizable,
                        maximizable: config.maximizable,
                        closable: config.closable,
                    },
                    state: WindowState {
                        fullscreen: config.fullscreen,
                        maximized: config.maximized,
                        visible: config.visible,
                        focused: config.focus,
                        focusable: config.focusable,
                    },
                    ..self@.inner
                },
            ),
    {
        self.focused(config.focus).focusable(config.focusable).visible(config.visible).resizable(
            config.resizable,
        ).fullscreen(config.fullscreen).maximized(config.maximized).closable(
            config.closable,
        ).maximizable(config.maximizable).minimizable(config.minimizable)
    }

    /// Applies what a configuration says of a window among others. What it says of the
    /// top comes last, so that the window is never kept below all others.
    fn configure_stacking(self, config: &WindowConfig) -> (builder: Self)
        ensures
            builder@ == self@.with_inner(
                AttributesModel {
                    stacking: WindowStacking {
                        always_on_top: config.always_on_top,
                        always_on_bottom: false,
                        visible_on_all_workspaces: config.visible_on_all_workspaces,
                        content_protection: config.content_protected,
                        ..self@.inner.stacking
                    },
                    ..self@.inner
                },
            ),
    {
        self.always_on_bottom(config.always_on_bottom).always_on_top(
            config.always_on_top,
        ).visible_on_all_workspaces(config.visible_on_all_workspaces).content_protected(
            config.content_protected,
        )
    }

    /// Applies what a configuration says of the title, the frame and the theme of a
    /// window, and of the task bar.
    fn configure_look(self, config: &WindowConfig) -> (builder: Self)
        requires
            self.options.platform.is_desktop_spec(),
        ensures
            builder@ == self@.with_inner(
                AttributesModel {
                    look: WindowLook {
                        decorations: config.decorations,
                        preferred_theme: builder_theme(config.theme),
                        ..self@.inner.look
                    },
                    linux: LinuxAttributes {
                        skip_taskbar: if self.options.platform == Platform::MacOs {
                            self@.inner.linux.skip_taskbar
                        } else {
                            Some(config.skip_taskbar)
                        },
                        ..self@.inner.linux
                    },
                    windows: WindowsAttributes {
                        undecorated_shadow: if self.options.platform == Platform::Windows {
                            Some(config.shadow)
                        } else {
                            self@.inner.windows.undecorated_shadow
                        },
                        ..self@.inner.windows
                    },
                    macos: MacOsAttributes {
                        has_shadow: if self.options.platform == Platform::MacOs {
                            Some(config.shadow)
                        } else {
                            self@.inner.macos.has_shadow
                        },
                        ..self@.inner.macos
                    },
                    texts: TextsModel { title: config.title@, ..self@.inner.texts },
                    ..self@.inner
                },
            ),
    {
        self.title(config.title.clone()).decorations(config.decorations).skip_taskbar(
            config.skip_taskbar,
        ).theme(config.theme).shadow(config.shadow)
    }

    /// Applies what a configuration says of the place of a window, of its background
    /// and of its class.
    fn configure_layout(self, config: &WindowConfig) -> (builder: Self)
        requires
            !self.center,
            self.prevent_overflow is None,
            self.inner.layout.position is None,
            self.inner.look.background_color is None,
        ensures
            builder@ == (BuilderModel {
                inner: AttributesModel {
                    layout: configured_desktop(self.options, *config).inner.layout,
                    look: WindowLook {
                        background_color: config.background_color,
                        ..self@.inner.look
                    },
                    texts: TextsModel {
                        window_classname: if self.options.platform == Platform::Windows
                            && config.window_classname is Some {
                            text::text_of(config.window_classname)
                        } else {
                            self@.inner.texts.window_classname
                        },
                        ..self@.inner.texts
                    },
                    ..self@.inner
                },
                center: config.center,
                prevent_overflow: configured_margin(*config),
                ..self@
            }),
    {
        let constraints = WindowSizeConstraints {
            min_width: logical_unit(config.min_width),
            min_height: logical_unit(config.min_height),
            max_width: logical_unit(config.max_width),
            max_height: logical_unit(config.max_height),
        };
        let mut window = self.inner_size(config.width, config.height);
        if let Some(color) = config.background_color {
            window = window.background_color(color);
        }
        window = window.inner_size_constraints(constraints);
        if let (Some(x), Some(y)) = (config.x, config.y) {
            window = window.position(x, y);
        }
        if config.center {
            window = window.center();
        }
        if let Some(window_classname) = &config.window_classname {
            window = window.window_classname(window_classname.clone());
        }
        match config.prevent_overflow {
            Some(PreventOverflowConfig::Enable(true)) => window.prevent_overflow(),
            Some(PreventOverflowConfig::Margin { width, height }) => {
                window.prevent_overflow_with_margin(
                    Size::Physical(PhysicalSize { width, height }),
                )
            },
            _ => window,
        }
    }

    /// Puts the window into the center of its monitor.
    pub fn center(self) -> (builder: Self)
        ensures
            builder@ == (BuilderModel { center: true, ..self@ }),
    {
        WindowBuilderWrapper { center: true, ..self }
    }

    /// Puts the window at a position in logical units.
    pub fn position(self, x: Float64, y: Float64) -> (builder: Self)
        ensures
            builder@ == self@.with_inner(
                AttributesModel {
                    layout: WindowLayout {
                        position: Some(Position::Logical(LogicalPosition { x, y })),
                        ..self@.inner.layout
                    },
                    ..self@.inner
                },
            ),
    {
        let layout = WindowLayout {
            position: Some(Position::Logical(LogicalPosition { x, y })),
            ..self.inner.layout
        };
        WindowBuilderWrapper { inner: WindowAttributes { layout, ..self.inner }, ..self }
    }

    /// Gives the window a size in logical units.
    pub fn inner_size(self, width: Float64, height: Float64) -> (builder: Self)
        ensures
            builder@ == self@.with_inner(
                AttributesModel {
                    layout: WindowLayout {
                        inner_size: Some(Size::Logical(LogicalSize { width, height })),
                        ..self@.inner.layout
                    },
                    ..self@.inner
                },
            ),
    {
        let layout = WindowLayout {
            inner_size: Some(Size::Logical(LogicalSize { width, height })),
            ..self.inner.layout
        };
        WindowBuilderWrapper { inner: WindowAttributes { layout, ..self.inner }, ..self }
    }

    /// Bounds the size of the window from below, in logical units.
    pub fn min_inner_size(self, min_width: Float64, min_height: Float64) -> (builder: Self)
        ensures
            builder@ == self@.with_inner(
                AttributesModel {
                    layout: WindowLayout {
                        inner_size_constraints: WindowSizeConstraints {
                            min_width: Some(PixelUnit::Logical(min_width)),
                            min_height: Some(PixelUnit::Logical(min_height)),
                            ..self@.inner.layout.inner_size_constraints
                        },
                        ..self@.inner.layout
                    },
                    ..self@.inner
                },
            ),
    {
        let layout = WindowLayout {
            inner_size_constraints: WindowSizeConstraints {
                min_width: Some(PixelUnit::Logical(min_width)),
                min_height: Some(PixelUnit::Logical(min_height)),
                ..self.inner.layout.inner_size_constraints
            },
            ..self.inner.layout
        };
        WindowBuilderWrapper { inner: WindowAttributes { layout, ..self.inner }, ..self }
    }

    /// Bounds the size of the window from above, in logical units.
    pub fn max_inner_size(self, max_width: Float64, max_height: Float64) -> (builder: Self)
        ensures
            builder@ == self@.with_inner(
                AttributesModel {
                    layout: WindowLayout {
                        inner_size_constraints: WindowSizeConstraints {
                            max_width: Some(PixelUnit::Logical(max_width)),
                            max_height: Some(PixelUnit::Logical(max_height)),
                            ..self@.inner.layout.inner_size_constraints
                        },
                        ..self@.inner.layout
                    },
                    ..self@.inner
                },
            ),
    {
        let layout = WindowLayout {
            inner_size_constraints: WindowSizeConstraints {
                max_width: Some(PixelUnit::Logical(max_width)),
                max_height: Some(PixelUnit::Logical(max_height)),
                ..self.inner.layout.inner_size_constraints
            },
            ..self.inner.layout
        };
        WindowBuilderWrapper { inner: WindowAttributes { layout, ..self.inner }, ..self }
    }

    /// Bounds the size of the window.
    pub fn inner_size_constraints(self, constraints: WindowSizeConstraints) -> (builder: Self)
        ensures
            builder@ == self@.with_inner(
                AttributesModel {
                    layout: WindowLayout {
                        inner_size_constraints: constraints,
                        ..self@.inner.layout
                    },
                    ..self@.inner
                },
            ),
    {
        let layout = WindowLayout { inner_size_constraints: constraints, ..self.inner.layout };
        WindowBuilderWrapper { inner: WindowAttributes { layout, ..self.inner }, ..self }
    }

    /// Keeps the window within the work area of its monitor when it is created.
    pub fn prevent_overflow(self) -> (builder: Self)
        ensures
            builder@ == (BuilderModel {
                prevent_overflow: Some(Size::Physical(PhysicalSize { width: 0, height: 0 })),
                ..self@
            }),
    {
        self.prevent_overflow_with_margin(Size::Physical(PhysicalSize { width: 0, height: 0 }))
    }

    /// Keeps the window within the work area of its monitor, with a margin, when it
    /// is created.
    pub fn prevent_overflow_with_margin(self, margin: Size) -> (builder: Self)
        ensures
            builder@ == (BuilderModel { prevent_overflow: Some(margin), ..self@ }),
    {
        WindowBuilderWrapper { prevent_overflow: Some(margin), ..self }
    }

    /// Lets the user resize the window or not.
    pub fn resizable(self, resizable: bool) -> (builder: Self)
        ensures
            builder@ == self@.with_inner(
                AttributesModel {
                    controls: WindowControls { resizable, ..self@.inner.controls },
                    ..self@.inner
                },
            ),
    {
        let controls = WindowControls { resizable, ..self.inner.controls };
        WindowBuilderWrapper { inner: WindowAttributes { controls, ..self.inner }, ..self }
    }

    /// Lets the user maximize the window or not.
    pub fn maximizable(self, maximizable: bool) -> (builder: Self)
        ensures
            builder@ == self@.with_inner(
                AttributesModel {
                    controls: WindowControls { maximizable, ..self@.inner.controls },
                    ..self@.inner
                },
            ),
    {
        let controls = WindowControls { maximizable, ..self.inner.controls };
        WindowBuilderWrapper { inner: WindowAttributes { controls, ..self.inner }, ..self }
    }

    /// Lets the user minimize the window or not.
    pub fn minimizable(self, minimizable: bool) -> (builder: Self)
        ensures
            builder@ == self@.with_inner(
                AttributesModel {
                    controls: WindowControls { minimizable, ..self@.inner.controls },
                    ..self@.inner
                },
            ),
    {
        let controls = WindowControls { minimizable, ..self.inner.controls };
        WindowBuilderWrapper { inner: WindowAttributes { controls, ..self.inner }, ..self }
    }

    /// Lets the user close the window or not.
    pub fn closable(self, closable: bool) -> (builder: Self)
        ensures
            builder@ == self@.with_inner(
                AttributesModel {
                    controls: WindowControls { closable, ..self@.inner.controls },
                    ..self@.inner
                },
            ),
    {
        let controls = WindowControls { closable, ..self.inner.controls };
        WindowBuilderWrapper { inner: WindowAttributes { controls, ..self.inner }, ..self }
    }

    /// Lets the window fill the screen or not.
    pub fn fullscreen(self, fullscreen: bool) -> (builder: Self)
        ensures
            builder@ == self@.with_inner(
                AttributesModel {
                    state: WindowState { fullscreen, ..self@.inner.state },
                    ..self@.inner
                },
            ),
    {
        let state = WindowState { fullscreen, ..self.inner.state };
        WindowBuilderWrapper { inner: WindowAttributes { state, ..self.inner }, ..self }
    }

    /// Gives the window the focus or not.
    pub fn focused(self, focused: bool) -> (builder: Self)
        ensures
            builder@ == self@.with_inner(
                AttributesModel {
                    state: WindowState { focused, ..self@.inner.state },
                    ..self@.inner
                },
            ),
    {
        let state = WindowState { focused, ..self.inner.state };
        WindowBuilderWrapper { inner: WindowAttributes { state, ..self.inner }, ..self }
    }

    /// Lets the window have the focus or not.
    pub fn focusable(self, focusable: bool) -> (builder: Self)
        ensures
            builder@ == self@.with_inner(
                AttributesModel {
                    state: WindowState { focusable, ..self@.inner.state },
                    ..self@.inner
                },
            ),
    {
        let state = WindowState { focusable, ..self.inner.state };
        WindowBuilderWrapper { inner: WindowAttributes { state, ..self.inner }, ..self }
    }

    /// Maximizes the window or not.
    pub fn maximized(self, maximized: bool) -> (builder: Self)
        ensures
            builder@ == self@.with_inner(
                AttributesModel {
                    state: WindowState { maximized, ..self@.inner.state },
                    ..self@.inner
                },
            ),
    {
        let state = WindowState { maximized, ..self.inner.state };
        WindowBuilderWrapper { inner: WindowAttributes { state, ..self.inner }, ..self }
    }

    /// Shows the window or not.
    pub fn visible(self, visible: bool) -> (builder: Self)
        ensures
            builder@ == self@.with_inner(
                AttributesModel {
                    state: WindowState { visible, ..self@.inner.state },
                    ..self@.inner
                },
            ),
    {
        let state = WindowState { visible, ..self.inner.state };
        WindowBuilderWrapper { inner: WindowAttributes { state, ..self.inner }, ..self }
    }

    /// Makes the window transparent or not.
    pub fn transparent(self, transparent: bool) -> (builder: Self)
        ensures
            builder@ == self@.with_inner(
                AttributesModel {
                    look: WindowLook { transparent, ..self@.inner.look },
                    ..self@.inner
                },
            ),
    {
        let look = WindowLook { transparent, ..self.inner.look };
        WindowBuilderWrapper { inner: WindowAttributes { look, ..self.inner }, ..self }
    }

    /// Gives the window borders and bars or not.
    pub fn decorations(self, decorations: bool) -> (builder: Self)
        ensures
            builder@ == self@.with_inner(
                AttributesModel {
                    look: WindowLook { decorations, ..self@.inner.look },
                    ..self@.inner
                },
            ),
    {
        let look = WindowLook { decorations, ..self.inner.look };
        WindowBuilderWrapper { inner: WindowAttributes { look, ..self.inner }, ..self }
    }

    /// Keeps the window below all others or not. It is not kept above them any more.
    pub fn always_on_bottom(self, always_on_bottom: bool) -> (builder: Self)
        ensures
            builder@ == self@.with_inner(
                AttributesModel {
                    stacking: WindowStacking {
                        always_on_bottom,
                        always_on_top: false,
                        ..self@.inner.stacking
                    },
                    ..self@.inner
                },
            ),
    {
        let stacking = WindowStacking {
            always_on_bottom,
            always_on_top: false,
            ..self.inner.stacking
        };
        WindowBuilderWrapper { inner: WindowAttributes { stacking, ..self.inner }, ..self }
    }

    /// Keeps the window above all others or not. It is not kept below them any more.
    pub fn always_on_top(self, always_on_top: bool) -> (builder: Self)
        ensures
            builder@ == self@.with_inner(
                AttributesModel {
                    stacking: WindowStacking {
                        always_on_top,
                        always_on_bottom: false,
                        ..self@.inner.stacking
                    },
                    ..self@.inner
                },
            ),
    {
        let stacking = WindowStacking {
            always_on_top,
            always_on_bottom: false,
            ..self.inner.stacking
        };
        WindowBuilderWrapper { inner: WindowAttributes { stacking, ..self.inner }, ..self }
    }

    /// Shows the window on all workspaces or not.
    pub fn visible_on_all_workspaces(self, visible_on_all_workspaces: bool) -> (builder: Self)
        ensures
            builder@ == self@.with_inner(
                AttributesModel {
                    stacking: WindowStacking { visible_on_all_workspaces, ..self@.inner.stacking },
                    ..self@.inner
                },
            ),
    {
        let stacking = WindowStacking { visible_on_all_workspaces, ..self.inner.stacking };
        WindowBuilderWrapper { inner: WindowAttributes { stacking, ..self.inner }, ..self }
    }

    /// Keeps other applications from capturing the window or not.
    pub fn content_protected(self, protected: bool) -> (builder: Self)
        ensures
            builder@ == self@.with_inner(
                AttributesModel {
                    stacking: WindowStacking {
                        content_protection: protected,
                        ..self@.inner.stacking
                    },
                    ..self@.inner
                },
            ),
    {
        let stacking = WindowStacking { content_protection: protected, ..self.inner.stacking };
        WindowBuilderWrapper { inner: WindowAttributes { stacking, ..self.inner }, ..self }
    }

    /// Gives the window an owner, by its handle. It has no parent any more.
    pub fn owner(self, owner: usize) -> (builder: Self)
        ensures
            builder@ == self@.with_inner(
                AttributesModel {
                    stacking: WindowStacking { parent_window: None, ..self@.inner.stacking },
                    windows: WindowsAttributes { owner_window: Some(owner), ..self@.inner.windows },
                    ..self@.inner
                },
            ),
    {
        let stacking = WindowStacking { parent_window: None, ..self.inner.stacking };
        let windows = WindowsAttributes { owner_window: Some(owner), ..self.inner.windows };
        WindowBuilderWrapper {
            inner: WindowAttributes { stacking, windows, ..self.inner },
            ..self
        }
    }

    /// Gives the window a parent, by its handle. It has no owner any more.
    pub fn parent(self, parent: usize) -> (builder: Self)
        ensures
            builder@ == self@.with_inner(
                AttributesModel {
                    stacking: WindowStacking {
                        parent_window: Some(parent),
                        ..self@.inner.stacking
                    },
                    windows: WindowsAttributes { owner_window: None, ..self@.inner.windows },
                    ..self@.inner
                },
            ),
    {
        let stacking = WindowStacking { parent_window: Some(parent), ..self.inner.stacking };
        let windows = WindowsAttributes { owner_window: None, ..self.inner.windows };
        WindowBuilderWrapper {
            inner: WindowAttributes { stacking, windows, ..self.inner },
            ..self
        }
    }

    /// Makes the window transient for another.
    pub fn transient_for(self, parent: u64) -> (builder: Self)
        ensures
            builder@ == self@.with_inner(
                AttributesModel {
                    linux: LinuxAttributes { transient_for: Some(parent), ..self@.inner.linux },
                    ..self@.inner
                },
            ),
    {
        let linux = LinuxAttributes { transient_for: Some(parent), ..self.inner.linux };
        WindowBuilderWrapper { inner: WindowAttributes { linux, ..self.inner }, ..self }
    }

    /// Lets files be dropped on the window or not.
    pub fn drag_and_drop(self, enabled: bool) -> (builder: Self)
        ensures
            builder@ == self@.with_inner(
                AttributesModel {
                    windows: WindowsAttributes {
                        drag_and_drop: Some(enabled),
                        ..self@.inner.windows
                    },
                    ..self@.inner
                },
            ),
    {
        let windows = WindowsAttributes { drag_and_drop: Some(enabled), ..self.inner.windows };
        WindowBuilderWrapper { inner: WindowAttributes { windows, ..self.inner }, ..self }
    }

    /// Moves the window buttons of macOS.
    pub fn traffic_light_position(self, position: Position) -> (builder: Self)
        ensures
            builder@ == self@.with_inner(
                AttributesModel {
                    macos: MacOsAttributes {
                        traffic_light_inset: Some(position),
                        ..self@.inner.macos
                    },
                    ..self@.inner
                },
            ),
    {
        let macos = MacOsAttributes { traffic_light_inset: Some(position), ..self.inner.macos };
        WindowBuilderWrapper { inner: WindowAttributes { macos, ..self.inner }, ..self }
    }

    /// Hides the title or not.
    pub fn hidden_title(self, hidden: bool) -> (builder: Self)
        ensures
            builder@ == self@.with_inner(
                AttributesModel {
                    macos: MacOsAttributes { title_hidden: Some(hidden), ..self@.inner.macos },
                    ..self@.inner
                },
            ),
    {
        let macos = MacOsAttributes { title_hidden: Some(hidden), ..self.inner.macos };
        WindowBuilderWrapper { inner: WindowAttributes { macos, ..self.inner }, ..self }
    }

    /// Gives the window a background color.
    pub fn background_color(self, color: Color) -> (builder: Self)
        ensures
            builder@ == self@.with_inner(
                AttributesModel {
                    look: WindowLook { background_color: Some(color), ..self@.inner.look },
                    ..self@.inner
                },
            ),
    {
        let look = WindowLook { background_color: Some(color), ..self.inner.look };
        WindowBuilderWrapper { inner: WindowAttributes { look, ..self.inner }, ..self }
    }

    /// Lets the system group the window with others or not.
    pub fn automatic_window_tabbing(self, enabled: bool) -> (builder: Self)
        ensures
            builder@ == self@.with_inner(
                AttributesModel {
                    macos: MacOsAttributes {
                        automatic_window_tabbing: Some(enabled),
                        ..self@.inner.macos
                    },
                    ..self@.inner
                },
            ),
    {
        let macos = MacOsAttributes { automatic_window_tabbing: Some(enabled), ..self.inner.macos };
        WindowBuilderWrapper { inner: WindowAttributes { macos, ..self.inner }, ..self }
    }

    /// Lets the window report cursor moves or not.
    pub fn cursor_moved_event(self, enabled: bool) -> (builder: Self)
        ensures
            builder@ == self@.with_inner(
                AttributesModel {
                    linux: LinuxAttributes {
                        cursor_moved_event: Some(enabled),
                        ..self@.inner.linux
                    },
                    ..self@.inner
                },
            ),
    {
        let linux = LinuxAttributes { cursor_moved_event: Some(enabled), ..self.inner.linux };
        WindowBuilderWrapper { inner: WindowAttributes { linux, ..self.inner }, ..self }
    }

    /// Gives the window a title.
    pub fn title(self, title: String) -> (builder: Self)
        ensures
            builder@ == self@.with_inner(
                AttributesModel {
                    texts: TextsModel {
                        title: title@,
                        ..self@.inner.texts
                    },
                    ..self@.inner
                },
            ),
    {
        let texts = WindowTexts { title: title, ..self.inner.texts };
        WindowBuilderWrapper { inner: WindowAttributes { texts, ..self.inner }, ..self }
    }

    /// Gives the window a class name, on Windows.
    pub fn window_classname(self, window_classname: String) -> (builder: Self)
        ensures
            builder@ == self@.with_inner(
                AttributesModel {
                    texts: TextsModel {
                        window_classname: if self@.options.platform == Platform::Windows {
                            Some(window_classname@)
                        } else {
                            self@.inner.texts.window_classname
                        },
                        ..self@.inner.texts
                    },
                    ..self@.inner
                },
            ),
    {
        if self.options.platform == Platform::Windows {
            let texts = WindowTexts {
                window_classname: Some(window_classname),
                ..self.inner.texts
            };
            WindowBuilderWrapper { inner: WindowAttributes { texts, ..self.inner }, ..self }
        } else {
            self
        }
    }

    /// Groups the window with others of the same identifier.
    pub fn tabbing_identifier(self, identifier: &str) -> (builder: Self)
        ensures
            builder@ == (BuilderModel {
                inner: AttributesModel {
                    texts: TextsModel {
                        tabbing_identifier: Some(identifier@),
                        ..self@.inner.texts
                    },
                    ..self@.inner
                },
                tabbing_identifier: Some(identifier@),
                ..self@
            }),
    {
        let texts = WindowTexts {
            tabbing_identifier: Some(identifier.to_string()),
            ..self.inner.texts
        };
        WindowBuilderWrapper {
            inner: WindowAttributes { texts, ..self.inner },
            tabbing_identifier: Some(identifier.to_string()),
            ..self
        }
    }

    /// Gives the window a shadow or not, where the window system can.
    pub fn shadow(self, enable: bool) -> (builder: Self)
        ensures
            builder@ == self@.with_inner(
                AttributesModel {
                    windows: if self@.options.platform == Platform::Windows {
                        WindowsAttributes {
                            undecorated_shadow: Some(enable),
                            ..self@.inner.windows
                        }
                    } else {
                        self@.inner.windows
                    },
                    macos: if self@.options.platform == Platform::MacOs {
                        MacOsAttributes { has_shadow: Some(enable), ..self@.inner.macos }
                    } else {
                        self@.inner.macos
                    },
                    ..self@.inner
                },
            ),
    {
        let mut windows = self.inner.windows;
        let mut macos = self.inner.macos;
        if self.options.platform == Platform::Windows {
            windows.undecorated_shadow = Some(enable);
        }
        if self.options.platform == Platform::MacOs {
            macos.has_shadow = Some(enable);
        }
        WindowBuilderWrapper { inner: WindowAttributes { windows, macos, ..self.inner }, ..self }
    }

    /// Gives the title bar a style. A style that is not known changes nothing.
    pub fn title_bar_style(self, style: TitleBarStyle) -> (builder: Self)
        ensures
            builder@ == if style == TitleBarStyle::Other {
                self@
            } else {
                self@.with_inner(
                    AttributesModel {
                        macos: MacOsAttributes {
                            titlebar_transparent: Some(is_see_through(style)),
                            fullsize_content_view: Some(is_full_size(style)),
                            ..self@.inner.macos
                        },
                        ..self@.inner
                    },
                )
            },
    {
        let mut macos = self.inner.macos;
        match style {
            TitleBarStyle::Visible => {
                macos.titlebar_transparent = Some(false);
                macos.fullsize_content_view = Some(true);
            },
            TitleBarStyle::Transparent => {
                macos.titlebar_transparent = Some(true);
                macos.fullsize_content_view = Some(false);
            },
            TitleBarStyle::Overlay => {
                macos.titlebar_transparent = Some(true);
                macos.fullsize_content_view = Some(true);
            },
            TitleBarStyle::Other => {},
        }
        WindowBuilderWrapper { inner: WindowAttributes { macos, ..self.inner }, ..self }
    }

    /// Gives the window an icon. Fails if the window system does not take it.
    pub fn icon(self, icon: Icon) -> (result: Result<Self, Error>)
        ensures
            match <TaoIcon as vstd::std_specs::convert::TryFromSpec<(Platform, Icon)>>::try_from_spec(
                (self@.options.platform, icon),
            ) {
                Ok(icon) => result is Ok && result->Ok_0@ == self@.with_inner(
                    AttributesModel { window_icon: Some(icon), ..self@.inner },
                ),
                Err(error) => result == Err::<Self, Error>(error),
            },
    {
        match TaoIcon::try_from((self.options.platform, icon)) {
            Ok(icon) => Ok(
                WindowBuilderWrapper {
                    inner: WindowAttributes { window_icon: Some(icon), ..self.inner },
                    ..self
                },
            ),
            Err(error) => Err(error),
        }
    }

    /// Leaves the window out of the task bar or not, where there is one.
    pub fn skip_taskbar(self, skip: bool) -> (builder: Self)
        ensures
            builder@ == self@.with_inner(
                AttributesModel {
                    linux: if self@.options.platform == Platform::Windows
                        || self@.options.platform == Platform::Linux {
                        LinuxAttributes { skip_taskbar: Some(skip), ..self@.inner.linux }
                    } else {
                        self@.inner.linux
                    },
                    ..self@.inner
                },
            ),
    {
        let mut linux = self.inner.linux;
        match self.options.platform {
            Platform::Windows | Platform::Linux => {
                linux.skip_taskbar = Some(skip);
            },
            _ => {},
        }
        WindowBuilderWrapper { inner: WindowAttributes { linux, ..self.inner }, ..self }
    }

    /// Gives the window a color scheme: light, unless it is asked to be dark.
    pub fn theme(self, theme: Option<Theme>) -> (builder: Self)
        ensures
            builder@ == self@.with_inner(
                AttributesModel {
                    look: WindowLook {
                        preferred_theme: builder_theme(theme),
                        ..self@.inner.look
                    },
                    ..self@.inner
                },
            ),
    {
        let preferred_theme = match theme {
            Some(Theme::Dark) => Some(TaoTheme::Dark),
            Some(_) => Some(TaoTheme::Light),
            None => None,
        };
        let look = WindowLook { preferred_theme, ..self.inner.look };
        WindowBuilderWrapper { inner: WindowAttributes { look, ..self.inner }, ..self }
    }

    /// Whether the window has an icon.
    pub fn has_icon(&self) -> (result: bool)
        ensures
            result == (self@.inner.window_icon is Some),
    {
        self.inner.window_icon.is_some()
    }

    /// The color scheme of the window, if it has one.
    pub fn get_theme(&self) -> (theme: Option<Theme>)
        ensures
            theme == match self@.inner.look.preferred_theme {
                Some(TaoTheme::Dark) => Some(Theme::Dark),
                Some(_) => Some(Theme::Light),
                None => None,
            },
    {
        match self.inner.look.preferred_theme {
            Some(TaoTheme::Dark) => Some(Theme::Dark),
            Some(_) => Some(Theme::Light),
            None => None,
        }
    }
}

/// The theme of a builder is the one that was asked for, except that a scheme that
/// is not known counts as light.
pub proof fn lemma_builder_theme_is_kept(theme: Theme)
    ensures
        builder_theme(Some(theme)) is Some,
        (builder_theme(Some(theme)) == Some(TaoTheme::Dark)) == (theme == Theme::Dark),
{
}

/// Every window begins with the focus and visible, can be resized, minimized, maximized and
/// closed, is decorated and opaque, and is neither above nor below the others. Its title is
/// that of a new application; on Windows it has a class, and on macOS a title bar over its
/// content. It goes where the system puts it and may overflow.
pub proof fn lemma_windows_begin_alike(options: BuildOptions, builder: WindowBuilderWrapper)
    requires
        call_ensures(WindowBuilderWrapper::new, (options,), builder),
    ensures
        ({
            let inner = builder@.inner;
            let macos = options.platform == Platform::MacOs;
            let windows = options.platform == Platform::Windows;
            &&& builder@.options == options
            &&& !builder@.center
            &&& builder@.prevent_overflow is None
            &&& builder@.tabbing_identifier is None
            &&& inner.state.focused && inner.state.visible && inner.state.focusable
            &&& !inner.state.fullscreen && !inner.state.maximized
            &&& inner.controls.resizable && inner.controls.minimizable
            &&& inner.controls.maximizable && inner.controls.closable
            &&& inner.look.decorations && !inner.look.transparent
            &&& inner.look.preferred_theme is None && inner.look.background_color is None
            &&& !inner.stacking.always_on_top && !inner.stacking.always_on_bottom
            &&& !inner.stacking.visible_on_all_workspaces && !inner.stacking.content_protection
            &&& inner.stacking.parent_window is None && inner.windows.owner_window is None
            &&& inner.layout.inner_size is None && inner.layout.position is None
            &&& inner.window_icon is None
            &&& inner.texts.title == "Tauri App"@
            &&& windows ==> inner.texts.window_classname == Some("Tauri Window"@)
            &&& !windows ==> inner.texts.window_classname is None
            &&& macos ==> inner.macos.titlebar_transparent == Some(false)
                && inner.macos.fullsize_content_view == Some(true)
            &&& !macos ==> inner.macos.titlebar_transparent is None
                && inner.macos.fullsize_content_view is None
        }),
{
}

/// What a configuration says of a window on a desktop is what the window is built with: its
/// size and its bounds, in logical units, its place if both coordinates are given, what the
/// user can do to it, how it begins, and how it stands among others, where being above all
/// others counts and being below them does not.
pub proof fn lemma_configuration_reaches_the_window(
    options: BuildOptions,
    config: &WindowConfig,
    builder: WindowBuilderWrapper,
)
    requires
        call_ensures(WindowBuilderWrapper::with_config, (options, config), builder),
        options.platform == Platform::Linux || options.platform == Platform::Windows
            || options.platform == Platform::MacOs,
    ensures
        ({
            let inner = builder@.inner;
            let bounds = inner.layout.inner_size_constraints;
            let unit = |length: Option<Float64>|
                match length {
                    Some(length) => Some(PixelUnit::Logical(length)),
                    None => None,
                };
            &&& inner.texts.title == config.title@
            &&& inner.layout.inner_size == Some(
                Size::Logical(LogicalSize { width: config.width, height: config.height }),
            )
            &&& bounds.min_width == unit(config.min_width)
            &&& bounds.min_height == unit(config.min_height)
            &&& bounds.max_width == unit(config.max_width)
            &&& bounds.max_height == unit(config.max_height)
            &&& config.x is Some && config.y is Some ==> inner.layout.position == Some(
                Position::Logical(
                    LogicalPosition { x: config.x->Some_0, y: config.y->Some_0 },
                ),
            )
            &&& config.x is None || config.y is None ==> inner.layout.position is None
            &&& inner.controls.resizable == config.resizable
            &&& inner.controls.minimizable == config.minimizable
            &&& inner.controls.maximizable == config.maximizable
            &&& inner.controls.closable == config.closable
            &&& inner.state.fullscreen == config.fullscreen
            &&& inner.state.maximized == config.maximized
            &&& inner.state.visible == config.visible
            &&& inner.state.focused == config.focus
            &&& inner.state.focusable == config.focusable
            &&& inner.stacking.always_on_top == config.always_on_top
            &&& !inner.stacking.always_on_bottom
            &&& inner.stacking.visible_on_all_workspaces == config.visible_on_all_workspaces
            &&& inner.stacking.content_protection == config.content_protected
            &&& builder@.center == config.center
            &&& config.prevent_overflow is None ==> builder@.prevent_overflow is None
            &&& config.prevent_overflow == Some(PreventOverflowConfig::Enable(false))
                ==> builder@.prevent_overflow is None
            &&& config.prevent_overflow == Some(PreventOverflowConfig::Enable(true))
                ==> builder@.prevent_overflow == Some(
                Size::Physical(PhysicalSize { width: 0, height: 0 }),
            )
            &&& config.prevent_overflow matches Some(
                PreventOverflowConfig::Margin { width, height },
            ) ==> builder@.prevent_overflow == Some(
                Size::Physical(PhysicalSize { width, height }),
            )
        }),
{
}

/// What a configuration says of the look of a window on a desktop is what the window is built
/// with, as far as the platform has it: on macOS a window is see-through only by private
/// interfaces, shadows are for Windows and macOS, the taskbar for Windows and Linux, classes
/// for Windows, and title bars, traffic lights and tabs for macOS. On Linux moves of the cursor
/// are reported only if browsers render off screen.
pub proof fn lemma_configuration_reaches_the_platform(
    options: BuildOptions,
    config: &WindowConfig,
    builder: WindowBuilderWrapper,
)
    requires
        call_ensures(WindowBuilderWrapper::with_config, (options, config), builder),
        options.platform == Platform::Linux || options.platform == Platform::Windows
            || options.platform == Platform::MacOs,
    ensures
        ({
            let inner = builder@.inner;
            let linux = options.platform == Platform::Linux;
            let windows = options.platform == Platform::Windows;
            let macos = options.platform == Platform::MacOs;
            &&& inner.look.transparent <==> config.transparent && (!macos
                || options.macos_private_api)
            &&& inner.look.decorations == config.decorations
            &&& inner.look.background_color == config.background_color
            &&& config.theme is None ==> inner.look.preferred_theme is None
            &&& config.theme == Some(Theme::Dark) ==> inner.look.preferred_theme == Some(
                TaoTheme::Dark,
            )
            &&& config.theme is Some && config.theme != Some(Theme::Dark)
                ==> inner.look.preferred_theme == Some(TaoTheme::Light)
            &&& windows ==> inner.windows.undecorated_shadow == Some(config.shadow)
            &&& !windows ==> inner.windows.undecorated_shadow is None
            &&& macos ==> inner.macos.has_shadow == Some(config.shadow)
            &&& !macos ==> inner.macos.has_shadow is None
            &&& windows || linux ==> inner.linux.skip_taskbar == Some(config.skip_taskbar)
            &&& macos ==> inner.linux.skip_taskbar is None
            &&& linux && !options.wayland_osr ==> inner.linux.cursor_moved_event == Some(false)
            &&& !linux || options.wayland_osr ==> inner.linux.cursor_moved_event is None
            &&& windows && config.window_classname is Some ==> inner.texts.window_classname
                == text::text_of(config.window_classname)
            &&& windows && config.window_classname is None ==> inner.texts.window_classname
                == Some("Tauri Window"@)
            &&& !windows ==> inner.texts.window_classname is None
            &&& macos ==> inner.macos.title_hidden == Some(config.hidden_title)
            &&& macos && config.title_bar_style == TitleBarStyle::Transparent
                ==> inner.macos.titlebar_transparent == Some(true)
                && inner.macos.fullsize_content_view == Some(false)
            &&& macos && config.title_bar_style == TitleBarStyle::Overlay
                ==> inner.macos.titlebar_transparent == Some(true)
                && inner.macos.fullsize_content_view == Some(true)
            &&& macos && config.title_bar_style == TitleBarStyle::Visible
                ==> inner.macos.titlebar_transparent == Some(false)
                && inner.macos.fullsize_content_view == Some(true)
            &&& macos ==> inner.texts.tabbing_identifier == text::text_of(
                config.tabbing_identifier,
            ) && builder@.tabbing_identifier == text::text_of(config.tabbing_identifier)
            &&& !macos ==> builder@.tabbing_identifier is None
            &&& macos && config.traffic_light_position is Some ==> inner.macos.traffic_light_inset
                == Some(Position::Logical(config.traffic_light_position->Some_0))
            &&& !macos || config.traffic_light_position is None
                ==> inner.macos.traffic_light_inset is None
        }),
{
}

/// A builder tells the color scheme that it was given, an unknown one as light, and that it
/// has an icon once it was given one that the window system takes.
pub proof fn lemma_builder_tells_what_it_was_given(
    builder: WindowBuilderWrapper,
    theme: Option<Theme>,
    themed: WindowBuilderWrapper,
    told: Option<Theme>,
    icon: Icon,
    with_icon: Result<WindowBuilderWrapper, Error>,
)
    requires
        call_ensures(WindowBuilderWrapper::theme, (builder, theme), themed),
        call_ensures(WindowBuilderWrapper::get_theme, (&themed,), told),
        call_ensures(WindowBuilderWrapper::icon, (builder, icon), with_icon),
    ensures
        theme is None ==> told is None,
        theme == Some(Theme::Dark) ==> told == Some(Theme::Dark),
        theme is Some && theme != Some(Theme::Dark) ==> told == Some(Theme::Light),
        with_icon matches Ok(with_icon) ==> {
            &&& with_icon@.inner.window_icon is Some
            &&& with_icon@.inner.window_icon->Some_0.rgba == icon.rgba
            &&& with_icon@.inner.window_icon->Some_0.width == icon.width
            &&& with_icon@.inner.window_icon->Some_0.height == icon.height
        },
        builder@.options.platform == Platform::Linux ==> with_icon is Ok,
        builder@.options.platform != Platform::Linux ==> (with_icon is Ok <==> icon.width > 0
            && icon.height > 0 && icon.rgba@.len() == 4 * (icon.width * icon.height)),
{
}

/// Two builders agree on all but one group of what they say of a window.
pub open spec fn only_controls_changed(before: BuilderModel, after: BuilderModel) -> bool {
    &&& after.options == before.options
    &&& after.center == before.center
    &&& after.prevent_overflow == before.prevent_overflow
    &&& after.tabbing_identifier == before.tabbing_identifier
    &&& after.inner == (AttributesModel { controls: after.inner.controls, ..before.inner })
}

/// What the user can do to a window is what was last said of it, and nothing else changes.
pub proof fn lemma_builder_keeps_controls(
    builder: WindowBuilderWrapper,
    on: bool,
    with_resizable: WindowBuilderWrapper,
    with_maximizable: WindowBuilderWrapper,
    with_minimizable: WindowBuilderWrapper,
    with_closable: WindowBuilderWrapper,
)
    requires
        call_ensures(WindowBuilderWrapper::resizable, (builder, on), with_resizable),
        call_ensures(WindowBuilderWrapper::maximizable, (builder, on), with_maximizable),
        call_ensures(WindowBuilderWrapper::minimizable, (builder, on), with_minimizable),
        call_ensures(WindowBuilderWrapper::closable, (builder, on), with_closable),
    ensures
        only_controls_changed(builder@, with_resizable@),
        with_resizable@.inner.controls.resizable == on,
        with_resizable@.inner.controls.maximizable == builder@.inner.controls.maximizable,
        with_resizable@.inner.controls.minimizable == builder@.inner.controls.minimizable,
        with_resizable@.inner.controls.closable == builder@.inner.controls.closable,
        only_controls_changed(builder@, with_maximizable@),
        with_maximizable@.inner.controls.maximizable == on,
        with_maximizable@.inner.controls.resizable == builder@.inner.controls.resizable,
        with_maximizable@.inner.controls.minimizable == builder@.inner.controls.minimizable,
        with_maximizable@.inner.controls.closable == builder@.inner.controls.closable,
        only_controls_changed(builder@, with_minimizable@),
        with_minimizable@.inner.controls.minimizable == on,
        with_minimizable@.inner.controls.resizable == builder@.inner.controls.resizable,
        with_minimizable@.inner.controls.maximizable == builder@.inner.controls.maximizable,
        with_minimizable@.inner.controls.closable == builder@.inner.controls.closable,
        only_controls_changed(builder@, with_closable@),
        with_closable@.inner.controls.closable == on,
        with_closable@.inner.controls.resizable == builder@.inner.controls.resizable,
        with_closable@.inner.controls.maximizable == builder@.inner.controls.maximizable,
        with_closable@.inner.controls.minimizable == builder@.inner.controls.minimizable,
{
}

/// Two builders agree on all but one group of what they say of a window.
pub open spec fn only_state_changed(before: BuilderModel, after: BuilderModel) -> bool {
    &&& after.options == before.options
    &&& after.center == before.center
    &&& after.prevent_overflow == before.prevent_overflow
    &&& after.tabbing_identifier == before.tabbing_identifier
    &&& after.inner == (AttributesModel { state: after.inner.state, ..before.inner })
}

/// How a window begins is what was last said of it, and nothing else changes.
pub proof fn lemma_builder_keeps_state(
    builder: WindowBuilderWrapper,
    on: bool,
    with_fullscreen: WindowBuilderWrapper,
    with_focused: WindowBuilderWrapper,
    with_focusable: WindowBuilderWrapper,
    with_maximized: WindowBuilderWrapper,
    with_visible: WindowBuilderWrapper,
)
    requires
        call_ensures(WindowBuilderWrapper::fullscreen, (builder, on), with_fullscreen),
        call_ensures(WindowBuilderWrapper::focused, (builder, on), with_focused),
        call_ensures(WindowBuilderWrapper::focusable, (builder, on), with_focusable),
        call_ensures(WindowBuilderWrapper::maximized, (builder, on), with_maximized),
        call_ensures(WindowBuilderWrapper::visible, (builder, on), with_visible),
    ensures
        only_state_changed(builder@, with_fullscreen@),
        with_fullscreen@.inner.state.fullscreen == on,
        with_fullscreen@.inner.state.focused == builder@.inner.state.focused,
        with_fullscreen@.inner.state.focusable == builder@.inner.state.focusable,
        with_fullscreen@.inner.state.maximized == builder@.inner.state.maximized,
        with_fullscreen@.inner.state.visible == builder@.inner.state.visible,
        only_state_changed(builder@, with_focused@),
        with_focused@.inner.state.focused == on,
        with_focused@.inner.state.fullscreen == builder@.inner.state.fullscreen,
        with_focused@.inner.state.focusable == builder@.inner.state.focusable,
        with_focused@.inner.state.maximized == builder@.inner.state.maximized,
        with_focused@.inner.state.visible == builder@.inner.state.visible,
        only_state_changed(builder@, with_focusable@),
        with_focusable@.inner.state.focusable == on,
        with_focusable@.inner.state.fullscreen == builder@.inner.state.fullscreen,
        with_focusable@.inner.state.focused == builder@.inner.state.focused,
        with_focusable@.inner.state.maximized == builder@.inner.state.maximized,
        with_focusable@.inner.state.visible == builder@.inner.state.visible,
        only_state_changed(builder@, with_maximized@),
        with_maximized@.inner.state.maximized == on,
        with_maximized@.inner.state.fullscreen == builder@.inner.state.fullscreen,
        with_maximized@.inner.state.focused == builder@.inner.state.focused,
        with_maximized@.inner.state.focusable == builder@.inner.state.focusable,
        with_maximized@.inner.state.visible == builder@.inner.state.visible,
        only_state_changed(builder@, with_visible@),
        with_visible@.inner.state.visible == on,
        with_visible@.inner.state.fullscreen == builder@.inner.state.fullscreen,
        with_visible@.inner.state.focused == builder@.inner.state.focused,
        with_visible@.inner.state.focusable == builder@.inner.state.focusable,
        with_visible@.inner.state.maximized == builder@.inner.state.maximized,
{
}

/// Two builders agree on all but one group of what they say of a window.
pub open spec fn only_look_changed(before: BuilderModel, after: BuilderModel) -> bool {
    &&& after.options == before.options
    &&& after.center == before.center
    &&& after.prevent_overflow == before.prevent_overflow
    &&& after.tabbing_identifier == before.tabbing_identifier
    &&& after.inner == (AttributesModel { look: after.inner.look, ..before.inner })
}

/// How a window looks is what was last said of it, and nothing else changes.
pub proof fn lemma_builder_keeps_look(
    builder: WindowBuilderWrapper,
    on: bool,
    with_transparent: WindowBuilderWrapper,
    with_decorations: WindowBuilderWrapper,
)
    requires
        call_ensures(WindowBuilderWrapper::transparent, (builder, on), with_transparent),
        call_ensures(WindowBuilderWrapper::decorations, (builder, on), with_decorations),
    ensures
        only_look_changed(builder@, with_transparent@),
        with_transparent@.inner.look.transparent == on,
        with_transparent@.inner.look.decorations == builder@.inner.look.decorations,
        only_look_changed(builder@, with_decorations@),
        with_decorations@.inner.look.decorations == on,
        with_decorations@.inner.look.transparent == builder@.inner.look.transparent,
{
}

/// A window kept above all others is not kept below them, nor the other way round; where else it
/// is shown is what was last said of it.
pub proof fn lemma_builder_keeps_stacking(
    builder: WindowBuilderWrapper,
    on: bool,
    above: WindowBuilderWrapper,
    below: WindowBuilderWrapper,
    everywhere: WindowBuilderWrapper,
    protected: WindowBuilderWrapper,
)
    requires
        call_ensures(WindowBuilderWrapper::always_on_top, (builder, on), above),
        call_ensures(WindowBuilderWrapper::always_on_bottom, (builder, on), below),
        call_ensures(WindowBuilderWrapper::visible_on_all_workspaces, (builder, on), everywhere),
        call_ensures(WindowBuilderWrapper::content_protected, (builder, on), protected),
    ensures
        above@.inner.stacking.always_on_top == on && !above@.inner.stacking.always_on_bottom,
        below@.inner.stacking.always_on_bottom == on && !below@.inner.stacking.always_on_top,
        everywhere@.inner.stacking.visible_on_all_workspaces == on,
        everywhere@.inner.stacking.always_on_top == builder@.inner.stacking.always_on_top,
        protected@.inner.stacking.content_protection == on,
        protected@.inner.stacking.visible_on_all_workspaces
            == builder@.inner.stacking.visible_on_all_workspaces,
        above@.inner.stacking.content_protection == builder@.inner.stacking.content_protection,
        above@.inner.state == builder@.inner.state,
        below@.inner.state == builder@.inner.state,
        everywhere@.inner.state == builder@.inner.state,
        protected@.inner.state == builder@.inner.state,
{
}

/// A window has an owner or a parent, whichever was said last, and not both.
pub proof fn lemma_builder_keeps_the_owner(
    builder: WindowBuilderWrapper,
    handle: usize,
    owned: WindowBuilderWrapper,
    child: WindowBuilderWrapper,
    gtk_window: u64,
    transient: WindowBuilderWrapper,
)
    requires
        call_ensures(WindowBuilderWrapper::owner, (builder, handle), owned),
        call_ensures(WindowBuilderWrapper::parent, (builder, handle), child),
        call_ensures(WindowBuilderWrapper::transient_for, (builder, gtk_window), transient),
    ensures
        owned@.inner.windows.owner_window == Some(handle),
        owned@.inner.stacking.parent_window is None,
        child@.inner.stacking.parent_window == Some(handle),
        child@.inner.windows.owner_window is None,
        transient@.inner.linux.transient_for == Some(gtk_window),
        transient@.inner.stacking == builder@.inner.stacking,
{
}

/// A window has the place, the size and the limits, in logical units, that were last said of it;
/// each limit is kept while the others change.
pub proof fn lemma_builder_keeps_the_layout(
    builder: WindowBuilderWrapper,
    first: Float64,
    second: Float64,
    constraints: WindowSizeConstraints,
    margin: Size,
    placed: WindowBuilderWrapper,
    sized: WindowBuilderWrapper,
    at_least: WindowBuilderWrapper,
    at_most: WindowBuilderWrapper,
    limited: WindowBuilderWrapper,
    centered: WindowBuilderWrapper,
    inside: WindowBuilderWrapper,
    inside_with_margin: WindowBuilderWrapper,
)
    requires
        call_ensures(WindowBuilderWrapper::position, (builder, first, second), placed),
        call_ensures(WindowBuilderWrapper::inner_size, (builder, first, second), sized),
        call_ensures(WindowBuilderWrapper::min_inner_size, (builder, first, second), at_least),
        call_ensures(WindowBuilderWrapper::max_inner_size, (builder, first, second), at_most),
        call_ensures(
            WindowBuilderWrapper::inner_size_constraints,
            (builder, constraints),
            limited,
        ),
        call_ensures(WindowBuilderWrapper::center, (builder,), centered),
        call_ensures(WindowBuilderWrapper::prevent_overflow, (builder,), inside),
        call_ensures(
            WindowBuilderWrapper::prevent_overflow_with_margin,
            (builder, margin),
            inside_with_margin,
        ),
    ensures
        placed@.inner.layout.position == Some(
            Position::Logical(LogicalPosition { x: first, y: second }),
        ),
        placed@.inner.layout.inner_size == builder@.inner.layout.inner_size,
        sized@.inner.layout.inner_size == Some(
            Size::Logical(LogicalSize { width: first, height: second }),
        ),
        sized@.inner.layout.position == builder@.inner.layout.position,
        ({
            let (before, least, most) = (
                builder@.inner.layout.inner_size_constraints,
                at_least@.inner.layout.inner_size_constraints,
                at_most@.inner.layout.inner_size_constraints,
            );
            &&& least.min_width == Some(PixelUnit::Logical(first))
            &&& least.min_height == Some(PixelUnit::Logical(second))
            &&& least.max_width == before.max_width && least.max_height == before.max_height
            &&& most.max_width == Some(PixelUnit::Logical(first))
            &&& most.max_height == Some(PixelUnit::Logical(second))
            &&& most.min_width == before.min_width && most.min_height == before.min_height
        }),
        limited@.inner.layout.inner_size_constraints == constraints,
        centered@.center,
        centered@.inner == builder@.inner,
        inside@.prevent_overflow == Some(Size::Physical(PhysicalSize { width: 0, height: 0 })),
        inside_with_margin@.prevent_overflow == Some(margin),
        inside_with_margin@.center == builder@.center,
{
}

/// What only one platform knows is noted for it as it was said, and on the others it changes
/// nothing where they have no name for it.
pub proof fn lemma_builder_keeps_what_platforms_know(
    builder: WindowBuilderWrapper,
    on: bool,
    text: String,
    identifier: &str,
    position: Position,
    color: Color,
    dropped: WindowBuilderWrapper,
    lights: WindowBuilderWrapper,
    untitled: WindowBuilderWrapper,
    colored: WindowBuilderWrapper,
    tabbed: WindowBuilderWrapper,
    moving: WindowBuilderWrapper,
    titled: WindowBuilderWrapper,
    classed: WindowBuilderWrapper,
    grouped: WindowBuilderWrapper,
    shadowed: WindowBuilderWrapper,
    skipped: WindowBuilderWrapper,
    has_icon: bool,
)
    requires
        call_ensures(WindowBuilderWrapper::drag_and_drop, (builder, on), dropped),
        call_ensures(WindowBuilderWrapper::traffic_light_position, (builder, position), lights),
        call_ensures(WindowBuilderWrapper::hidden_title, (builder, on), untitled),
        call_ensures(WindowBuilderWrapper::background_color, (builder, color), colored),
        call_ensures(WindowBuilderWrapper::automatic_window_tabbing, (builder, on), tabbed),
        call_ensures(WindowBuilderWrapper::cursor_moved_event, (builder, on), moving),
        call_ensures(WindowBuilderWrapper::title, (builder, text), titled),
        call_ensures(WindowBuilderWrapper::window_classname, (builder, text), classed),
        call_ensures(WindowBuilderWrapper::tabbing_identifier, (builder, identifier), grouped),
        call_ensures(WindowBuilderWrapper::shadow, (builder, on), shadowed),
        call_ensures(WindowBuilderWrapper::skip_taskbar, (builder, on), skipped),
        call_ensures(WindowBuilderWrapper::has_icon, (&builder,), has_icon),
    ensures
        ({
            let platform = builder@.options.platform;
            let inner = builder@.inner;
            &&& dropped@.inner.windows.drag_and_drop == Some(on)
            &&& lights@.inner.macos.traffic_light_inset == Some(position)
            &&& untitled@.inner.macos.title_hidden == Some(on)
            &&& colored@.inner.look.background_color == Some(color)
            &&& tabbed@.inner.macos.automatic_window_tabbing == Some(on)
            &&& moving@.inner.linux.cursor_moved_event == Some(on)
            &&& titled@.inner.texts.title == text@
            &&& platform is Windows ==> classed@.inner.texts.window_classname == Some(text@)
            &&& !(platform is Windows) ==> classed@.inner.texts.window_classname
                == inner.texts.window_classname
            &&& classed@.inner.texts.title == inner.texts.title
            &&& grouped@.inner.texts.tabbing_identifier == Some(identifier@)
            &&& grouped@.tabbing_identifier == Some(identifier@)
            &&& platform is Windows ==> shadowed@.inner.windows.undecorated_shadow == Some(on)
            &&& !(platform is Windows) ==> shadowed@.inner.windows == inner.windows
            &&& platform is MacOs ==> shadowed@.inner.macos.has_shadow == Some(on)
            &&& !(platform is MacOs) ==> shadowed@.inner.macos == inner.macos
            &&& platform is Windows || platform is Linux ==> skipped@.inner.linux.skip_taskbar
                == Some(on)
            &&& !(platform is Windows) && !(platform is Linux) ==> skipped@.inner.linux
                == inner.linux
            &&& has_icon <==> inner.window_icon is Some
        }),
{
}

/// A title bar is seen through, and has the content below it, as its style says.
pub proof fn lemma_builder_keeps_the_title_bar(
    builder: WindowBuilderWrapper,
    style: TitleBarStyle,
    styled: WindowBuilderWrapper,
)
    requires
        call_ensures(WindowBuilderWrapper::title_bar_style, (builder, style), styled),
    ensures
        ({
            let (before, after) = (builder@.inner.macos, styled@.inner.macos);
            &&& style is Visible ==> after.titlebar_transparent == Some(false)
                && after.fullsize_content_view == Some(true)
            &&& style is Transparent ==> after.titlebar_transparent == Some(true)
                && after.fullsize_content_view == Some(false)
            &&& style is Overlay ==> after.titlebar_transparent == Some(true)
                && after.fullsize_content_view == Some(true)
            &&& style is Other ==> styled@ == builder@
            &&& after.title_hidden == before.title_hidden
        }),
{
}

} // verus!
