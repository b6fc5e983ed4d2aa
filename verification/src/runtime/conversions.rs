//! Conversions between the types of the runtime's users and those of the window
//! system.

use crate::runtime::dpi::{
    Float64, LogicalPosition, LogicalSize, PhysicalPosition, PhysicalRect, PhysicalSize, Position,
    Rect, Size,
};
use crate::runtime::platform::Platform;
use vstd::prelude::*;

verus! {

/// Why a request to the runtime failed.
#[derive(Debug)]
pub enum Error {
    CreateWebview(String),
    CreateWindow,
    FailedToSendMessage,
    FailedToReceiveMessage,
    InvalidIcon(BadIcon),
    FailedToGetMonitor,
    FailedToGetCursorPosition,
    EventLoopClosed,
    WindowNotFound,
    FailedToRemoveDataStore,
}

/// Why pixels do not make an icon.
#[derive(Debug, Clone, Copy, PartialEq, Eq, Structural)]
pub enum BadIcon {
    DimensionsZero { width: u32, height: u32 },
    ByteCountNotDivisibleBy4 { byte_count: usize },
    DimensionsMultiplyOverflow { width: u32, height: u32 },
    DimensionsVsPixelCount {
        width: u32,
        height: u32,
        width_x_height: usize,
        pixel_count: usize,
    },
}

/// Which device events the application gets.
#[derive(Debug, Clone, Copy, PartialEq, Eq, Structural)]
pub enum DeviceEventFilter {
    Always,
    Never,
    Unfocused,
}

/// Which device events the window system delivers.
#[derive(Debug, Clone, Copy, PartialEq, Eq, Structural)]
pub enum TaoDeviceEventFilter {
    Always,
    Never,
    Unfocused,
}

/// A filter for device events, as the window system has it.
#[derive(Debug, Clone, Copy, PartialEq, Eq, Structural)]
pub struct DeviceEventFilterWrapper(pub TaoDeviceEventFilter);

impl From<DeviceEventFilter> for DeviceEventFilterWrapper {
    fn from(item: DeviceEventFilter) -> (wrapper: Self) {
        let value = match item {
            DeviceEventFilter::Always => TaoDeviceEventFilter::Always,
            DeviceEventFilter::Never => TaoDeviceEventFilter::Never,
            DeviceEventFilter::Unfocused => TaoDeviceEventFilter::Unfocused,
        };
        DeviceEventFilterWrapper(value)
    }
}

impl vstd::std_specs::convert::FromSpecImpl<DeviceEventFilter> for DeviceEventFilterWrapper {
    open spec fn obeys_from_spec() -> bool {
        true
    }

    open spec fn from_spec(item: DeviceEventFilter) -> Self {
        DeviceEventFilterWrapper(
            match item {
                    DeviceEventFilter::Always => TaoDeviceEventFilter::Always,
                    DeviceEventFilter::Never => TaoDeviceEventFilter::Never,
                    DeviceEventFilter::Unfocused => TaoDeviceEventFilter::Unfocused,
            },
        )
    }
}

/// A rectangle that a webview covers.
#[derive(Debug, Clone, Copy, PartialEq, Eq, Structural)]
pub struct RectWrapper(pub Rect);

impl From<Rect> for RectWrapper {
    fn from(value: Rect) -> (wrapper: Self) {
        RectWrapper(Rect { position: value.position, size: value.size })
    }
}

impl vstd::std_specs::convert::FromSpecImpl<Rect> for RectWrapper {
    open spec fn obeys_from_spec() -> bool {
        true
    }

    open spec fn from_spec(value: Rect) -> Self {
        RectWrapper(value)
    }
}

/// An icon as the application gives it: RGBA pixels, row by row.
#[derive(Debug)]
pub struct Icon {
    pub rgba: Vec<u8>,
    pub width: u32,
    pub height: u32,
}

/// An icon that the window system takes.
#[derive(Debug)]
pub struct TaoIcon {
    pub rgba: Vec<u8>,
    pub width: u32,
    pub height: u32,
}

/// What is wrong with an icon, if anything is: its pixels must match its dimensions. On
/// Linux the window system takes any.
pub open spec fn icon_fault(
    platform: Platform,
    byte_count: usize,
    width: u32,
    height: u32,
) -> Option<BadIcon> {
    if platform == Platform::Linux {
        None
    } else if width == 0 || height == 0 {
        Some(BadIcon::DimensionsZero { width, height })
    } else if byte_count % 4 != 0 {
        Some(BadIcon::ByteCountNotDivisibleBy4 { byte_count })
    } else if width * height > usize::MAX {
        Some(BadIcon::DimensionsMultiplyOverflow { width, height })
    } else if byte_count / 4 != width * height {
        Some(
            BadIcon::DimensionsVsPixelCount {
                width,
                height,
                width_x_height: (width * height) as usize,
                pixel_count: byte_count / 4,
            },
        )
    } else {
        None
    }
}

impl TryFrom<(Platform, Icon)> for TaoIcon {
    type Error = Error;

    fn try_from(given: (Platform, Icon)) -> (result: Result<Self, Error>) {
        let (platform, icon) = given;
        if platform == Platform::Linux {
            return Ok(TaoIcon { rgba: icon.rgba, width: icon.width, height: icon.height });
        }
        let byte_count: usize = icon.rgba.len();
        if icon.width == 0 || icon.height == 0 {
            return Err(
                Error::InvalidIcon(
                    BadIcon::DimensionsZero { width: icon.width, height: icon.height },
                ),
            );
        }
        if byte_count % 4 != 0 {
            return Err(Error::InvalidIcon(BadIcon::ByteCountNotDivisibleBy4 { byte_count }));
        }
        let width_x_height: usize = match (icon.width as usize).checked_mul(icon.height as usize) {
            Some(product) => product,
            None => {
                return Err(
                    Error::InvalidIcon(
                        BadIcon::DimensionsMultiplyOverflow {
                            width: icon.width,
                            height: icon.height,
                        },
                    ),
                );
            },
        };
        let pixel_count: usize = byte_count / 4;
        if pixel_count != width_x_height {
            return Err(
                Error::InvalidIcon(
                    BadIcon::DimensionsVsPixelCount {
                        width: icon.width,
                        height: icon.height,
                        width_x_height,
                        pixel_count,
                    },
                ),
            );
        }
        Ok(TaoIcon { rgba: icon.rgba, width: icon.width, height: icon.height })
    }
}

impl vstd::std_specs::convert::TryFromSpecImpl<(Platform, Icon)> for TaoIcon {
    open spec fn obeys_try_from_spec() -> bool {
        true
    }

    open spec fn try_from_spec(given: (Platform, Icon)) -> Result<Self, Error> {
        let (platform, icon) = given;
        match icon_fault(platform, icon.rgba.len(), icon.width, icon.height) {
            Some(fault) => Err(Error::InvalidIcon(fault)),
            None => Ok(TaoIcon { rgba: icon.rgba, width: icon.width, height: icon.height }),
        }
    }
}

/// The color scheme of the application.
#[derive(Debug, Clone, Copy, PartialEq, Eq, Structural)]
pub enum Theme {
    Light,
    Dark,
    /// A scheme that this library does not know.
    Other,
}

/// The color scheme of the window system.
#[derive(Debug, Clone, Copy, PartialEq, Eq, Structural)]
pub enum TaoTheme {
    Light,
    Dark,
    /// A scheme that this library does not know.
    Other,
}

/// The application's name for a color scheme. Any scheme but the dark one is light.
pub open spec fn mapped_theme(theme: TaoTheme) -> Theme {
    if theme == TaoTheme::Dark {
        Theme::Dark
    } else {
        Theme::Light
    }
}

/// The application's name for a color scheme of the window system.
pub fn map_theme(theme: &TaoTheme) -> (result: Theme)
    ensures
        result == mapped_theme(*theme),
{
    match theme {
        TaoTheme::Light => Theme::Light,
        TaoTheme::Dark => Theme::Dark,
        TaoTheme::Other => Theme::Light,
    }
}

/// The window system's name for a color scheme: none where it has none.
pub open spec fn tao_theme(theme: Option<Theme>) -> Option<TaoTheme> {
    match theme {
        Some(Theme::Light) => Some(TaoTheme::Light),
        Some(Theme::Dark) => Some(TaoTheme::Dark),
        _ => None,
    }
}

/// The window system's name for a color scheme.
pub fn to_tao_theme(theme: Option<Theme>) -> (result: Option<TaoTheme>)
    ensures
        result == tao_theme(theme),
{
    match theme {
        Some(Theme::Light) => Some(TaoTheme::Light),
        Some(Theme::Dark) => Some(TaoTheme::Dark),
        _ => None,
    }
}

/// A color scheme that the window system has a name for keeps its name on the way
/// there and back.
pub proof fn lemma_theme_round_trip(theme: Theme)
    requires
        theme != Theme::Other,
    ensures
        tao_theme(Some(theme)) is Some,
        mapped_theme(tao_theme(Some(theme))->Some_0) == theme,
{
}

/// How an application shows in the dock.
#[derive(Debug, Clone, Copy, PartialEq, Eq, Structural)]
pub enum ActivationPolicy {
    Regular,
    Accessory,
    Prohibited,
    /// A policy that this library does not know.
    Other,
}

/// How the window system shows an application in the dock.
#[derive(Debug, Clone, Copy, PartialEq, Eq, Structural)]
pub enum TaoActivationPolicy {
    Regular,
    Accessory,
    Prohibited,
}

/// The window system's name for an activation policy. An unknown one is regular.
pub open spec fn activation_policy(policy: ActivationPolicy) -> TaoActivationPolicy {
    match policy {
        ActivationPolicy::Accessory => TaoActivationPolicy::Accessory,
        ActivationPolicy::Prohibited => TaoActivationPolicy::Prohibited,
        _ => TaoActivationPolicy::Regular,
    }
}

/// The window system's name for an activation policy.
pub fn tao_activation_policy(policy: ActivationPolicy) -> (result: TaoActivationPolicy)
    ensures
        result == activation_policy(policy),
{
    match policy {
        ActivationPolicy::Regular => TaoActivationPolicy::Regular,
        ActivationPolicy::Accessory => TaoActivationPolicy::Accessory,
        ActivationPolicy::Prohibited => TaoActivationPolicy::Prohibited,
        ActivationPolicy::Other => TaoActivationPolicy::Regular,
    }
}

/// A monitor as the application knows it.
#[derive(Debug)]
pub struct Monitor {
    pub name: Option<String>,
    pub position: PhysicalPosition<i32>,
    pub size: PhysicalSize<u32>,
    pub work_area: PhysicalRect,
    pub scale_factor: Float64,
}

/// What the window system says of a monitor.
#[derive(Debug)]
pub struct MonitorHandle {
    pub name: Option<String>,
    pub position: PhysicalPosition<i32>,
    pub size: PhysicalSize<u32>,
    pub work_area: PhysicalRect,
    pub scale_factor: Float64,
}

/// A monitor of the window system.
#[derive(Debug)]
pub struct MonitorHandleWrapper(pub MonitorHandle);

impl From<MonitorHandleWrapper> for Monitor {
    fn from(monitor: MonitorHandleWrapper) -> (result: Monitor) {
        Monitor {
            name: monitor.0.name,
            position: PhysicalPosition::from(PhysicalPositionWrapper(monitor.0.position)),
            size: PhysicalSize::from(PhysicalSizeWrapper(monitor.0.size)),
            work_area: monitor.0.work_area,
            scale_factor: monitor.0.scale_factor,
        }
    }
}

impl vstd::std_specs::convert::FromSpecImpl<MonitorHandleWrapper> for Monitor {
    open spec fn obeys_from_spec() -> bool {
        true
    }

    open spec fn from_spec(monitor: MonitorHandleWrapper) -> Monitor {
        Monitor {
            name: monitor.0.name,
            position: monitor.0.position,
            size: monitor.0.size,
            work_area: monitor.0.work_area,
            scale_factor: monitor.0.scale_factor,
        }
    }
}

/// A position of the window system.
#[derive(Debug, Clone, Copy, PartialEq, Eq, Structural)]
pub struct PhysicalPositionWrapper<P>(pub PhysicalPosition<P>);

impl<P> From<PhysicalPositionWrapper<P>> for PhysicalPosition<P> {
    fn from(position: PhysicalPositionWrapper<P>) -> (result: Self) {
        PhysicalPosition { x: position.0.x, y: position.0.y }
    }
}

impl<P> vstd::std_specs::convert::FromSpecImpl<PhysicalPositionWrapper<P>> for PhysicalPosition<P> {
    open spec fn obeys_from_spec() -> bool {
        true
    }

    open spec fn from_spec(position: PhysicalPositionWrapper<P>) -> Self {
        position.0
    }
}

impl<P> From<PhysicalPosition<P>> for PhysicalPositionWrapper<P> {
    fn from(position: PhysicalPosition<P>) -> (result: Self) {
        PhysicalPositionWrapper(PhysicalPosition { x: position.x, y: position.y })
    }
}

impl<P> vstd::std_specs::convert::FromSpecImpl<PhysicalPosition<P>> for PhysicalPositionWrapper<P> {
    open spec fn obeys_from_spec() -> bool {
        true
    }

    open spec fn from_spec(position: PhysicalPosition<P>) -> Self {
        PhysicalPositionWrapper(position)
    }
}

/// A position of the window system.
#[derive(Debug, Clone, Copy, PartialEq, Eq, Structural)]
pub struct LogicalPositionWrapper<P>(pub LogicalPosition<P>);

impl<P> From<LogicalPosition<P>> for LogicalPositionWrapper<P> {
    fn from(position: LogicalPosition<P>) -> (result: Self) {
        LogicalPositionWrapper(LogicalPosition { x: position.x, y: position.y })
    }
}

impl<P> vstd::std_specs::convert::FromSpecImpl<LogicalPosition<P>> for LogicalPositionWrapper<P> {
    open spec fn obeys_from_spec() -> bool {
        true
    }

    open spec fn from_spec(position: LogicalPosition<P>) -> Self {
        LogicalPositionWrapper(position)
    }
}

/// A size of the window system.
#[derive(Debug, Clone, Copy, PartialEq, Eq, Structural)]
pub struct PhysicalSizeWrapper<P>(pub PhysicalSize<P>);

impl<P> From<PhysicalSizeWrapper<P>> for PhysicalSize<P> {
    fn from(size: PhysicalSizeWrapper<P>) -> (result: Self) {
        PhysicalSize { width: size.0.width, height: size.0.height }
    }
}

impl<P> vstd::std_specs::convert::FromSpecImpl<PhysicalSizeWrapper<P>> for PhysicalSize<P> {
    open spec fn obeys_from_spec() -> bool {
        true
    }

    open spec fn from_spec(size: PhysicalSizeWrapper<P>) -> Self {
        size.0
    }
}

impl<P> From<PhysicalSize<P>> for PhysicalSizeWrapper<P> {
    fn from(size: PhysicalSize<P>) -> (result: Self) {
        PhysicalSizeWrapper(PhysicalSize { width: size.width, height: size.height })
    }
}

impl<P> vstd::std_specs::convert::FromSpecImpl<PhysicalSize<P>> for PhysicalSizeWrapper<P> {
    open spec fn obeys_from_spec() -> bool {
        true
    }

    open spec fn from_spec(size: PhysicalSize<P>) -> Self {
        PhysicalSizeWrapper(size)
    }
}

/// A size of the window system.
#[derive(Debug, Clone, Copy, PartialEq, Eq, Structural)]
pub struct LogicalSizeWrapper<P>(pub LogicalSize<P>);

impl<P> From<LogicalSize<P>> for LogicalSizeWrapper<P> {
    fn from(size: LogicalSize<P>) -> (result: Self) {
        LogicalSizeWrapper(LogicalSize { width: size.width, height: size.height })
    }
}

impl<P> vstd::std_specs::convert::FromSpecImpl<LogicalSize<P>> for LogicalSizeWrapper<P> {
    open spec fn obeys_from_spec() -> bool {
        true
    }

    open spec fn from_spec(size: LogicalSize<P>) -> Self {
        LogicalSizeWrapper(size)
    }
}

/// A size of the window system, in either unit.
#[derive(Debug, Clone, Copy, PartialEq, Eq, Structural)]
pub struct SizeWrapper(pub Size);

impl From<Size> for SizeWrapper {
    fn from(size: Size) -> (result: Self) {
        match size {
            Size::Logical(size) => SizeWrapper(
                Size::Logical(LogicalSizeWrapper::from(size).0),
            ),
            Size::Physical(size) => SizeWrapper(
                Size::Physical(PhysicalSizeWrapper::from(size).0),
            ),
        }
    }
}

impl vstd::std_specs::convert::FromSpecImpl<Size> for SizeWrapper {
    open spec fn obeys_from_spec() -> bool {
        true
    }

    open spec fn from_spec(size: Size) -> Self {
        SizeWrapper(size)
    }
}

/// A position of the window system, in either unit.
#[derive(Debug, Clone, Copy, PartialEq, Eq, Structural)]
pub struct PositionWrapper(pub Position);

impl From<Position> for PositionWrapper {
    fn from(position: Position) -> (result: Self) {
        match position {
            Position::Logical(position) => PositionWrapper(
                Position::Logical(LogicalPositionWrapper::from(position).0),
            ),
            Position::Physical(position) => PositionWrapper(
                Position::Physical(PhysicalPositionWrapper::from(position).0),
            ),
        }
    }
}

impl vstd::std_specs::convert::FromSpecImpl<Position> for PositionWrapper {
    open spec fn obeys_from_spec() -> bool {
        true
    }

    open spec fn from_spec(position: Position) -> Self {
        PositionWrapper(position)
    }
}

/// How urgently the user's attention is asked for.
#[derive(Debug, Clone, Copy, PartialEq, Eq, Structural)]
pub enum UserAttentionType {
    Critical,
    Informational,
}

/// How the window system asks for the user's attention.
#[derive(Debug, Clone, Copy, PartialEq, Eq, Structural)]
pub enum TaoUserAttentionType {
    Critical,
    Informational,
}

/// A request for attention, as the window system has it.
#[derive(Debug, Clone, Copy, PartialEq, Eq, Structural)]
pub struct UserAttentionTypeWrapper(pub TaoUserAttentionType);

impl From<UserAttentionType> for UserAttentionTypeWrapper {
    fn from(item: UserAttentionType) -> (wrapper: Self) {
        let value = match item {
            UserAttentionType::Critical => TaoUserAttentionType::Critical,
            UserAttentionType::Informational => TaoUserAttentionType::Informational,
        };
        UserAttentionTypeWrapper(value)
    }
}

impl vstd::std_specs::convert::FromSpecImpl<UserAttentionType> for UserAttentionTypeWrapper {
    open spec fn obeys_from_spec() -> bool {
        true
    }

    open spec fn from_spec(item: UserAttentionType) -> Self {
        UserAttentionTypeWrapper(
            match item {
                    UserAttentionType::Critical => TaoUserAttentionType::Critical,
                    UserAttentionType::Informational => TaoUserAttentionType::Informational,
            },
        )
    }
}

/// The shape of the cursor.
#[derive(Debug, Clone, Copy, PartialEq, Eq, Structural)]
pub enum CursorIcon {
    Default,
    Crosshair,
    Hand,
    Arrow,
    Move,
    Text,
    Wait,
    Help,
    Progress,
    NotAllowed,
    ContextMenu,
    Cell,
    VerticalText,
    Alias,
    Copy,
    NoDrop,
    Grab,
    Grabbing,
    AllScroll,
    ZoomIn,
    ZoomOut,
    EResize,
    NResize,
    NeResize,
    NwResize,
    SResize,
    SeResize,
    SwResize,
    WResize,
    EwResize,
    NsResize,
    NeswResize,
    NwseResize,
    ColResize,
    RowResize,
}

/// The shape of the cursor, as the window system has it.
#[derive(Debug, Clone, Copy, PartialEq, Eq, Structural)]
pub enum TaoCursorIcon {
    Default,
    Crosshair,
    Hand,
    Arrow,
    Move,
    Text,
    Wait,
    Help,
    Progress,
    NotAllowed,
    ContextMenu,
    Cell,
    VerticalText,
    Alias,
    Copy,
    NoDrop,
    Grab,
    Grabbing,
    AllScroll,
    ZoomIn,
    ZoomOut,
    EResize,
    NResize,
    NeResize,
    NwResize,
    SResize,
    SeResize,
    SwResize,
    WResize,
    EwResize,
    NsResize,
    NeswResize,
    NwseResize,
    ColResize,
    RowResize,
}

/// A cursor shape of the window system.
#[derive(Debug, Clone, Copy, PartialEq, Eq, Structural)]
pub struct CursorIconWrapper(pub TaoCursorIcon);

impl From<CursorIcon> for CursorIconWrapper {
    fn from(item: CursorIcon) -> (wrapper: Self) {
        let value = match item {
            CursorIcon::Default => TaoCursorIcon::Default,
            CursorIcon::Crosshair => TaoCursorIcon::Crosshair,
            CursorIcon::Hand => TaoCursorIcon::Hand,
            CursorIcon::Arrow => TaoCursorIcon::Arrow,
            CursorIcon::Move => TaoCursorIcon::Move,
            CursorIcon::Text => TaoCursorIcon::Text,
            CursorIcon::Wait => TaoCursorIcon::Wait,
            CursorIcon::Help => TaoCursorIcon::Help,
            CursorIcon::Progress => TaoCursorIcon::Progress,
            CursorIcon::NotAllowed => TaoCursorIcon::NotAllowed,
            CursorIcon::ContextMenu => TaoCursorIcon::ContextMenu,
            CursorIcon::Cell => TaoCursorIcon::Cell,
            CursorIcon::VerticalText => TaoCursorIcon::VerticalText,
            CursorIcon::Alias => TaoCursorIcon::Alias,
            CursorIcon::Copy => TaoCursorIcon::Copy,
            CursorIcon::NoDrop => TaoCursorIcon::NoDrop,
            CursorIcon::Grab => TaoCursorIcon::Grab,
            CursorIcon::Grabbing => TaoCursorIcon::Grabbing,
            CursorIcon::AllScroll => TaoCursorIcon::AllScroll,
            CursorIcon::ZoomIn => TaoCursorIcon::ZoomIn,
            CursorIcon::ZoomOut => TaoCursorIcon::ZoomOut,
            CursorIcon::EResize => TaoCursorIcon::EResize,
            CursorIcon::NResize => TaoCursorIcon::NResize,
            CursorIcon::NeResize => TaoCursorIcon::NeResize,
            CursorIcon::NwResize => TaoCursorIcon::NwResize,
            CursorIcon::SResize => TaoCursorIcon::SResize,
            CursorIcon::SeResize => TaoCursorIcon::SeResize,
            CursorIcon::SwResize => TaoCursorIcon::SwResize,
            CursorIcon::WResize => TaoCursorIcon::WResize,
            CursorIcon::EwResize => TaoCursorIcon::EwResize,
            CursorIcon::NsResize => TaoCursorIcon::NsResize,
            CursorIcon::NeswResize => TaoCursorIcon::NeswResize,
            CursorIcon::NwseResize => TaoCursorIcon::NwseResize,
            CursorIcon::ColResize => TaoCursorIcon::ColResize,
            CursorIcon::RowResize => TaoCursorIcon::RowResize,
        };
        CursorIconWrapper(value)
    }
}

impl vstd::std_specs::convert::FromSpecImpl<CursorIcon> for CursorIconWrapper {
    open spec fn obeys_from_spec() -> bool {
        true
    }

    open spec fn from_spec(item: CursorIcon) -> Self {
        CursorIconWrapper(
            match item {
                    CursorIcon::Default => TaoCursorIcon::Default,
                    CursorIcon::Crosshair => TaoCursorIcon::Crosshair,
                    CursorIcon::Hand => TaoCursorIcon::Hand,
                    CursorIcon::Arrow => TaoCursorIcon::Arrow,
                    CursorIcon::Move => TaoCursorIcon::Move,
                    CursorIcon::Text => TaoCursorIcon::Text,
                    CursorIcon::Wait => TaoCursorIcon::Wait,
                    CursorIcon::Help => TaoCursorIcon::Help,
                    CursorIcon::Progress => TaoCursorIcon::Progress,
                    CursorIcon::NotAllowed => TaoCursorIcon::NotAllowed,
                    CursorIcon::ContextMenu => TaoCursorIcon::ContextMenu,
                    CursorIcon::Cell => TaoCursorIcon::Cell,
                    CursorIcon::VerticalText => TaoCursorIcon::VerticalText,
                    CursorIcon::Alias => TaoCursorIcon::Alias,
                    CursorIcon::Copy => TaoCursorIcon::Copy,
                    CursorIcon::NoDrop => TaoCursorIcon::NoDrop,
                    CursorIcon::Grab => TaoCursorIcon::Grab,
                    CursorIcon::Grabbing => TaoCursorIcon::Grabbing,
                    CursorIcon::AllScroll => TaoCursorIcon::AllScroll,
                    CursorIcon::ZoomIn => TaoCursorIcon::ZoomIn,
                    CursorIcon::ZoomOut => TaoCursorIcon::ZoomOut,
                    CursorIcon::EResize => TaoCursorIcon::EResize,
                    CursorIcon::NResize => TaoCursorIcon::NResize,
                    CursorIcon::NeResize => TaoCursorIcon::NeResize,
                    CursorIcon::NwResize => TaoCursorIcon::NwResize,
                    CursorIcon::SResize => TaoCursorIcon::SResize,
                    CursorIcon::SeResize => TaoCursorIcon::SeResize,
                    CursorIcon::SwResize => TaoCursorIcon::SwResize,
                    CursorIcon::WResize => TaoCursorIcon::WResize,
                    CursorIcon::EwResize => TaoCursorIcon::EwResize,
                    CursorIcon::NsResize => TaoCursorIcon::NsResize,
                    CursorIcon::NeswResize => TaoCursorIcon::NeswResize,
                    CursorIcon::NwseResize => TaoCursorIcon::NwseResize,
                    CursorIcon::ColResize => TaoCursorIcon::ColResize,
                    CursorIcon::RowResize => TaoCursorIcon::RowResize,
            },
        )
    }
}

/// The state of a progress bar.
#[derive(Debug, Clone, Copy, PartialEq, Eq, Structural)]
pub enum ProgressBarStatus {
    /// No progress is shown.
    Absent,
    Normal,
    Indeterminate,
    Paused,
    Error,
}

/// The state of a progress bar, as the window system has it.
#[derive(Debug, Clone, Copy, PartialEq, Eq, Structural)]
pub enum TaoProgressState {
    /// No progress is shown.
    Absent,
    Normal,
    Indeterminate,
    Paused,
    Error,
}

/// A progress bar state of the window system.
#[derive(Debug, Clone, Copy, PartialEq, Eq, Structural)]
pub struct ProgressStateWrapper(pub TaoProgressState);

impl From<ProgressBarStatus> for ProgressStateWrapper {
    fn from(item: ProgressBarStatus) -> (wrapper: Self) {
        let value = match item {
            ProgressBarStatus::Absent => TaoProgressState::Absent,
            ProgressBarStatus::Normal => TaoProgressState::Normal,
            ProgressBarStatus::Indeterminate => TaoProgressState::Indeterminate,
            ProgressBarStatus::Paused => TaoProgressState::Paused,
            ProgressBarStatus::Error => TaoProgressState::Error,
        };
        ProgressStateWrapper(value)
    }
}

impl vstd::std_specs::convert::FromSpecImpl<ProgressBarStatus> for ProgressStateWrapper {
    open spec fn obeys_from_spec() -> bool {
        true
    }

    open spec fn from_spec(item: ProgressBarStatus) -> Self {
        ProgressStateWrapper(
            match item {
                    ProgressBarStatus::Absent => TaoProgressState::Absent,
                    ProgressBarStatus::Normal => TaoProgressState::Normal,
                    ProgressBarStatus::Indeterminate => TaoProgressState::Indeterminate,
                    ProgressBarStatus::Paused => TaoProgressState::Paused,
                    ProgressBarStatus::Error => TaoProgressState::Error,
            },
        )
    }
}

/// A progress bar.
#[derive(Debug)]
pub struct ProgressBarState {
    pub status: Option<ProgressBarStatus>,
    pub progress: Option<u64>,
    pub desktop_filename: Option<String>,
}

/// A progress bar, as the window system has it.
#[derive(Debug)]
pub struct TaoProgressBarState {
    pub progress: Option<u64>,
    pub state: Option<TaoProgressState>,
    pub desktop_filename: Option<String>,
}

/// A progress bar of the window system.
#[derive(Debug)]
pub struct ProgressBarStateWrapper(pub TaoProgressBarState);

impl From<ProgressBarState> for ProgressBarStateWrapper {
    fn from(progress_state: ProgressBarState) -> (result: Self) {
        let state = match progress_state.status {
            Some(status) => Some(ProgressStateWrapper::from(status).0),
            None => None,
        };
        ProgressBarStateWrapper(
            TaoProgressBarState {
                progress: progress_state.progress,
                state,
                desktop_filename: progress_state.desktop_filename,
            },
        )
    }
}

impl vstd::std_specs::convert::FromSpecImpl<ProgressBarState> for ProgressBarStateWrapper {
    open spec fn obeys_from_spec() -> bool {
        true
    }

    open spec fn from_spec(progress_state: ProgressBarState) -> Self {
        ProgressBarStateWrapper(
            TaoProgressBarState {
                progress: progress_state.progress,
                state: match progress_state.status {
                    Some(status) => Some(
                        <ProgressStateWrapper as vstd::std_specs::convert::FromSpec<
                            ProgressBarStatus,
                        >>::from_spec(status).0,
                    ),
                    None => None,
                },
                desktop_filename: progress_state.desktop_filename,
            },
        )
    }
}

/// The edge or corner that a window is resized at.
#[derive(Debug, Clone, Copy, PartialEq, Eq, Structural)]
pub enum ResizeDirection {
    East,
    North,
    NorthEast,
    NorthWest,
    South,
    SouthEast,
    SouthWest,
    West,
}

/// The edge or corner that the window system resizes a window at.
#[derive(Debug, Clone, Copy, PartialEq, Eq, Structural)]
pub enum TaoResizeDirection {
    East,
    North,
    NorthEast,
    NorthWest,
    South,
    SouthEast,
    SouthWest,
    West,
}

/// A resize direction of the window system.
#[derive(Debug, Clone, Copy, PartialEq, Eq, Structural)]
pub struct ResizeDirectionWrapper(pub TaoResizeDirection);

impl From<ResizeDirection> for ResizeDirectionWrapper {
    fn from(item: ResizeDirection) -> (wrapper: Self) {
        let value = match item {
            ResizeDirection::East => TaoResizeDirection::East,
            ResizeDirection::North => TaoResizeDirection::North,
            ResizeDirection::NorthEast => TaoResizeDirection::NorthEast,
            ResizeDirection::NorthWest => TaoResizeDirection::NorthWest,
            ResizeDirection::South => TaoResizeDirection::South,
            ResizeDirection::SouthEast => TaoResizeDirection::SouthEast,
            ResizeDirection::SouthWest => TaoResizeDirection::SouthWest,
            ResizeDirection::West => TaoResizeDirection::West,
        };
        ResizeDirectionWrapper(value)
    }
}

impl vstd::std_specs::convert::FromSpecImpl<ResizeDirection> for ResizeDirectionWrapper {
    open spec fn obeys_from_spec() -> bool {
        true
    }

    open spec fn from_spec(item: ResizeDirection) -> Self {
        ResizeDirectionWrapper(
            match item {
                    ResizeDirection::East => TaoResizeDirection::East,
                    ResizeDirection::North => TaoResizeDirection::North,
                    ResizeDirection::NorthEast => TaoResizeDirection::NorthEast,
                    ResizeDirection::NorthWest => TaoResizeDirection::NorthWest,
                    ResizeDirection::South => TaoResizeDirection::South,
                    ResizeDirection::SouthEast => TaoResizeDirection::SouthEast,
                    ResizeDirection::SouthWest => TaoResizeDirection::SouthWest,
                    ResizeDirection::West => TaoResizeDirection::West,
            },
        )
    }
}

} // verus!
