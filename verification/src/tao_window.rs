//! Window handles for the windows that CEF embeds its browsers in.

use vstd::prelude::*;

verus! {

/// Why a window cannot host a browser.
#[derive(Debug, Clone, Copy, PartialEq, Eq, Structural)]
pub enum HostWindowError {
    RawHandleUnavailable,
    SizeOverflow,
    WaylandUnsupported,
    UnsupportedHandle,
}

/// The message of an error.
pub open spec fn message_of(error: HostWindowError) -> Seq<char> {
    match error {
        HostWindowError::RawHandleUnavailable => "failed to obtain raw window handle"@,
        HostWindowError::SizeOverflow => "window dimensions exceed i32 limits"@,
        HostWindowError::WaylandUnsupported => {
            "wayland embedding is not supported by this prototype; run with X11 backend"@
        },
        HostWindowError::UnsupportedHandle => "unsupported Tao window handle for CEF embedding"@,
    }
}

impl HostWindowError {
    /// The message shown for this error.
    pub fn message(&self) -> (text: String)
        ensures
            text@ == message_of(*self),
    {
        match self {
            HostWindowError::RawHandleUnavailable => {
                "failed to obtain raw window handle".to_string()
            },
            HostWindowError::SizeOverflow => "window dimensions exceed i32 limits".to_string(),
            HostWindowError::WaylandUnsupported => {
                "wayland embedding is not supported by this prototype; run with X11 backend".to_string()
            },
            HostWindowError::UnsupportedHandle => {
                "unsupported Tao window handle for CEF embedding".to_string()
            },
        }
    }
}

/// The raw handle of a window: its window number or its address, by windowing
/// system. CEF embeds into no windowing system but those named here.
#[derive(Debug, Clone, Copy, PartialEq, Eq, Structural)]
pub enum RawHandle {
    Win32 { hwnd: usize },
    Xlib { window: usize },
    Xcb { window: usize },
    Wayland { surface: usize },
    AppKit { ns_view: usize },
    Other,
}

/// The handle by which CEF knows a window.
#[derive(Debug, Clone, Copy, PartialEq, Eq, Structural)]
pub struct CefWindowHandle {
    pub value: usize,
}

/// The CEF handle of a window, if it has one.
pub open spec fn parent_handle(raw: RawHandle) -> Result<CefWindowHandle, HostWindowError> {
    match raw {
        RawHandle::Win32 { hwnd } => Ok(CefWindowHandle { value: hwnd }),
        RawHandle::Xlib { window } => Ok(CefWindowHandle { value: window }),
        RawHandle::Xcb { window } => Ok(CefWindowHandle { value: window }),
        RawHandle::Wayland { surface } => Ok(CefWindowHandle { value: surface }),
        RawHandle::AppKit { ns_view } => Ok(CefWindowHandle { value: ns_view }),
        RawHandle::Other => Err(HostWindowError::UnsupportedHandle),
    }
}

/// A window that hosts a browser.
#[derive(Debug, Clone, Copy, PartialEq, Eq, Structural)]
pub struct HostWindowInfo {
    pub parent_handle: CefWindowHandle,
    pub width: i32,
    pub height: i32,
}

impl HostWindowInfo {
    /// Describes a window of `width` by `height` physical pixels to CEF.
    ///
    /// `raw` is `None` where the windowing system gives no handle out.
    pub fn from_tao_window(width: u32, height: u32, raw: Option<RawHandle>) -> (result: Result<
        HostWindowInfo,
        HostWindowError,
    >)
        ensures
            result == if width > i32::MAX || height > i32::MAX {
                Err(HostWindowError::SizeOverflow)
            } else {
                match raw {
                    None => Err(HostWindowError::RawHandleUnavailable),
                    Some(raw) => match parent_handle(raw) {
                        Err(error) => Err(error),
                        Ok(parent_handle) => Ok(
                            HostWindowInfo {
                                parent_handle,
                                width: width as i32,
                                height: height as i32,
                            },
                        ),
                    },
                }
            },
    {
        if width > 0x7fff_ffff || height > 0x7fff_ffff {
            return Err(HostWindowError::SizeOverflow);
        }
        match raw {
            None => Err(HostWindowError::RawHandleUnavailable),
            Some(raw) => match cef_parent_handle_from_raw(raw) {
                Err(error) => Err(error),
                Ok(parent_handle) => Ok(
                    HostWindowInfo { parent_handle, width: width as i32, height: height as i32 },
                ),
            },
        }
    }
}

/// The CEF handle of a window.
pub fn cef_parent_handle_from_raw(raw: RawHandle) -> (result: Result<
    CefWindowHandle,
    HostWindowError,
>)
    ensures
        result == parent_handle(raw),
{
    match raw {
        RawHandle::Win32 { hwnd } => Ok(cef_window_handle_from_usize(hwnd)),
        RawHandle::Xlib { window } => Ok(cef_window_handle_from_usize(window)),
        RawHandle::Xcb { window } => Ok(cef_window_handle_from_usize(window)),
        RawHandle::Wayland { surface } => Ok(cef_window_handle_from_usize(surface)),
        RawHandle::AppKit { ns_view } => Ok(cef_window_handle_from_usize(ns_view)),
        RawHandle::Other => Err(HostWindowError::UnsupportedHandle),
    }
}

/// The handle of no window.
pub fn cef_null_window_handle() -> (handle: CefWindowHandle)
    ensures
        handle.value == 0,
{
    cef_window_handle_from_usize(0)
}

/// Whether a handle is that of no window.
pub fn cef_window_handle_is_null(handle: CefWindowHandle) -> (is_null: bool)
    ensures
        is_null == (handle.value == 0),
{
    handle.value == 0
}

fn cef_window_handle_from_usize(value: usize) -> (handle: CefWindowHandle)
    ensures
        handle.value == value,
{
    CefWindowHandle { value }
}

/// A window hosts a browser by the handle that its windowing system gave it, whichever that
/// is, if its size can be told to CEF; that is looked at first. A handle is null exactly if it
/// is zero.
pub proof fn lemma_window_is_known_by_its_handle(
    width: u32,
    height: u32,
    raw: Option<RawHandle>,
    result: Result<HostWindowInfo, HostWindowError>,
    handle: CefWindowHandle,
    is_null: bool,
    null: CefWindowHandle,
)
    requires
        call_ensures(HostWindowInfo::from_tao_window, (width, height, raw), result),
        call_ensures(cef_window_handle_is_null, (handle,), is_null),
        call_ensures(cef_null_window_handle, (), null),
    ensures
        ({
            let fits = width <= 0x7fff_ffff && height <= 0x7fff_ffff;
            let number: Option<usize> = match raw {
                Some(RawHandle::Win32 { hwnd }) => Some(hwnd),
                Some(RawHandle::Xlib { window }) => Some(window),
                Some(RawHandle::Xcb { window }) => Some(window),
                Some(RawHandle::Wayland { surface }) => Some(surface),
                Some(RawHandle::AppKit { ns_view }) => Some(ns_view),
                _ => None,
            };
            &&& !fits ==> result == Err::<HostWindowInfo, _>(HostWindowError::SizeOverflow)
            &&& fits && raw is None ==> result == Err::<HostWindowInfo, _>(
                HostWindowError::RawHandleUnavailable,
            )
            &&& fits && raw == Some(RawHandle::Other) ==> result == Err::<HostWindowInfo, _>(
                HostWindowError::UnsupportedHandle,
            )
            &&& fits && number is Some ==> {
                &&& result is Ok
                &&& result->Ok_0.parent_handle.value == number->Some_0
                &&& result->Ok_0.width == width
                &&& result->Ok_0.height == height
            }
        }),
        is_null <==> handle.value == 0,
        null.value == 0,
{
}

/// The handle of a window for CEF is the number that the window system has for it; a window
/// system that CEF does not know is an error.
pub proof fn lemma_handles_are_numbers(
    raw: RawHandle,
    result: Result<CefWindowHandle, HostWindowError>,
)
    requires
        call_ensures(cef_parent_handle_from_raw, (raw,), result),
    ensures
        raw matches RawHandle::Win32 { hwnd } ==> result is Ok && result->Ok_0.value == hwnd,
        raw matches RawHandle::Xlib { window } ==> result is Ok && result->Ok_0.value == window,
        raw matches RawHandle::Xcb { window } ==> result is Ok && result->Ok_0.value == window,
        raw matches RawHandle::Wayland { surface } ==> result is Ok && result->Ok_0.value
            == surface,
        raw matches RawHandle::AppKit { ns_view } ==> result is Ok && result->Ok_0.value
            == ns_view,
        raw is Other ==> result == Err::<CefWindowHandle, HostWindowError>(
            HostWindowError::UnsupportedHandle,
        ),
{
}

} // verus!
