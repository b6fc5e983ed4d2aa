//! Why an operation on a webview failed.

use vstd::prelude::*;

verus! {

/// Why an operation on a webview failed.
#[derive(Debug, Clone, Copy, PartialEq, Eq, Structural)]
pub enum WebviewError {
    BrowserUnavailable,
    HostUnavailable,
    ChildHandleUnavailable,
    XlibUnavailable,
    DisplayUnavailable,
    CookieManagerUnavailable,
    CookieQueryFailed,
    CookieUrlUnknown,
    SetCookieFailed,
    DeleteCookieFailed,
    ContextUnavailable,
}

/// The message of an error.
pub open spec fn message_of(error: WebviewError) -> Seq<char> {
    match error {
        WebviewError::BrowserUnavailable => "browser is not available"@,
        WebviewError::HostUnavailable => "browser host is not available"@,
        WebviewError::ChildHandleUnavailable => "browser child window handle is not available"@,
        WebviewError::XlibUnavailable => "failed to open Xlib"@,
        WebviewError::DisplayUnavailable => "failed to open X11 display"@,
        WebviewError::CookieManagerUnavailable => "cookie manager is not available"@,
        WebviewError::CookieQueryFailed => "failed to start cookie query"@,
        WebviewError::CookieUrlUnknown => "unable to determine cookie URL"@,
        WebviewError::SetCookieFailed => "failed to set cookie"@,
        WebviewError::DeleteCookieFailed => "failed to delete cookie"@,
        WebviewError::ContextUnavailable => "browser context is not available"@,
    }
}

impl WebviewError {
    /// The message shown for this error.
    pub fn message(&self) -> (text: String)
        ensures
            text@ == message_of(*self),
    {
        match self {
            WebviewError::BrowserUnavailable => "browser is not available".to_string(),
            WebviewError::HostUnavailable => "browser host is not available".to_string(),
            WebviewError::ChildHandleUnavailable => "browser child window handle is not available".to_string(),
            WebviewError::XlibUnavailable => "failed to open Xlib".to_string(),
            WebviewError::DisplayUnavailable => "failed to open X11 display".to_string(),
            WebviewError::CookieManagerUnavailable => "cookie manager is not available".to_string(),
            WebviewError::CookieQueryFailed => "failed to start cookie query".to_string(),
            WebviewError::CookieUrlUnknown => "unable to determine cookie URL".to_string(),
            WebviewError::SetCookieFailed => "failed to set cookie".to_string(),
            WebviewError::DeleteCookieFailed => "failed to delete cookie".to_string(),
            WebviewError::ContextUnavailable => "browser context is not available".to_string(),
        }
    }
}

/// Every error has a message of its own.
pub proof fn lemma_errors_have_messages(error: WebviewError, text: String)
    requires
        call_ensures(WebviewError::message, (&error,), text),
    ensures
        error is BrowserUnavailable ==> text@ == "browser is not available"@,
        error is HostUnavailable ==> text@ == "browser host is not available"@,
        error is ChildHandleUnavailable ==> text@ == "browser child window handle is not available"@,
        error is XlibUnavailable ==> text@ == "failed to open Xlib"@,
        error is DisplayUnavailable ==> text@ == "failed to open X11 display"@,
        error is CookieManagerUnavailable ==> text@ == "cookie manager is not available"@,
        error is CookieQueryFailed ==> text@ == "failed to start cookie query"@,
        error is CookieUrlUnknown ==> text@ == "unable to determine cookie URL"@,
        error is SetCookieFailed ==> text@ == "failed to set cookie"@,
        error is DeleteCookieFailed ==> text@ == "failed to delete cookie"@,
        error is ContextUnavailable ==> text@ == "browser context is not available"@,
{
}

} // verus!
