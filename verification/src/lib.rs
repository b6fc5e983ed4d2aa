//! The Chromium Embedded Framework (CEF) as a runtime for desktop applications: the
//! part that decides.
//!
//! Nothing here calls CEF, the window system or the clock. Where the runtime needs one
//! of them, a function returns what is to be done, and another one takes the answer. So
//! every decision is a function of plain values, and its contract says what it is.
//!
//! - `external_message_pump`, `pump` and `tao` schedule the message loop of CEF.
//! - `bootstrap` and `config` start CEF.
//! - `cef_calls`, `browser_slot`, `dispatch` and `dispatch_trait` talk to a browser, and
//!   `client` listens to one.
//! - `osr` and `tao_window` show what a browser renders.
//! - `runtime` has windows and webviews, the event loop, and the messages to it.

pub mod external_message_pump;
pub mod pump;
pub mod tao;
pub mod text;
pub mod cef_calls;
pub mod browser_slot;
pub mod dispatch;
pub mod dispatch_trait;
pub mod client;
pub mod config;
pub mod tao_window;
pub mod bootstrap;
pub mod osr;
pub mod runtime;
