//! The windowing runtime: windows, webviews, and the messages between threads and
//! the event loop.

pub mod platform;
pub mod dpi;
pub mod color;
pub mod geometry;
pub mod conversions;
pub mod window_builder;
pub mod web;
pub mod urls;
pub mod cookies;
pub mod preferences;
pub mod init_scripts;
pub mod store;
pub mod dialog;
pub mod webview_error;
pub mod webview;
pub mod keyboard;
pub mod input;
pub mod messages;
pub mod window_messages;
pub mod undecorated_resizing;
pub mod user_messages;
pub mod window_message_laws;
pub mod webview_message_laws;
pub mod follow_ups;
pub mod loop_events;
pub mod event_loop;
pub mod event_laws;
pub mod webview_client;
pub mod webview_events;
pub mod create_webview;
pub mod create_window;
pub mod tracing_spans;
pub mod context;
pub mod window_dispatcher;
pub mod webview_dispatcher;
pub mod handle;
pub mod dispatcher_laws;
pub mod conversion_laws;
