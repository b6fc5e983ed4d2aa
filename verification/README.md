# tauri_runtime_cef

A runtime for Tauri applications whose webviews are browsers of the Chromium Embedded
Framework (CEF). The library decides; it does no input or output of its own. Its functions
and state machines take what CEF, the window system and the application reported and
return what is to be done next, and Verus proves that they do what their contracts say.

- `src/` is the verified library.
  - `external_message_pump`, `pump` and `tao` schedule the work of CEF's message loop.
  - `bootstrap` and `config` start CEF, in the browser process and in its subprocesses.
  - `cef_calls` describes calls into CEF one after the other, and `browser_slot`,
    `dispatch`, `dispatch_trait` and `client` say which calls there are and what CEF's
    callbacks come to. A slot is a place among others: its copies share the browser that
    is in it. The cells for the windows of webviews in `runtime` are such places too.
  - `osr` keeps the pixels of browsers that render off screen.
  - `tao_window` finds the native window that a browser is a child of.
  - `runtime` holds windows and webviews: the stores, the messages and how they are
    handled, the event loop, how windows and webviews are created, cookies, custom
    protocols, and the dispatchers that applications use.
- `app/` carries the decisions out. It is generic over CEF, the window system and the
  application, and holds what takes floating-point numbers, native handles, threads or
  the clock.
- `tests/` runs the library on concrete values.

What is believed without proof stands in `src/runtime/web.rs`: how the `url` crate takes an
address apart, and how the `http` crate keeps headers. Of very many headers it is not said
whether one more fits.
