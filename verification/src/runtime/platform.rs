//! What the runtime was built for.

use vstd::prelude::*;

verus! {

/// The operating system.
#[derive(Debug, Clone, Copy, PartialEq, Eq, Structural)]
pub enum Platform {
    /// Linux and the BSDs.
    Linux,
    Windows,
    MacOs,
    Ios,
    Android,
}

/// How the runtime was built.
#[derive(Debug, Clone, Copy, PartialEq, Eq, Structural)]
pub struct BuildOptions {
    pub platform: Platform,
    /// Browsers on Wayland render off screen.
    pub wayland_osr: bool,
    /// The webview of a new window is a child of it like any other.
    pub unstable: bool,
    /// Handlers for new windows get to answer.
    pub new_window_opener_optional: bool,
    /// Private interfaces of macOS are used.
    pub macos_private_api: bool,
    /// Spans trace what the runtime does.
    pub tracing: bool,
}

impl BuildOptions {
    /// Whoever runs a script waits until it was run, so that it runs in the span of the
    /// caller.
    pub open spec fn traces_scripts_spec(self) -> bool {
        self.tracing && self.platform != Platform::Android
    }

    /// Whether whoever runs a script waits until it was run.
    pub fn traces_scripts(self) -> (result: bool)
        ensures
            result == self.traces_scripts_spec(),
    {
        self.tracing && self.platform != Platform::Android
    }
}

impl Platform {
    /// The platform has windows that can be arranged on a desktop.
    pub open spec fn is_desktop_spec(self) -> bool {
        self == Platform::Linux || self == Platform::Windows || self == Platform::MacOs
    }

    /// Whether the platform has windows that can be arranged on a desktop.
    pub fn is_desktop(self) -> (result: bool)
        ensures
            result == self.is_desktop_spec(),
    {
        match self {
            Platform::Linux | Platform::Windows | Platform::MacOs => true,
            Platform::Ios | Platform::Android => false,
        }
    }
}

/// The phones have no desktop and every other platform has one; scripts are traced wherever the
/// runtime is, but on Android.
pub proof fn lemma_what_platforms_have(
    platform: Platform,
    desktop: bool,
    options: BuildOptions,
    traces: bool,
)
    requires
        call_ensures(Platform::is_desktop, (platform,), desktop),
        call_ensures(BuildOptions::traces_scripts, (options,), traces),
    ensures
        !desktop <==> platform is Ios || platform is Android,
        traces <==> options.tracing && !(options.platform is Android),
{
}

} // verus!
