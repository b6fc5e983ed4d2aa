//! Configuration of the CEF process.

use vstd::prelude::*;

verus! {

/// A CEF color, `0xAARRGGBB`.
pub type Color = u32;

/// How the application wants CEF to run.
#[derive(Debug, Clone)]
pub struct CefRuntimeConfig {
    pub no_sandbox: bool,
    pub external_message_pump: bool,
    pub multi_threaded_message_loop: bool,
    pub root_cache_path: Option<String>,
    pub cache_path: Option<String>,
    pub user_agent: Option<String>,
    pub background_color: Option<Color>,
}

/// The settings that CEF is initialized with. What is `None` keeps the value that
/// CEF gives it.
#[derive(Debug, Clone)]
pub struct Settings {
    pub no_sandbox: i32,
    pub external_message_pump: i32,
    pub multi_threaded_message_loop: i32,
    /// Browsers may render off screen.
    pub windowless_rendering_enabled: i32,
    pub root_cache_path: Option<String>,
    pub cache_path: Option<String>,
    pub user_agent: Option<String>,
    pub background_color: Option<Color>,
}

/// A flag as CEF has it.
pub open spec fn flag_value(flag: bool) -> i32 {
    if flag {
        1
    } else {
        0
    }
}

/// A flag as CEF has it.
pub fn flag(set: bool) -> (value: i32)
    ensures
        value == flag_value(set),
{
    if set {
        1
    } else {
        0
    }
}

/// The settings that a configuration stands for.
pub open spec fn settings_of(config: CefRuntimeConfig) -> Settings {
    Settings {
        no_sandbox: flag_value(config.no_sandbox),
        external_message_pump: flag_value(config.external_message_pump),
        multi_threaded_message_loop: flag_value(config.multi_threaded_message_loop),
        windowless_rendering_enabled: 0,
        root_cache_path: config.root_cache_path,
        cache_path: config.cache_path,
        user_agent: config.user_agent,
        background_color: config.background_color,
    }
}

/// The configuration that is used unless the application says otherwise.
pub open spec fn default_config() -> CefRuntimeConfig {
    CefRuntimeConfig {
        no_sandbox: true,
        external_message_pump: true,
        multi_threaded_message_loop: false,
        root_cache_path: None,
        cache_path: None,
        user_agent: None,
        background_color: None,
    }
}

impl Default for CefRuntimeConfig {
    fn default() -> (config: Self)
        ensures
            config == default_config(),
    {
        CefRuntimeConfig {
            no_sandbox: true,
            external_message_pump: true,
            multi_threaded_message_loop: false,
            root_cache_path: None,
            cache_path: None,
            user_agent: None,
            background_color: None,
        }
    }
}

impl CefRuntimeConfig {
    /// The settings that CEF is initialized with.
    pub fn into_settings(self) -> (settings: Settings)
        ensures
            settings == settings_of(self),
    {
        Settings {
            no_sandbox: flag(self.no_sandbox),
            external_message_pump: flag(self.external_message_pump),
            multi_threaded_message_loop: flag(self.multi_threaded_message_loop),
            windowless_rendering_enabled: 0,
            root_cache_path: self.root_cache_path,
            cache_path: self.cache_path,
            user_agent: self.user_agent,
            background_color: self.background_color,
        }
    }
}

/// CEF is told what the configuration says: flags as one or zero, and paths, user agent and
/// background color as they are. Rendering off screen is not for the configuration.
pub proof fn lemma_settings_say_what_the_configuration_says(
    config: CefRuntimeConfig,
    settings: Settings,
)
    requires
        call_ensures(CefRuntimeConfig::into_settings, (config,), settings),
    ensures
        settings.no_sandbox == 1 <==> config.no_sandbox,
        settings.no_sandbox == 0 <==> !config.no_sandbox,
        settings.external_message_pump == 1 <==> config.external_message_pump,
        settings.external_message_pump == 0 <==> !config.external_message_pump,
        settings.multi_threaded_message_loop == 1 <==> config.multi_threaded_message_loop,
        settings.multi_threaded_message_loop == 0 <==> !config.multi_threaded_message_loop,
        settings.windowless_rendering_enabled == 0,
        settings.root_cache_path == config.root_cache_path,
        settings.cache_path == config.cache_path,
        settings.user_agent == config.user_agent,
        settings.background_color == config.background_color,
{
}

/// Unless the application says otherwise CEF runs without a sandbox, by the message pump, on
/// one thread, and with its own paths, user agent and background color.
pub proof fn lemma_default_configuration(config: CefRuntimeConfig)
    requires
        call_ensures(CefRuntimeConfig::default, (), config),
    ensures
        config.no_sandbox,
        config.external_message_pump,
        !config.multi_threaded_message_loop,
        config.root_cache_path is None,
        config.cache_path is None,
        config.user_agent is None,
        config.background_color is None,
{
}

} // verus!
