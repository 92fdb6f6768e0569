//! Plans for opening the two application windows.
//!
//! A plan is a plain record of every choice the application must hand to the
//! host framework when it opens a window: the label, the view to show, the
//! title, and the behaviour flags. The contracts pin each field to the
//! settings it mirrors, so the surrounding application only carries the plan
//! to the framework call, deciding nothing itself.

use vstd::prelude::*;

use crate::settings::AppSettings;

verus! {

/// The colour theme a window is opened with.
#[derive(Clone, Copy, Debug, PartialEq, Eq, Structural)]
pub enum WindowTheme {
    Dark,
    Light,
}

/// The theme that a theme name selects: exactly "dark" selects the dark
/// theme, every other name the light one.
pub open spec fn spec_theme_of(name: Seq<char>) -> WindowTheme {
    if name == "dark"@ {
        WindowTheme::Dark
    } else {
        WindowTheme::Light
    }
}

/// Chooses the window theme from the configured theme name.
pub fn theme_of(name: &String) -> (t: WindowTheme)
    ensures
        t == spec_theme_of(name@),
{
    let dark: String = "dark".to_owned();
    if *name == dark {
        WindowTheme::Dark
    } else {
        WindowTheme::Light
    }
}

/// Everything the application hands to the host framework when it creates
/// the main pet window.
pub struct MainWindowConfig {
    pub label: String,
    pub url: String,
    pub title: String,
    pub fullscreen: bool,
    pub resizable: bool,
    pub transparent: bool,
    pub always_on_top: bool,
    pub skip_taskbar: bool,
    /// Whether cursor events must be suppressed on the window once it is
    /// built, making it click-through.
    pub suppress_cursor_events: bool,
}

/// What the main window's creation plan must say under the given settings:
/// a fullscreen, non-resizable, transparent window labelled "main" showing
/// the root view, kept out of the taskbar, above it exactly when the
/// settings ask for that, and click-through exactly when pet interaction is
/// disabled.
pub open spec fn main_window_config_for(c: MainWindowConfig, s: AppSettings) -> bool {
    &&& c.label@ == "main"@
    &&& c.url@ == "/"@
    &&& c.title@ == "WindowPet"@
    &&& c.fullscreen
    &&& !c.resizable
    &&& c.transparent
    &&& c.always_on_top == s.allow_pet_above_taskbar
    &&& c.skip_taskbar
    &&& c.suppress_cursor_events == !s.allow_pet_interaction
}

/// Builds the creation plan for the main pet window from the settings.
pub fn main_window_config(settings: &AppSettings) -> (c: MainWindowConfig)
    ensures
        main_window_config_for(c, *settings),
{
    MainWindowConfig {
        label: "main".to_owned(),
        url: "/".to_owned(),
        title: "WindowPet".to_owned(),
        fullscreen: true,
        resizable: false,
        transparent: true,
        always_on_top: settings.allow_pet_above_taskbar,
        skip_taskbar: true,
        suppress_cursor_events: !settings.allow_pet_interaction,
    }
}

/// What reopening the main window amounts to: focus the window that already
/// exists, or create it from a full plan.
pub enum MainWindowAction {
    Focus,
    Create(MainWindowConfig),
}

/// Decides how to reopen the main window: an existing window is only brought
/// to focus; an absent one is created from the plan that the settings fix.
pub fn plan_main_window(main_exists: bool, settings: &AppSettings) -> (a: MainWindowAction)
    ensures
        main_exists <==> a is Focus,
        (a matches MainWindowAction::Create(c) ==> main_window_config_for(c, *settings)),
{
    if main_exists {
        MainWindowAction::Focus
    } else {
        MainWindowAction::Create(main_window_config(settings))
    }
}

/// Everything the application hands to the host framework when it creates
/// the setting window.
pub struct SettingWindowConfig {
    pub label: String,
    pub url: String,
    pub title: String,
    pub width: u32,
    pub height: u32,
    pub theme: WindowTheme,
    pub always_on_top: bool,
}

/// What the setting window's creation plan must say under the given
/// settings: a 1000 by 650 window labelled "setting" showing the "/setting"
/// view, themed after the configured theme name, above the taskbar exactly
/// when the settings ask for that.
pub open spec fn setting_window_config_for(c: SettingWindowConfig, s: AppSettings) -> bool {
    &&& c.label@ == "setting"@
    &&& c.url@ == "/setting"@
    &&& c.title@ == "WindowPet Setting"@
    &&& c.width == 1000
    &&& c.height == 650
    &&& c.theme == spec_theme_of(s.theme@)
    &&& c.always_on_top == s.allow_pet_above_taskbar
}

/// Builds the creation plan for the setting window from the settings.
pub fn setting_window_config(settings: &AppSettings) -> (c: SettingWindowConfig)
    ensures
        setting_window_config_for(c, *settings),
{
    SettingWindowConfig {
        label: "setting".to_owned(),
        url: "/setting".to_owned(),
        title: "WindowPet Setting".to_owned(),
        width: 1000,
        height: 650,
        theme: theme_of(&settings.theme),
        always_on_top: settings.allow_pet_above_taskbar,
    }
}

} // verus!
