//! The user settings that drive how the pet windows are opened.

use vstd::prelude::*;

verus! {

/// The settings the window planners read: the display language, whether the
/// pet window stays above the taskbar, whether the pet captures cursor events,
/// and the colour theme name ("dark" selects the dark theme, anything else
/// the light one).
pub struct AppSettings {
    pub language: String,
    pub allow_pet_above_taskbar: bool,
    pub allow_pet_interaction: bool,
    pub theme: String,
}

impl AppSettings {
    pub fn new(
        language: String,
        allow_pet_above_taskbar: bool,
        allow_pet_interaction: bool,
        theme: String,
    ) -> (s: Self)
        ensures
            s.language == language,
            s.allow_pet_above_taskbar == allow_pet_above_taskbar,
            s.allow_pet_interaction == allow_pet_interaction,
            s.theme == theme,
    {
        AppSettings { language, allow_pet_above_taskbar, allow_pet_interaction, theme }
    }
}

} // verus!
