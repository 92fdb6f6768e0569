use windowpet::settings::AppSettings;
use windowpet::windows::{
    main_window_config, plan_main_window, setting_window_config, theme_of, MainWindowAction,
    WindowTheme,
};

fn settings(above_taskbar: bool, interaction: bool, theme: &str) -> AppSettings {
    AppSettings::new("en".to_string(), above_taskbar, interaction, theme.to_string())
}

#[test]
fn dark_name_selects_dark_theme() {
    assert_eq!(theme_of(&"dark".to_string()), WindowTheme::Dark);
}

#[test]
fn other_names_select_light_theme() {
    assert_eq!(theme_of(&"light".to_string()), WindowTheme::Light);
    assert_eq!(theme_of(&"Dark".to_string()), WindowTheme::Light);
    assert_eq!(theme_of(&"darkness".to_string()), WindowTheme::Light);
    assert_eq!(theme_of(&String::new()), WindowTheme::Light);
}

#[test]
fn existing_main_window_is_only_focused() {
    let s = settings(true, true, "light");
    assert!(matches!(plan_main_window(true, &s), MainWindowAction::Focus));
}

#[test]
fn absent_main_window_is_created_with_fixed_flags() {
    let s = settings(false, true, "light");
    match plan_main_window(false, &s) {
        MainWindowAction::Create(c) => {
            assert_eq!(c.label, "main");
            assert_eq!(c.url, "/");
            assert_eq!(c.title, "WindowPet");
            assert!(c.fullscreen);
            assert!(!c.resizable);
            assert!(c.transparent);
            assert!(c.skip_taskbar);
            assert!(!c.always_on_top);
            assert!(!c.suppress_cursor_events);
        }
        MainWindowAction::Focus => panic!("expected a creation plan"),
    }
}

#[test]
fn main_window_mirrors_settings() {
    let c = main_window_config(&settings(true, false, "dark"));
    assert!(c.always_on_top);
    assert!(c.suppress_cursor_events);

    let c = main_window_config(&settings(false, true, "dark"));
    assert!(!c.always_on_top);
    assert!(!c.suppress_cursor_events);
}

#[test]
fn setting_window_has_fixed_identity_and_size() {
    let c = setting_window_config(&settings(false, true, "dark"));
    assert_eq!(c.label, "setting");
    assert_eq!(c.url, "/setting");
    assert_eq!(c.title, "WindowPet Setting");
    assert_eq!(c.width, 1000);
    assert_eq!(c.height, 650);
    assert_eq!(c.theme, WindowTheme::Dark);
    assert!(!c.always_on_top);
}

#[test]
fn setting_window_mirrors_theme_and_taskbar_setting() {
    let c = setting_window_config(&settings(true, true, "solarized"));
    assert_eq!(c.theme, WindowTheme::Light);
    assert!(c.always_on_top);
}

#[test]
fn settings_keep_their_fields() {
    let s = AppSettings::new("km".to_string(), true, false, "dark".to_string());
    assert_eq!(s.language, "km");
    assert!(s.allow_pet_above_taskbar);
    assert!(!s.allow_pet_interaction);
    assert_eq!(s.theme, "dark");
}
