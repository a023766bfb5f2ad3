use beacn_utility::pages::about::About;
use beacn_utility::pages::config::{
    CompressorPage, ExpanderPage, HeadphonesPage, MicSetupPage, NoiseSuppressionPage,
};
use beacn_utility::pages::error::ErrorPage;
use beacn_utility::pages::lighting::LightingPage;
use beacn_utility::pages::link::{LinkChannel, Linked};
use beacn_utility::states::{
    validate_button_brightness, validate_display_dim, validate_screen_percent, DeEsser,
    DefinitionState, ErrorType, Exciter, LoadState, MicSetup, SavedSettings, SettingsError,
    Subwoofer,
};

#[test]
fn each_page_has_its_icon() {
    assert_eq!(About::new().icon(), "gear");
    assert_eq!(ErrorPage::new().icon(), "error");
    assert_eq!(LightingPage::new().icon(), "bulb");
    assert_eq!(Linked::new().icon(), "left_right");
}

#[test]
fn only_the_error_page_is_shown_on_error() {
    assert!(!About::new().show_on_error());
    assert!(ErrorPage::new().show_on_error());
    assert!(!LightingPage::new().show_on_error());
    assert!(!Linked::new().show_on_error());
    assert!(Linked::new().is_link_page());
    assert!(!About::new().is_link_page());
    assert!(!ErrorPage::new().is_link_page());
    assert!(!LightingPage::new().is_link_page());
}

#[test]
fn link_channels_have_names() {
    let page = Linked::new();
    assert_eq!(page.display_name(LinkChannel::System), "System");
    assert_eq!(page.display_name(LinkChannel::Link1), "Link 1");
    assert_eq!(page.display_name(LinkChannel::Link4), "Link 4");
}

#[test]
fn a_device_starts_running_or_in_error() {
    assert_eq!(LoadState::default(), LoadState::Loading);
    assert_eq!(DefinitionState::Running.load_state(), LoadState::Running);
    assert_eq!(
        DefinitionState::Error(ErrorType::PermissionDenied).load_state(),
        LoadState::Error
    );
    assert_eq!(
        DefinitionState::Error(ErrorType::Other(String::from("gone"))).load_state(),
        LoadState::Error
    );
}

#[test]
fn effect_settings_have_ranges() {
    assert!(DeEsser { enabled: true, amount: 100 }.is_valid());
    assert!(!DeEsser { enabled: true, amount: 101 }.is_valid());
    assert!(Exciter { enabled: false, amount: 0, freq: 600 }.is_valid());
    assert!(Exciter { enabled: false, amount: 100, freq: 5000 }.is_valid());
    assert!(!Exciter { enabled: false, amount: 0, freq: 599 }.is_valid());
    assert!(!Exciter { enabled: false, amount: 0, freq: 5001 }.is_valid());
    assert!(!Exciter { enabled: false, amount: 101, freq: 1000 }.is_valid());
    assert!(MicSetup { gain: 3, phantom: false }.is_valid());
    assert!(MicSetup { gain: 20, phantom: true }.is_valid());
    assert!(!MicSetup { gain: 2, phantom: false }.is_valid());
    assert!(!MicSetup { gain: 21, phantom: false }.is_valid());
    assert!(Subwoofer { enabled: true, amount: 10 }.is_valid());
    assert!(!Subwoofer { enabled: true, amount: 11 }.is_valid());
}

#[test]
fn stored_settings_are_checked() {
    let default = SavedSettings::default();
    assert_eq!(
        default,
        SavedSettings { display_brightness: 40, display_dim: 180, button_brightness: 5 }
    );
    assert_eq!(default.validate(), Ok(()));
    let edge = SavedSettings { display_brightness: 100, display_dim: 240, button_brightness: 10 };
    assert_eq!(edge.validate(), Ok(()));
    assert_eq!(
        SavedSettings { display_brightness: 101, ..edge }.validate(),
        Err(SettingsError::DisplayBrightness)
    );
    assert_eq!(
        SavedSettings { display_dim: 241, ..edge }.validate(),
        Err(SettingsError::DisplayDim)
    );
    assert_eq!(
        SavedSettings { button_brightness: 11, ..edge }.validate(),
        Err(SettingsError::ButtonBrightness)
    );
    assert_eq!(
        SavedSettings { display_brightness: 255, display_dim: 999, button_brightness: 99 }
            .validate(),
        Err(SettingsError::DisplayBrightness)
    );
}

#[test]
fn settings_that_are_missing_or_invalid_give_way_to_the_defaults() {
    let default = SavedSettings::default();
    let stored = SavedSettings { display_brightness: 7, display_dim: 0, button_brightness: 0 };
    assert_eq!(SavedSettings::or_default(Some(stored)), stored);
    assert_eq!(SavedSettings::or_default(None), default);
    assert_eq!(
        SavedSettings::or_default(Some(SavedSettings { button_brightness: 50, ..stored })),
        default
    );
}

#[test]
fn each_effect_page_has_its_heading() {
    assert_eq!(CompressorPage.title(), "Compressor");
    assert_eq!(ExpanderPage.title(), "Expander");
    assert_eq!(HeadphonesPage.title(), "Headphones");
    assert_eq!(MicSetupPage.title(), "Mic Setup");
    assert_eq!(NoiseSuppressionPage.title(), "Noise Suppression");
}

#[test]
fn each_stored_value_has_its_limit() {
    assert_eq!(validate_screen_percent(100), Ok(100));
    assert_eq!(validate_screen_percent(101), Err(SettingsError::DisplayBrightness));
    assert_eq!(validate_button_brightness(10), Ok(10));
    assert_eq!(validate_button_brightness(11), Err(SettingsError::ButtonBrightness));
    assert_eq!(validate_display_dim(240), Ok(240));
    assert_eq!(validate_display_dim(241), Err(SettingsError::DisplayDim));
    assert_eq!(validate_display_dim(0), Ok(0));
}
