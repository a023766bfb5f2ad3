//! The state of a device as the configuration window keeps it: whether it
//! loaded, the settings of a microphone's effects, and the settings that a
//! console keeps between runs.

use vstd::prelude::*;

verus! {

/// Highest brightness of the display, in percent.
pub const MAX_DISPLAY_BRIGHTNESS: u8 = 100;

/// Highest brightness of the buttons.
pub const MAX_BUTTON_BRIGHTNESS: u8 = 10;

/// Longest time before the display dims, in seconds.
pub const MAX_DISPLAY_DIM_SECS: u64 = 240;

/// How far a device got.
#[derive(Debug, Clone, Copy, PartialEq, Eq, Structural)]
pub enum LoadState {
    Loading,
    Running,
    Error,
}

impl Default for LoadState {
    fn default() -> (state: LoadState)
        ensures
            state == LoadState::Loading,
    {
        LoadState::Loading
    }
}

/// Why a device could not be opened.
#[derive(Debug, Clone)]
pub enum ErrorType {
    PermissionDenied,
    ResourceBusy,
    Other(String),
    Unknown,
}

/// Whether a device was opened.
#[derive(Debug, Clone)]
pub enum DefinitionState {
    Running,
    Error(ErrorType),
}

impl DefinitionState {
    /// The load state that a device starts in: running where it was opened,
    /// in error where it was not.
    pub fn load_state(&self) -> (state: LoadState)
        ensures
            state == match self {
                DefinitionState::Running => LoadState::Running,
                DefinitionState::Error(_) => LoadState::Error,
            },
    {
        match self {
            DefinitionState::Running => LoadState::Running,
            DefinitionState::Error(_) => LoadState::Error,
        }
    }
}

/// The de-esser of a microphone.
#[derive(Debug, Clone, Copy, PartialEq, Eq, Structural)]
pub struct DeEsser {
    pub enabled: bool,
    /// 0 to 100.
    pub amount: u8,
}

impl DeEsser {
    pub open spec fn spec_is_valid(&self) -> bool {
        self.amount <= 100
    }

    /// True when the amount is in its range.
    #[verifier::when_used_as_spec(spec_is_valid)]
    pub fn is_valid(&self) -> (valid: bool)
        ensures
            valid == self.spec_is_valid(),
    {
        self.amount <= 100
    }
}

/// The exciter of a microphone.
#[derive(Debug, Clone, Copy, PartialEq, Eq, Structural)]
pub struct Exciter {
    pub enabled: bool,
    /// 0 to 100.
    pub amount: u8,
    /// 600 to 5000.
    pub freq: u16,
}

impl Exciter {
    pub open spec fn spec_is_valid(&self) -> bool {
        self.amount <= 100 && 600 <= self.freq <= 5000
    }

    /// True when amount and frequency are in their ranges.
    #[verifier::when_used_as_spec(spec_is_valid)]
    pub fn is_valid(&self) -> (valid: bool)
        ensures
            valid == self.spec_is_valid(),
    {
        self.amount <= 100 && 600 <= self.freq && self.freq <= 5000
    }
}

/// The input stage of a microphone.
#[derive(Debug, Clone, Copy, PartialEq, Eq, Structural)]
pub struct MicSetup {
    /// 3 to 20 decibels.
    pub gain: u8,
    /// Phantom power.
    pub phantom: bool,
}

impl MicSetup {
    pub open spec fn spec_is_valid(&self) -> bool {
        3 <= self.gain <= 20
    }

    /// True when the gain is in its range.
    #[verifier::when_used_as_spec(spec_is_valid)]
    pub fn is_valid(&self) -> (valid: bool)
        ensures
            valid == self.spec_is_valid(),
    {
        3 <= self.gain && self.gain <= 20
    }
}

/// The subwoofer output of a microphone's headphone stage.
#[derive(Debug, Clone, Copy, PartialEq, Eq, Structural)]
pub struct Subwoofer {
    pub enabled: bool,
    /// 0 to 10.
    pub amount: u8,
}

impl Subwoofer {
    pub open spec fn spec_is_valid(&self) -> bool {
        self.amount <= 10
    }

    /// True when the amount is in its range.
    #[verifier::when_used_as_spec(spec_is_valid)]
    pub fn is_valid(&self) -> (valid: bool)
        ensures
            valid == self.spec_is_valid(),
    {
        self.amount <= 10
    }
}

/// Why stored settings are refused.
#[derive(Debug, Clone, Copy, PartialEq, Eq, Structural)]
pub enum SettingsError {
    /// The display brightness is above 100 percent.
    DisplayBrightness,
    /// The dim time is above four minutes.
    DisplayDim,
    /// The button brightness is above 10.
    ButtonBrightness,
}

/// A stored display brightness: accepted up to 100 percent.
pub fn validate_screen_percent(percent: u8) -> (checked: Result<u8, SettingsError>)
    ensures
        checked == (if percent > MAX_DISPLAY_BRIGHTNESS {
            Err::<u8, SettingsError>(SettingsError::DisplayBrightness)
        } else {
            Ok::<u8, SettingsError>(percent)
        }),
{
    if percent > MAX_DISPLAY_BRIGHTNESS {
        Err(SettingsError::DisplayBrightness)
    } else {
        Ok(percent)
    }
}

/// A stored button brightness: accepted up to 10.
pub fn validate_button_brightness(brightness: u8) -> (checked: Result<u8, SettingsError>)
    ensures
        checked == (if brightness > MAX_BUTTON_BRIGHTNESS {
            Err::<u8, SettingsError>(SettingsError::ButtonBrightness)
        } else {
            Ok::<u8, SettingsError>(brightness)
        }),
{
    if brightness > MAX_BUTTON_BRIGHTNESS {
        Err(SettingsError::ButtonBrightness)
    } else {
        Ok(brightness)
    }
}

/// A stored dim time, in seconds: accepted up to four minutes.
pub fn validate_display_dim(timeout: u64) -> (checked: Result<u64, SettingsError>)
    ensures
        checked == (if timeout > MAX_DISPLAY_DIM_SECS {
            Err::<u64, SettingsError>(SettingsError::DisplayDim)
        } else {
            Ok::<u64, SettingsError>(timeout)
        }),
{
    if timeout > MAX_DISPLAY_DIM_SECS {
        Err(SettingsError::DisplayDim)
    } else {
        Ok(timeout)
    }
}

/// What a console keeps between runs.
#[derive(Debug, Clone, Copy, PartialEq, Eq, Structural)]
pub struct SavedSettings {
    /// 0 to 100 percent.
    pub display_brightness: u8,
    /// Seconds before the display dims; four minutes at most.
    pub display_dim: u64,
    /// 0 to 10.
    pub button_brightness: u8,
}

impl Default for SavedSettings {
    fn default() -> (settings: SavedSettings)
        ensures
            settings == (SavedSettings {
                display_brightness: 40,
                display_dim: 180,
                button_brightness: 5,
            }),
    {
        SavedSettings { display_brightness: 40, display_dim: 180, button_brightness: 5 }
    }
}

impl SavedSettings {
    /// Every value is in its range.
    pub open spec fn valid(&self) -> bool {
        &&& self.display_brightness <= MAX_DISPLAY_BRIGHTNESS
        &&& self.display_dim <= MAX_DISPLAY_DIM_SECS
        &&& self.button_brightness <= MAX_BUTTON_BRIGHTNESS
    }

    /// Checks stored settings: the first value out of its range, in the
    /// order display brightness, dim time, button brightness, is the error.
    pub fn validate(&self) -> (checked: Result<(), SettingsError>)
        ensures
            checked is Ok <==> self.valid(),
            checked == (if self.display_brightness > MAX_DISPLAY_BRIGHTNESS {
                Err::<(), SettingsError>(SettingsError::DisplayBrightness)
            } else if self.display_dim > MAX_DISPLAY_DIM_SECS {
                Err::<(), SettingsError>(SettingsError::DisplayDim)
            } else if self.button_brightness > MAX_BUTTON_BRIGHTNESS {
                Err::<(), SettingsError>(SettingsError::ButtonBrightness)
            } else {
                Ok::<(), SettingsError>(())
            }),
    {
        match validate_screen_percent(self.display_brightness) {
            Err(error) => Err(error),
            Ok(_) => match validate_display_dim(self.display_dim) {
                Err(error) => Err(error),
                Ok(_) => match validate_button_brightness(self.button_brightness) {
                    Err(error) => Err(error),
                    Ok(_) => Ok(()),
                },
            },
        }
    }

    /// The settings to use, given what was stored: the stored ones where
    /// there are any and they are valid, else the defaults.
    pub fn or_default(stored: Option<SavedSettings>) -> (settings: SavedSettings)
        ensures
            settings.valid(),
            settings == match stored {
                Some(s) => if s.valid() {
                    s
                } else {
                    SavedSettings { display_brightness: 40, display_dim: 180, button_brightness: 5 }
                },
                None => SavedSettings {
                    display_brightness: 40,
                    display_dim: 180,
                    button_brightness: 5,
                },
            },
    {
        match stored {
            Some(s) => match s.validate() {
                Ok(_) => s,
                Err(_) => SavedSettings {
                    display_brightness: 40,
                    display_dim: 180,
                    button_brightness: 5,
                },
            },
            None => SavedSettings { display_brightness: 40, display_dim: 180, button_brightness: 5 },
        }
    }
}

} // verus!
