//! Window effects: the backdrop, corner and accent settings that the bar and
//! its menus ask the window manager for, with the numbers it knows them by.

use vstd::prelude::*;

verus! {

/// Backdrop types available in Windows 11
#[derive(Debug, Clone, Copy, PartialEq, Eq, Structural)]
pub enum BackdropType {
    /// No backdrop effect
    NoBackdrop,
    /// Mica effect (recommended for main windows)
    Mica,
    /// Acrylic effect (translucent blur)
    Acrylic,
    /// Mica Alt (more prominent)
    MicaAlt,
}

impl BackdropType {
    /// The value of the window attribute for this backdrop.
    pub fn value(self) -> (v: i32)
        ensures
            v == (match self {
                BackdropType::NoBackdrop => 1i32,
                BackdropType::Mica => 2i32,
                BackdropType::Acrylic => 3i32,
                BackdropType::MicaAlt => 4i32,
            }),
    {
        match self {
            BackdropType::NoBackdrop => 1,
            BackdropType::Mica => 2,
            BackdropType::Acrylic => 3,
            BackdropType::MicaAlt => 4,
        }
    }
}

/// Window corner preference
#[derive(Debug, Clone, Copy, PartialEq, Eq, Structural)]
pub enum CornerPreference {
    /// Default (usually rounded on Windows 11)
    Default,
    /// Do not round corners
    DoNotRound,
    /// Rounded corners
    Round,
    /// Small rounded corners
    RoundSmall,
}

impl CornerPreference {
    /// The value of the window attribute for this preference.
    pub fn value(self) -> (v: i32)
        ensures
            v == (match self {
                CornerPreference::Default => 0i32,
                CornerPreference::DoNotRound => 1i32,
                CornerPreference::Round => 2i32,
                CornerPreference::RoundSmall => 3i32,
            }),
    {
        match self {
            CornerPreference::Default => 0,
            CornerPreference::DoNotRound => 1,
            CornerPreference::Round => 2,
            CornerPreference::RoundSmall => 3,
        }
    }
}

/// Accent state for the legacy composition attribute
#[derive(Debug, Clone, Copy, PartialEq, Eq, Structural)]
pub enum AccentState {
    Disabled,
    EnableGradient,
    EnableTransparent,
    EnableBlurBehind,
    EnableAcrylicBlurBehind,
}

impl AccentState {
    /// The number of this accent state.
    pub fn value(self) -> (v: i32)
        ensures
            v == (match self {
                AccentState::Disabled => 0i32,
                AccentState::EnableGradient => 1i32,
                AccentState::EnableTransparent => 2i32,
                AccentState::EnableBlurBehind => 3i32,
                AccentState::EnableAcrylicBlurBehind => 4i32,
            }),
    {
        match self {
            AccentState::Disabled => 0,
            AccentState::EnableGradient => 1,
            AccentState::EnableTransparent => 2,
            AccentState::EnableBlurBehind => 3,
            AccentState::EnableAcrylicBlurBehind => 4,
        }
    }
}

/// The effects to apply to a window, in the order they are applied: dark
/// frame or not, then corners, then backdrop.
#[derive(Debug, Clone, Copy, PartialEq, Eq, Structural)]
pub struct EffectPlan {
    pub dark_mode: bool,
    pub corners: CornerPreference,
    pub backdrop: BackdropType,
}

/// Effects manager for applying Windows 11 visual effects
pub struct EffectsManager;

impl EffectsManager {
    /// The effects for the bar: square corners and an acrylic backdrop.
    pub fn topbar_effects(dark_mode: bool) -> (p: EffectPlan)
        ensures
            p == (EffectPlan { dark_mode, corners: CornerPreference::DoNotRound, backdrop: BackdropType::Acrylic }),
    {
        EffectPlan { dark_mode, corners: CornerPreference::DoNotRound, backdrop: BackdropType::Acrylic }
    }

    /// The effects for dropdown menus: rounded corners and an acrylic backdrop.
    pub fn menu_effects(dark_mode: bool) -> (p: EffectPlan)
        ensures
            p == (EffectPlan { dark_mode, corners: CornerPreference::Round, backdrop: BackdropType::Acrylic }),
    {
        EffectPlan { dark_mode, corners: CornerPreference::Round, backdrop: BackdropType::Acrylic }
    }

    /// The value of the immersive dark mode attribute.
    pub fn dark_mode_value(dark: bool) -> (v: i32)
        ensures
            v == (if dark { 1i32 } else { 0i32 }),
    {
        if dark {
            1
        } else {
            0
        }
    }
}

} // verus!
