//! The application's themes and the roles that its palette colors play.

pub mod button;
pub mod color_picker;
pub mod container;
pub mod icon;
pub mod textinput;
pub mod toggle_annotation;

use vstd::prelude::*;

verus! {

/// The themes a window can have; light is the default.
#[derive(Clone, Copy, Debug, PartialEq, Eq, Structural)]
pub enum Theme {
    Light,
    Dark,
    Transparent,
}

impl Default for Theme {
    fn default() -> (t: Self)
        ensures
            t == Theme::Light,
    {
        Theme::Light
    }
}

/// The roles that a palette gives colors to.
#[derive(Clone, Copy, Debug, PartialEq, Eq, Structural, Hash)]
pub enum PaletteColor {
    Primary,
    PrimaryContainer,
    OnPrimary,
    OnPrimaryContainer,
    InversePrimary,
    Secondary,
    SecondaryContainer,
    OnSecondary,
    OnSecondaryContainer,
    Tertiary,
    TertiaryContainer,
    OnTertiary,
    OnTertiaryContainer,
    Surface,
    SurfaceDim,
    SurfaceBright,
    SurfaceContainerLowest,
    SurfaceContainerLow,
    SurfaceContainer,
    SurfaceContainerHigh,
    SurfaceContainerHighest,
    SurfaceVariant,
    OnSurface,
    OnSurfaceVariant,
    InverseSurface,
    InverseOnSurface,
    Background,
    OnBackground,
    Error,
    ErrorContainer,
    OnError,
    OnErrorContainer,
    Success,
    OnSuccess,
    Outline,
    OutlineVariant,
    Shadow,
    SurfaceTint,
    Scrim,
}

/// The role of content drawn on a surface of role `c`.
pub open spec fn on_color(c: PaletteColor) -> PaletteColor {
    match c {
        PaletteColor::Primary => PaletteColor::OnPrimary,
        PaletteColor::PrimaryContainer => PaletteColor::OnPrimaryContainer,
        PaletteColor::Secondary => PaletteColor::OnSecondary,
        PaletteColor::SecondaryContainer => PaletteColor::OnSecondaryContainer,
        PaletteColor::Tertiary => PaletteColor::OnTertiary,
        PaletteColor::TertiaryContainer => PaletteColor::OnTertiaryContainer,
        PaletteColor::Surface => PaletteColor::OnSurface,
        PaletteColor::SurfaceDim => PaletteColor::OnSurface,
        PaletteColor::SurfaceBright => PaletteColor::OnSurface,
        PaletteColor::SurfaceContainerLowest => PaletteColor::OnSurface,
        PaletteColor::SurfaceContainerLow => PaletteColor::OnSurface,
        PaletteColor::SurfaceContainer => PaletteColor::OnSurface,
        PaletteColor::SurfaceContainerHigh => PaletteColor::OnSurface,
        PaletteColor::SurfaceContainerHighest => PaletteColor::OnSurface,
        PaletteColor::SurfaceVariant => PaletteColor::OnSurfaceVariant,
        PaletteColor::InverseSurface => PaletteColor::InverseOnSurface,
        PaletteColor::Background => PaletteColor::OnBackground,
        PaletteColor::Error => PaletteColor::OnError,
        PaletteColor::ErrorContainer => PaletteColor::OnErrorContainer,
        PaletteColor::Success => PaletteColor::OnSuccess,
        PaletteColor::Outline => PaletteColor::OutlineVariant,
        PaletteColor::SurfaceTint => PaletteColor::OnSurface,
        PaletteColor::Scrim => PaletteColor::OnBackground,
        _ => PaletteColor::OnSurfaceVariant,
    }
}

impl PaletteColor {
    /// The role of content drawn on a surface of this role.
    pub fn on(self) -> (c: PaletteColor)
        ensures
            c == on_color(self),
    {
        match self {
            PaletteColor::Primary => PaletteColor::OnPrimary,
            PaletteColor::PrimaryContainer => PaletteColor::OnPrimaryContainer,
            PaletteColor::Secondary => PaletteColor::OnSecondary,
            PaletteColor::SecondaryContainer => PaletteColor::OnSecondaryContainer,
            PaletteColor::Tertiary => PaletteColor::OnTertiary,
            PaletteColor::TertiaryContainer => PaletteColor::OnTertiaryContainer,
            PaletteColor::Surface => PaletteColor::OnSurface,
            PaletteColor::SurfaceDim => PaletteColor::OnSurface,
            PaletteColor::SurfaceBright => PaletteColor::OnSurface,
            PaletteColor::SurfaceContainerLowest => PaletteColor::OnSurface,
            PaletteColor::SurfaceContainerLow => PaletteColor::OnSurface,
            PaletteColor::SurfaceContainer => PaletteColor::OnSurface,
            PaletteColor::SurfaceContainerHigh => PaletteColor::OnSurface,
            PaletteColor::SurfaceContainerHighest => PaletteColor::OnSurface,
            PaletteColor::SurfaceVariant => PaletteColor::OnSurfaceVariant,
            PaletteColor::InverseSurface => PaletteColor::InverseOnSurface,
            PaletteColor::Background => PaletteColor::OnBackground,
            PaletteColor::Error => PaletteColor::OnError,
            PaletteColor::ErrorContainer => PaletteColor::OnErrorContainer,
            PaletteColor::Success => PaletteColor::OnSuccess,
            PaletteColor::Outline => PaletteColor::OutlineVariant,
            PaletteColor::SurfaceTint => PaletteColor::OnSurface,
            PaletteColor::Scrim => PaletteColor::OnBackground,
            _ => PaletteColor::OnSurfaceVariant,
        }
    }
}

} // verus!
