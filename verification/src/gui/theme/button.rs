//! The three button shapes: pill-shaped with text, round with an icon, and
//! a tall rectangle with an icon over its text.

use vstd::prelude::*;
use vstd::string::*;
use crate::gui::theme::{on_color, PaletteColor};
use crate::gui::theme::icon::Icon;

verus! {

/// What a button is for, which decides its colors.
#[derive(Clone, Copy, Debug, PartialEq, Eq, Structural)]
pub enum Style {
    Default,
    Primary,
    Secondary,
    Danger,
    Success,
}

impl Default for Style {
    fn default() -> (s: Self)
        ensures
            s == Style::Default,
    {
        Style::Default
    }
}

/// Palette roles of a button's background and of its text.
pub open spec fn style_colors(style: Style) -> (PaletteColor, PaletteColor) {
    match style {
        Style::Default => (PaletteColor::Surface, PaletteColor::OnSurface),
        Style::Primary => (PaletteColor::Primary, PaletteColor::OnPrimary),
        Style::Secondary => (PaletteColor::Secondary, PaletteColor::OnSecondary),
        Style::Danger => (PaletteColor::Error, PaletteColor::OnError),
        Style::Success => (PaletteColor::Success, PaletteColor::OnSuccess),
    }
}

impl Style {
    /// Palette roles of the background and of the text of a pill-shaped or
    /// rectangular button with this style; the text is always in the role
    /// that the palette gives content on that background.
    pub fn colors(self) -> (roles: (PaletteColor, PaletteColor))
        ensures
            roles == style_colors(self),
            roles.1 == on_color(roles.0),
    {
        match self {
            Style::Default => (PaletteColor::Surface, PaletteColor::OnSurface),
            Style::Primary => (PaletteColor::Primary, PaletteColor::OnPrimary),
            Style::Secondary => (PaletteColor::Secondary, PaletteColor::OnSecondary),
            Style::Danger => (PaletteColor::Error, PaletteColor::OnError),
            Style::Success => (PaletteColor::Success, PaletteColor::OnSuccess),
        }
    }
}

/// The fill of a round button.
#[derive(Clone, Copy, Debug, PartialEq, Eq, Structural)]
pub enum CircleFill {
    Primary,
    Danger,
    Default,
}

/// What a button shows and how.
pub struct ButtonSpec {
    pub text: Seq<char>,
    pub icon: Option<Icon>,
    pub style: Style,
}

/// A pill-shaped button with a text and an optional icon before it.
pub struct MyButton {
    text: String,
    icon: Option<Icon>,
    style: Style,
}

/// A round button showing an icon, or its text when it has none.
pub struct CircleButton {
    text: String,
    icon: Option<Icon>,
    style: Style,
}

/// A rectangular button with an optional icon above its text.
pub struct RectangleButton {
    text: String,
    icon: Option<Icon>,
    style: Style,
}

impl View for MyButton {
    type V = ButtonSpec;

    closed spec fn view(&self) -> ButtonSpec {
        ButtonSpec { text: self.text@, icon: self.icon, style: self.style }
    }
}

impl MyButton {
    /// A button with text `text`, no icon, and the default style.
    pub fn new(text: &str) -> (b: Self)
        ensures
            b@ == (ButtonSpec { text: text@, icon: None, style: Style::Default }),
    {
        MyButton { text: String::from_str(text), icon: None, style: Style::Default }
    }

    /// The same button with style `style`.
    pub fn style(self, style: Style) -> (b: Self)
        ensures
            b@ == (ButtonSpec { style, ..self@ }),
    {
        MyButton { style, ..self }
    }

    /// The same button with icon `icon`.
    pub fn icon(self, icon: Icon) -> (b: Self)
        ensures
            b@ == (ButtonSpec { icon: Some(icon), ..self@ }),
    {
        MyButton { icon: Some(icon), ..self }
    }

    pub fn text(&self) -> (t: &String)
        ensures
            t@ == self@.text,
    {
        &self.text
    }

    pub fn chosen_icon(&self) -> (i: Option<Icon>)
        ensures
            i == self@.icon,
    {
        self.icon
    }

    pub fn chosen_style(&self) -> (s: Style)
        ensures
            s == self@.style,
    {
        self.style
    }
}

impl View for CircleButton {
    type V = ButtonSpec;

    closed spec fn view(&self) -> ButtonSpec {
        ButtonSpec { text: self.text@, icon: self.icon, style: self.style }
    }
}

impl CircleButton {
    /// A button with text `text`, no icon, and the default style.
    pub fn new(text: &str) -> (b: Self)
        ensures
            b@ == (ButtonSpec { text: text@, icon: None, style: Style::Default }),
    {
        CircleButton { text: String::from_str(text), icon: None, style: Style::Default }
    }

    /// The same button with style `style`.
    pub fn style(self, style: Style) -> (b: Self)
        ensures
            b@ == (ButtonSpec { style, ..self@ }),
    {
        CircleButton { style, ..self }
    }

    /// The same button with icon `icon`.
    pub fn icon(self, icon: Icon) -> (b: Self)
        ensures
            b@ == (ButtonSpec { icon: Some(icon), ..self@ }),
    {
        CircleButton { icon: Some(icon), ..self }
    }

    pub fn text(&self) -> (t: &String)
        ensures
            t@ == self@.text,
    {
        &self.text
    }

    pub fn chosen_icon(&self) -> (i: Option<Icon>)
        ensures
            i == self@.icon,
    {
        self.icon
    }

    pub fn chosen_style(&self) -> (s: Style)
        ensures
            s == self@.style,
    {
        self.style
    }
}

impl View for RectangleButton {
    type V = ButtonSpec;

    closed spec fn view(&self) -> ButtonSpec {
        ButtonSpec { text: self.text@, icon: self.icon, style: self.style }
    }
}

impl RectangleButton {
    /// A button with text `text`, no icon, and the default style.
    pub fn new(text: &str) -> (b: Self)
        ensures
            b@ == (ButtonSpec { text: text@, icon: None, style: Style::Default }),
    {
        RectangleButton { text: String::from_str(text), icon: None, style: Style::Default }
    }

    /// The same button with style `style`.
    pub fn style(self, style: Style) -> (b: Self)
        ensures
            b@ == (ButtonSpec { style, ..self@ }),
    {
        RectangleButton { style, ..self }
    }

    /// The same button with icon `icon`.
    pub fn icon(self, icon: Icon) -> (b: Self)
        ensures
            b@ == (ButtonSpec { icon: Some(icon), ..self@ }),
    {
        RectangleButton { icon: Some(icon), ..self }
    }

    pub fn text(&self) -> (t: &String)
        ensures
            t@ == self@.text,
    {
        &self.text
    }

    pub fn chosen_icon(&self) -> (i: Option<Icon>)
        ensures
            i == self@.icon,
    {
        self.icon
    }

    pub fn chosen_style(&self) -> (s: Style)
        ensures
            s == self@.style,
    {
        self.style
    }
}

impl CircleButton {
    /// The fill of this round button: its own color for primary and danger
    /// buttons, the neutral one for every other style.
    pub fn fill(&self) -> (f: CircleFill)
        ensures
            f == match self@.style {
                Style::Primary => CircleFill::Primary,
                Style::Danger => CircleFill::Danger,
                _ => CircleFill::Default,
            },
    {
        match self.style {
            Style::Primary => CircleFill::Primary,
            Style::Danger => CircleFill::Danger,
            _ => CircleFill::Default,
        }
    }
}

} // verus!
