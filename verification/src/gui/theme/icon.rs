//! The icons of the application's icon font.

use vstd::prelude::*;

verus! {

#[derive(Clone, Copy, Debug, PartialEq, Eq, Structural)]
pub enum Icon {
    StartRecord,
    StopRecord,
    Cancel,
    CasterHome,
    BackUndo,
    BackLeft,
    BackOpen,
    ReceiverHome,
    Play,
    Pause,
    Pencil,
    Rubber,
    Triangle,
    Square,
    Arrow,
    Tools,
    Blanking,
    Phone,
    Text,
    Viewers,
}

/// The glyph of `icon` in the icon font.
pub open spec fn icon_glyph(icon: Icon) -> char {
    match icon {
        Icon::CasterHome => '\u{F108}',
        Icon::ReceiverHome => '\u{E800}',
        Icon::BackUndo => '\u{E801}',
        Icon::BackLeft => '\u{E802}',
        Icon::BackOpen => '\u{E803}',
        Icon::StartRecord => '\u{E804}',
        Icon::StopRecord => '\u{F28E}',
        Icon::Cancel => '\u{E805}',
        Icon::Play => '\u{E806}',
        Icon::Pause => '\u{E807}',
        Icon::Pencil => '\u{E808}',
        Icon::Rubber => '\u{F12D}',
        Icon::Triangle => '\u{E809}',
        Icon::Square => '\u{F600}',
        Icon::Arrow => '\u{F178}',
        Icon::Tools => '\u{E80B}',
        Icon::Blanking => '\u{F21B}',
        Icon::Phone => '\u{E80A}',
        Icon::Text => '\u{E80C}',
        Icon::Viewers => '\u{F064}',
    }
}

/// `String::from(char)`: the contract claims the one-character text.
#[verifier::external_body]
fn char_text(c: char) -> (s: String)
    ensures
        s@ == seq![c],
{
    String::from(c)
}

impl Icon {
    /// The glyph of this icon in the icon font.
    pub fn to_char(&self) -> (c: char)
        ensures
            c == icon_glyph(*self),
    {
        match self {
            Icon::CasterHome => '\u{F108}',
            Icon::ReceiverHome => '\u{E800}',
            Icon::BackUndo => '\u{E801}',
            Icon::BackLeft => '\u{E802}',
            Icon::BackOpen => '\u{E803}',
            Icon::StartRecord => '\u{E804}',
            Icon::StopRecord => '\u{F28E}',
            Icon::Cancel => '\u{E805}',
            Icon::Play => '\u{E806}',
            Icon::Pause => '\u{E807}',
            Icon::Pencil => '\u{E808}',
            Icon::Rubber => '\u{F12D}',
            Icon::Triangle => '\u{E809}',
            Icon::Square => '\u{F600}',
            Icon::Arrow => '\u{F178}',
            Icon::Tools => '\u{E80B}',
            Icon::Blanking => '\u{F21B}',
            Icon::Phone => '\u{E80A}',
            Icon::Text => '\u{E80C}',
            Icon::Viewers => '\u{F064}',
        }
    }

    /// The text that shows this icon: its glyph alone.
    pub fn to_string(&self) -> (s: String)
        ensures
            s@ == seq![icon_glyph(*self)],
    {
        char_text(self.to_char())
    }
}

/// Different icons have different glyphs.
pub proof fn lemma_glyphs_distinct(a: Icon, b: Icon)
    ensures
        a != b ==> icon_glyph(a) != icon_glyph(b),
{
}

} // verus!
