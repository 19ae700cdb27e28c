//! The symbols of the popup, drawn from Windows' Segoe Fluent Icons font.

use vstd::prelude::*;

verus! {

/// A standard action's symbol.
#[derive(Clone, Copy, Debug, PartialEq, Eq, Structural)]
pub enum Symbol {
    Volume,
    Mute,
    Settings,
    SoundLocator,
    Power,
    ChevronRight,
    Back,
    Check,
    Application,
    OpenExternal,
}

impl Symbol {
    /// The font code point of this symbol. Sound Locator has a purpose-built
    /// mark rather than a font glyph, and gives the null character.
    pub fn glyph(self) -> (c: char)
        ensures
            c == match self {
                Symbol::Volume => '\u{E767}',
                Symbol::Mute => '\u{E74F}',
                Symbol::Settings => '\u{E713}',
                Symbol::SoundLocator => '\0',
                Symbol::Power => '\u{E7E8}',
                Symbol::ChevronRight => '\u{E76C}',
                Symbol::Back => '\u{E72B}',
                Symbol::Check => '\u{E73E}',
                Symbol::Application => '\u{E71D}',
                Symbol::OpenExternal => '\u{E8A7}',
            },
    {
        match self {
            Symbol::Volume => '\u{E767}',
            Symbol::Mute => '\u{E74F}',
            Symbol::Settings => '\u{E713}',
            Symbol::SoundLocator => '\0',
            Symbol::Power => '\u{E7E8}',
            Symbol::ChevronRight => '\u{E76C}',
            Symbol::Back => '\u{E72B}',
            Symbol::Check => '\u{E73E}',
            Symbol::Application => '\u{E71D}',
            Symbol::OpenExternal => '\u{E8A7}',
        }
    }
}

} // verus!
