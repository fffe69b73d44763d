//! The colour themes.

use vstd::prelude::*;

verus! {

/// A colour theme, by name.
#[derive(Debug, Clone, Copy, PartialEq, Eq, Structural)]
pub enum ThemeName {
    Light,
    Dark,
}

impl Default for ThemeName {
    /// The light theme.
    fn default() -> (name: ThemeName)
        ensures
            name == ThemeName::Light,
    {
        ThemeName::Light
    }
}

/// A colour as red, green and blue.
#[derive(Debug, Clone, Copy, PartialEq, Eq, Structural)]
pub struct Rgb {
    pub red: u8,
    pub green: u8,
    pub blue: u8,
}

/// The colours of a theme.
#[derive(Debug, Clone, Copy, PartialEq, Eq, Structural)]
pub struct Theme {
    pub name: ThemeName,
    /// Main background.
    pub bg_primary: Rgb,
    /// Alternate background, for list items.
    pub bg_secondary: Rgb,
    /// Background of header and footer.
    pub bg_accent: Rgb,
    /// Main text.
    pub fg_primary: Rgb,
    /// Muted text.
    pub fg_secondary: Rgb,
    /// The colour of the selection.
    pub accent: Rgb,
    /// Text on the colour of the selection.
    pub accent_fg: Rgb,
}

/// The colours of the light theme.
pub open spec fn light_theme() -> Theme {
    Theme {
        name: ThemeName::Light,
        bg_primary: Rgb { red: 255, green: 254, blue: 252 },
        bg_secondary: Rgb { red: 255, green: 254, blue: 252 },
        bg_accent: Rgb { red: 230, green: 230, blue: 227 },
        fg_primary: Rgb { red: 0, green: 0, blue: 0 },
        fg_secondary: Rgb { red: 148, green: 148, blue: 148 },
        accent: Rgb { red: 234, green: 68, blue: 57 },
        accent_fg: Rgb { red: 255, green: 255, blue: 255 },
    }
}

/// The colours of the dark theme.
pub open spec fn dark_theme() -> Theme {
    Theme {
        name: ThemeName::Dark,
        bg_primary: Rgb { red: 0, green: 0, blue: 0 },
        bg_secondary: Rgb { red: 20, green: 20, blue: 20 },
        bg_accent: Rgb { red: 40, green: 40, blue: 40 },
        fg_primary: Rgb { red: 255, green: 255, blue: 255 },
        fg_secondary: Rgb { red: 150, green: 150, blue: 150 },
        accent: Rgb { red: 234, green: 68, blue: 57 },
        accent_fg: Rgb { red: 255, green: 255, blue: 255 },
    }
}

impl Theme {
    /// The name of the theme as it is shown.
    pub fn label(&self) -> (label: &'static str)
        ensures
            label@ == match self.name {
                ThemeName::Light => "Light"@,
                ThemeName::Dark => "Dark"@,
            },
    {
        match self.name {
            ThemeName::Light => "Light",
            ThemeName::Dark => "Dark",
        }
    }

    /// The light theme.
    pub fn light() -> (theme: Theme)
        ensures
            theme == light_theme(),
    {
        Theme {
            name: ThemeName::Light,
            bg_primary: Rgb { red: 255, green: 254, blue: 252 },
            bg_secondary: Rgb { red: 255, green: 254, blue: 252 },
            bg_accent: Rgb { red: 230, green: 230, blue: 227 },
            fg_primary: Rgb { red: 0, green: 0, blue: 0 },
            fg_secondary: Rgb { red: 148, green: 148, blue: 148 },
            accent: Rgb { red: 234, green: 68, blue: 57 },
            accent_fg: Rgb { red: 255, green: 255, blue: 255 },
        }
    }

    /// The dark theme.
    pub fn dark() -> (theme: Theme)
        ensures
            theme == dark_theme(),
    {
        Theme {
            name: ThemeName::Dark,
            bg_primary: Rgb { red: 0, green: 0, blue: 0 },
            bg_secondary: Rgb { red: 20, green: 20, blue: 20 },
            bg_accent: Rgb { red: 40, green: 40, blue: 40 },
            fg_primary: Rgb { red: 255, green: 255, blue: 255 },
            fg_secondary: Rgb { red: 150, green: 150, blue: 150 },
            accent: Rgb { red: 234, green: 68, blue: 57 },
            accent_fg: Rgb { red: 255, green: 255, blue: 255 },
        }
    }

    /// The colours of the theme with the given name.
    pub fn from_name(name: &ThemeName) -> (theme: Theme)
        ensures
            theme == match *name {
                ThemeName::Light => light_theme(),
                ThemeName::Dark => dark_theme(),
            },
    {
        match name {
            ThemeName::Light => Theme::light(),
            ThemeName::Dark => Theme::dark(),
        }
    }
}

} // verus!
