//! The settings of the reader: key bindings and theme.

use crate::theme::ThemeName;
use vstd::prelude::*;

verus! {

/// The keys bound to the reader's commands.
#[derive(Debug, Clone, Copy, PartialEq, Eq, Structural)]
pub struct KeyBindings {
    pub quit: char,
    pub open: char,
    pub open_new_tab: char,
    pub refresh: char,
    pub latest: char,
    pub scroll_up: char,
    pub scroll_down: char,
    pub scroll_bottom: char,
}

/// The settings of the reader.
#[derive(Debug, Clone, Copy, PartialEq, Eq, Structural)]
pub struct Config {
    pub keybindings: KeyBindings,
    pub theme: ThemeName,
}

/// The bindings that apply where none are configured.
pub open spec fn default_bindings() -> KeyBindings {
    KeyBindings {
        quit: 'q',
        open: 'o',
        open_new_tab: 'O',
        refresh: 'r',
        latest: 'l',
        scroll_up: 'k',
        scroll_down: 'j',
        scroll_bottom: 'G',
    }
}

/// The key that quits where none is configured.
pub fn default_quit() -> (key: char)
    ensures
        key == 'q',
{
    'q'
}

/// The key that opens the selected story in the browser where none is configured.
pub fn default_open() -> (key: char)
    ensures
        key == 'o',
{
    'o'
}

/// The key that opens the selected story in a new tab where none is configured.
pub fn default_open_new_tab() -> (key: char)
    ensures
        key == 'O',
{
    'O'
}

/// The key that refreshes the feed where none is configured.
pub fn default_refresh() -> (key: char)
    ensures
        key == 'r',
{
    'r'
}

/// The key that jumps to the first story where none is configured.
pub fn default_latest() -> (key: char)
    ensures
        key == 'l',
{
    'l'
}

/// The key that moves the selection up where none is configured.
pub fn default_scroll_up() -> (key: char)
    ensures
        key == 'k',
{
    'k'
}

/// The key that moves the selection down where none is configured.
pub fn default_scroll_down() -> (key: char)
    ensures
        key == 'j',
{
    'j'
}

/// The key that jumps to the last story where none is configured.
pub fn default_scroll_bottom() -> (key: char)
    ensures
        key == 'G',
{
    'G'
}

impl Default for KeyBindings {
    /// The bindings that apply where none are configured.
    fn default() -> (bindings: KeyBindings)
        ensures
            bindings == default_bindings(),
    {
        KeyBindings {
            quit: default_quit(),
            open: default_open(),
            open_new_tab: default_open_new_tab(),
            refresh: default_refresh(),
            latest: default_latest(),
            scroll_up: default_scroll_up(),
            scroll_down: default_scroll_down(),
            scroll_bottom: default_scroll_bottom(),
        }
    }
}

impl Default for Config {
    /// The default bindings and the light theme.
    fn default() -> (config: Config)
        ensures
            config == (Config { keybindings: default_bindings(), theme: ThemeName::Light }),
    {
        Config { keybindings: KeyBindings::default(), theme: ThemeName::default() }
    }
}

} // verus!
