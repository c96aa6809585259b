//! Key presses as the library sees them, and the global key bindings.

use vstd::prelude::*;

use crate::models::Page;

verus! {

/// The key of a key press.
#[derive(Debug, Clone, Copy, PartialEq, Eq, Structural)]
pub enum Key {
    Char(char),
    /// A function key, F1 to F12.
    F(u8),
    Up,
    Down,
    Left,
    Right,
    Enter,
    Esc,
    Tab,
    Backspace,
    /// Any other key.
    Other,
}

/// A key press: the key and the modifiers held.
#[derive(Debug, Clone, Copy, PartialEq, Eq, Structural)]
pub struct KeyInput {
    pub code: Key,
    pub shift: bool,
    pub control: bool,
    pub alt: bool,
    /// Super, Hyper or Meta.
    pub meta: bool,
}

impl KeyInput {
    /// No modifier is held.
    pub open spec fn plain(self) -> bool {
        !self.shift && !self.control && !self.alt && !self.meta
    }

    /// Control alone is held.
    pub open spec fn control_only(self) -> bool {
        self.control && !self.shift && !self.alt && !self.meta
    }

    /// Whether no modifier is held.
    pub fn is_plain(&self) -> (b: bool)
        ensures
            b == self.plain(),
    {
        !self.shift && !self.control && !self.alt && !self.meta
    }
}

/// What a key press does before any page sees it.
#[derive(Debug, Clone, Copy, PartialEq, Eq, Structural)]
pub enum GlobalAction {
    Quit,
    SwitchPage(Page),
    TogglePause,
    NextTrack,
    PreviousTrack,
    CycleTheme,
    Refresh,
    CycleRepeat,
    VolumeUp,
    VolumeDown,
    /// The key goes to the handler of this page.
    PageKey(Page),
}

/// The page that a function key opens: F1 artists, F2 queue, F3 playlists,
/// F4 server, F5 settings.
pub open spec fn function_key_page(n: u8) -> Option<Page> {
    if n == 1 {
        Some(Page::Artists)
    } else if n == 2 {
        Some(Page::Queue)
    } else if n == 3 {
        Some(Page::Playlists)
    } else if n == 4 {
        Some(Page::Server)
    } else if n == 5 {
        Some(Page::Settings)
    } else {
        None
    }
}

/// The global key bindings. While the server page edits one of its text
/// fields (fields 0 to 2) or the artists page edits its filter, every key
/// goes to that page. Otherwise: q quits; F1 to F5 open pages; p or Space
/// pauses; l and h go to the next and previous track; t cycles the theme;
/// Ctrl+R refreshes; r cycles the repeat mode; + and - change the volume.
/// Any other key goes to the current page.
pub open spec fn spec_global_action(page: Page, server_field: usize, filtering: bool, key: KeyInput) -> GlobalAction {
    if (page == Page::Server && server_field <= 2) || (page == Page::Artists && filtering) {
        GlobalAction::PageKey(page)
    } else {
        let volume_mods = !key.control && !key.alt && !key.meta;
        match key.code {
            Key::Char('q') if key.plain() => GlobalAction::Quit,
            Key::F(n) if function_key_page(n) is Some => GlobalAction::SwitchPage(function_key_page(n)->0),
            Key::Char('p') if key.plain() => GlobalAction::TogglePause,
            Key::Char(' ') if key.plain() => GlobalAction::TogglePause,
            Key::Char('l') if key.plain() => GlobalAction::NextTrack,
            Key::Char('h') if key.plain() => GlobalAction::PreviousTrack,
            Key::Char('t') if key.plain() => GlobalAction::CycleTheme,
            Key::Char('r') if key.control_only() => GlobalAction::Refresh,
            Key::Char('r') if key.plain() => GlobalAction::CycleRepeat,
            Key::Char('+') if volume_mods => GlobalAction::VolumeUp,
            Key::Char('-') if volume_mods => GlobalAction::VolumeDown,
            _ => GlobalAction::PageKey(page),
        }
    }
}

/// When no text field or filter takes the keys, a plain 'p' and a plain
/// Space both pause or resume playback: they do one and the same thing.
pub proof fn lemma_p_and_space_toggle_pause(page: Page, server_field: usize, filtering: bool, key: KeyInput)
    requires
        !(page == Page::Server && server_field <= 2),
        !(page == Page::Artists && filtering),
        key.plain(),
        key.code == Key::Char('p'),
    ensures
        spec_global_action(page, server_field, filtering, key) == GlobalAction::TogglePause,
        spec_global_action(page, server_field, filtering, key) == spec_global_action(
            page,
            server_field,
            filtering,
            KeyInput { code: Key::Char(' '), ..key },
        ),
{
}

/// Decides what a key press does globally.
pub fn global_key_step(page: Page, server_field: usize, filtering: bool, key: KeyInput) -> (a: GlobalAction)
    ensures
        a == spec_global_action(page, server_field, filtering, key),
{
    let server_text = match page {
        Page::Server => server_field <= 2,
        _ => false,
    };
    let artists_filter = match page {
        Page::Artists => filtering,
        _ => false,
    };
    if server_text || artists_filter {
        return GlobalAction::PageKey(page);
    }
    let plain = key.is_plain();
    let volume_mods = !key.control && !key.alt && !key.meta;
    match key.code {
        Key::Char('q') if plain => GlobalAction::Quit,
        Key::F(n) if 1 <= n && n <= 5 => {
            let p = if n == 1 {
                Page::Artists
            } else if n == 2 {
                Page::Queue
            } else if n == 3 {
                Page::Playlists
            } else if n == 4 {
                Page::Server
            } else {
                Page::Settings
            };
            GlobalAction::SwitchPage(p)
        },
        Key::Char('p') if plain => GlobalAction::TogglePause,
        Key::Char(' ') if plain => GlobalAction::TogglePause,
        Key::Char('l') if plain => GlobalAction::NextTrack,
        Key::Char('h') if plain => GlobalAction::PreviousTrack,
        Key::Char('t') if plain => GlobalAction::CycleTheme,
        Key::Char('r') if key.control && !key.shift && !key.alt && !key.meta => GlobalAction::Refresh,
        Key::Char('r') if plain => GlobalAction::CycleRepeat,
        Key::Char('+') if volume_mods => GlobalAction::VolumeUp,
        Key::Char('-') if volume_mods => GlobalAction::VolumeDown,
        _ => GlobalAction::PageKey(page),
    }
}

} // verus!
