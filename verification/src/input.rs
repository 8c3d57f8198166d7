//! The input router: from a key event and the current mode to a command.
//!
//! Routing is a total function without side effects. The exit key and the
//! key that toggles the configuration overlay work everywhere. While the
//! overlay is visible it owns the keyboard: the four arrow keys move its
//! focus and every other key does nothing. Otherwise the keys drive the list
//! of the current mode.

use vstd::prelude::*;

verus! {

/// Which list owns the display and the input.
#[derive(Clone, Copy, Debug, PartialEq, Eq, Structural)]
pub enum AppState {
    Bookmarks,
    Launcher,
}

impl AppState {
    /// The other mode.
    pub open spec fn other(self) -> AppState {
        match self {
            AppState::Bookmarks => AppState::Launcher,
            AppState::Launcher => AppState::Bookmarks,
        }
    }
}

/// A key of the keyboard, as far as the router tells keys apart.
#[derive(Clone, Copy, Debug, PartialEq, Eq, Structural)]
pub enum Key {
    Esc,
    /// A function key, by its number.
    F(u8),
    Up,
    Down,
    Left,
    Right,
    PageUp,
    PageDown,
    Backspace,
    Delete,
    Enter,
    /// A key that produces a character.
    Char(char),
    /// Any other key.
    Other,
}

/// A key event.
#[derive(Clone, Copy, Debug, PartialEq, Eq, Structural)]
pub struct KeyInput {
    pub key: Key,
    /// The key went down; false for a release or a repeat.
    pub pressed: bool,
    /// The control modifier, and no other, was held.
    pub control: bool,
}

/// A command: what the router asks the dispatcher to do.
#[derive(Clone, Copy, Debug, PartialEq, Eq, Structural)]
pub enum Control {
    Exit,
    ToggleConfig,
    ConfigNext,
    ConfigPrevious,
    SelectNext,
    SelectPrevious,
    AppendInput(char),
    DeleteChar,
    ClearInput,
    PasteInput,
    Activate,
    SwitchMode(AppState),
    /// No command: the key means nothing here.
    Nothing,
}

/// The command for a key pressed while the configuration overlay is visible.
pub open spec fn overlay_command(key: Key) -> Control {
    match key {
        Key::Down => Control::ConfigNext,
        Key::Right => Control::ConfigNext,
        Key::Up => Control::ConfigPrevious,
        Key::Left => Control::ConfigPrevious,
        _ => Control::Nothing,
    }
}

/// The command for a key pressed in `mode` while the overlay is hidden.
pub open spec fn list_command(mode: AppState, key: Key, control: bool) -> Control {
    match key {
        Key::PageDown => Control::SwitchMode(mode.other()),
        Key::PageUp => Control::SwitchMode(mode.other()),
        Key::Down => Control::SelectNext,
        Key::Up => Control::SelectPrevious,
        Key::Backspace => Control::DeleteChar,
        Key::Delete => Control::ClearInput,
        Key::Enter => Control::Activate,
        Key::Char(c) => if control {
            Control::PasteInput
        } else {
            Control::AppendInput(c)
        },
        _ => Control::Nothing,
    }
}

/// The command for a key event in `mode`, with the overlay visible or not.
pub open spec fn command_for(mode: AppState, overlay_visible: bool, input: KeyInput) -> Control {
    if !input.pressed {
        Control::Nothing
    } else if input.key == Key::Esc {
        Control::Exit
    } else if input.key == Key::F(1) {
        Control::ToggleConfig
    } else if overlay_visible {
        overlay_command(input.key)
    } else {
        list_command(mode, input.key, input.control)
    }
}

/// The command for a terminal event in `mode`: that of the key event where
/// the event is one, and none for every other event, such as a resize or a
/// mouse event.
pub open spec fn command_for_event(mode: AppState, overlay_visible: bool, event: Option<KeyInput>)
    -> Control {
    match event {
        Some(input) => command_for(mode, overlay_visible, input),
        None => Control::Nothing,
    }
}

/// The router: it knows the current mode and whether the overlay is visible.
#[derive(Clone, Copy, Debug, PartialEq, Eq, Structural)]
pub struct InputHandler {
    mode: AppState,
    config_visible: bool,
}

impl InputHandler {
    /// The mode the router routes for.
    pub closed spec fn mode(&self) -> AppState {
        self.mode
    }

    /// Whether the router takes the overlay to be visible.
    pub closed spec fn config_visible(&self) -> bool {
        self.config_visible
    }

    /// A router for the bookmark list with the overlay hidden.
    pub fn new() -> (r: Self)
        ensures
            r.mode() == AppState::Bookmarks,
            !r.config_visible(),
    {
        InputHandler { mode: AppState::Bookmarks, config_visible: false }
    }

    /// Routes for `state` from now on.
    pub fn set_mode(&mut self, state: AppState)
        ensures
            final(self).mode() == state,
            final(self).config_visible() == old(self).config_visible(),
    {
        self.mode = state;
    }

    /// Takes the overlay to be visible, or hidden, from now on.
    pub fn set_config_visible(&mut self, visible: bool)
        ensures
            final(self).config_visible() == visible,
            final(self).mode() == old(self).mode(),
    {
        self.config_visible = visible;
    }

    /// The command for a terminal event: `Some` for a key event, `None` for
    /// any other event.
    pub fn route_event(&self, event: Option<KeyInput>) -> (r: Control)
        ensures
            r == command_for_event(self.mode(), self.config_visible(), event),
            r == match event {
                Some(input) => command_for(self.mode(), self.config_visible(), input),
                None => Control::Nothing,
            },
    {
        match event {
            Some(input) => self.route(input),
            None => Control::Nothing,
        }
    }

    /// The command for a key event.
    pub fn route(&self, input: KeyInput) -> (r: Control)
        ensures
            r == command_for(self.mode(), self.config_visible(), input),
    {
        if !input.pressed {
            return Control::Nothing;
        }
        match input.key {
            Key::Esc => Control::Exit,
            Key::F(1) => Control::ToggleConfig,
            key => {
                if self.config_visible {
                    match key {
                        Key::Down | Key::Right => Control::ConfigNext,
                        Key::Up | Key::Left => Control::ConfigPrevious,
                        _ => Control::Nothing,
                    }
                } else {
                    let other = match self.mode {
                        AppState::Bookmarks => AppState::Launcher,
                        AppState::Launcher => AppState::Bookmarks,
                    };
                    match key {
                        Key::PageDown | Key::PageUp => Control::SwitchMode(other),
                        Key::Down => Control::SelectNext,
                        Key::Up => Control::SelectPrevious,
                        Key::Backspace => Control::DeleteChar,
                        Key::Delete => Control::ClearInput,
                        Key::Enter => Control::Activate,
                        Key::Char(c) => if input.control {
                            Control::PasteInput
                        } else {
                            Control::AppendInput(c)
                        },
                        _ => Control::Nothing,
                    }
                }
            },
        }
    }
}

/// While the overlay is visible, a pressed key other than the exit key, the
/// toggle key and the four arrow keys gives no command.
pub proof fn lemma_overlay_owns_keyboard(mode: AppState, input: KeyInput)
    requires
        input.key != Key::Esc,
        input.key != Key::F(1),
        input.key != Key::Up,
        input.key != Key::Down,
        input.key != Key::Left,
        input.key != Key::Right,
    ensures
        command_for(mode, true, input) == Control::Nothing,
{
}

/// The exit key and the toggle key give their command in every mode, with
/// the overlay visible or hidden.
pub proof fn lemma_global_keys(mode: AppState, overlay_visible: bool, control: bool)
    ensures
        command_for(mode, overlay_visible, KeyInput { key: Key::Esc, pressed: true, control })
            == Control::Exit,
        command_for(mode, overlay_visible, KeyInput { key: Key::F(1), pressed: true, control })
            == Control::ToggleConfig,
{
}

} // verus!
