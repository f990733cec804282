//! Message classification and the transition function.
//!
//! Raw input and window events arrive from the host runtime, are classified
//! by exact match on (key, modifier set) pairs, and drive the one transition
//! function `AppState::apply`, which is pure: it mutates the state record
//! and returns at most one effect request for the host runtime to carry out.

use vstd::prelude::*;

use crate::state::{spec_zoom_in, spec_zoom_out, AppState, ZOOM_DEFAULT_TENTHS};

verus! {

/// The key codes the shell reacts to. Every other key arrives as `Other`
/// and is ignored.
#[derive(Clone, Copy, Debug, PartialEq, Eq, Structural)]
pub enum Key {
    Enter,
    Minus,
    Equals,
    Key0,
    Other,
}

/// The modifier set held down with a key press. Shortcuts match on the
/// exact set: a chord with an extra modifier is not a match.
#[derive(Clone, Copy, Debug, PartialEq, Eq, Structural)]
pub struct Modifiers {
    pub ctrl: bool,
    pub alt: bool,
    pub shift: bool,
    pub logo: bool,
}

impl Modifiers {
    /// Exactly `Ctrl`, nothing else.
    pub open spec fn is_ctrl_only(self) -> bool {
        self.ctrl && !self.alt && !self.shift && !self.logo
    }

    /// Exactly `Alt`, nothing else.
    pub open spec fn is_alt_only(self) -> bool {
        !self.ctrl && self.alt && !self.shift && !self.logo
    }
}

/// A raw keyboard event as the dispatcher sees it.
#[derive(Clone, Copy, Debug, PartialEq, Eq, Structural)]
pub enum KeyboardEvent {
    KeyPressed { key: Key, modifiers: Modifiers },
    Other,
}

/// A raw window event as the dispatcher sees it.
#[derive(Clone, Copy, Debug, PartialEq, Eq, Structural)]
pub enum WindowEvent {
    CloseRequested,
    Other,
}

/// A raw event from the host runtime's subscription stream.
#[derive(Clone, Copy, Debug, PartialEq, Eq, Structural)]
pub enum RawEvent {
    Keyboard(KeyboardEvent),
    Window(WindowEvent),
    Other,
}

/// The window mode the host runtime owns; the core only asks for it and
/// requests changes.
#[derive(Clone, Copy, Debug, PartialEq, Eq, Structural)]
pub enum WindowMode {
    Windowed,
    Fullscreen,
    Hidden,
}

/// The closed set of messages the core acts on: raw events from the
/// subscription, and the typed messages the view layer or a completed
/// effect hands back.
#[derive(Clone, Copy, Debug, PartialEq, Eq, Structural)]
pub enum Message {
    RawEvent(RawEvent),
    SetDisplayMode(bool),
    FullscreenToggled(WindowMode),
    ExitConfirmed(bool),
}

/// An instruction to the host runtime to perform a side-effecting action.
/// `QueryWindowMode` asks for the current mode, to be re-dispatched as
/// `Message::FullscreenToggled`.
#[derive(Clone, Copy, Debug, PartialEq, Eq, Structural)]
pub enum Effect {
    RequestWindowMode(WindowMode),
    CloseWindow,
    QueryWindowMode,
}

/// What a key press does to state `s`: the keyboard half of the transition
/// table. Only four exact chords act; everything else is a no-op.
pub open spec fn spec_handle_key(s: AppState, e: KeyboardEvent) -> (AppState, Option<Effect>) {
    match e {
        KeyboardEvent::KeyPressed { key, modifiers } => {
            if key == Key::Enter && modifiers.is_alt_only() {
                (s, Some(Effect::QueryWindowMode))
            } else if key == Key::Minus && modifiers.is_ctrl_only() {
                (AppState { zoom_tenths: spec_zoom_out(s.zoom_tenths), ..s }, None)
            } else if key == Key::Equals && modifiers.is_ctrl_only() {
                (AppState { zoom_tenths: spec_zoom_in(s.zoom_tenths), ..s }, None)
            } else if key == Key::Key0 && modifiers.is_ctrl_only() {
                (AppState { zoom_tenths: ZOOM_DEFAULT_TENTHS, ..s }, None)
            } else {
                (s, None)
            }
        },
        KeyboardEvent::Other => (s, None),
    }
}

/// What a window event does to state `s`: a close request only raises the
/// confirmation dialog, never closes on its own.
pub open spec fn spec_handle_window(s: AppState, e: WindowEvent) -> (AppState, Option<Effect>) {
    match e {
        WindowEvent::CloseRequested => (AppState { show_exit_dialog: true, ..s }, None),
        WindowEvent::Other => (s, None),
    }
}

/// The whole transition table: the new state and the at most one effect
/// that message `m` produces from state `s`.
pub open spec fn spec_apply(s: AppState, m: Message) -> (AppState, Option<Effect>) {
    match m {
        Message::RawEvent(e) => match e {
            RawEvent::Keyboard(ke) => spec_handle_key(s, ke),
            RawEvent::Window(we) => spec_handle_window(s, we),
            RawEvent::Other => (s, None),
        },
        Message::SetDisplayMode(v) => (AppState { display_mode: Some(v), ..s }, None),
        Message::FullscreenToggled(mode) => (
            s,
            Some(
                Effect::RequestWindowMode(
                    if mode == WindowMode::Fullscreen {
                        WindowMode::Windowed
                    } else {
                        WindowMode::Fullscreen
                    },
                ),
            ),
        ),
        Message::ExitConfirmed(confirm) => {
            if confirm {
                (s, Some(Effect::CloseWindow))
            } else {
                (AppState { show_exit_dialog: false, ..s }, None)
            }
        },
    }
}

impl AppState {
    /// Applies one keyboard event: the four shortcut chords act, every
    /// other key press is absorbed as a no-op.
    pub fn handle_key_event(&mut self, event: KeyboardEvent) -> (eff: Option<Effect>)
        ensures
            (*final(self), eff) == spec_handle_key(*old(self), event),
    {
        match event {
            KeyboardEvent::KeyPressed { key, modifiers } => {
                if key == Key::Enter && modifiers.alt && !modifiers.ctrl && !modifiers.shift
                    && !modifiers.logo {
                    Some(Effect::QueryWindowMode)
                } else if key == Key::Minus && modifiers.ctrl && !modifiers.alt && !modifiers.shift
                    && !modifiers.logo {
                    self.zoom_out();
                    None
                } else if key == Key::Equals && modifiers.ctrl && !modifiers.alt
                    && !modifiers.shift && !modifiers.logo {
                    self.zoom_in();
                    None
                } else if key == Key::Key0 && modifiers.ctrl && !modifiers.alt && !modifiers.shift
                    && !modifiers.logo {
                    self.zoom_reset();
                    None
                } else {
                    None
                }
            },
            KeyboardEvent::Other => None,
        }
    }

    /// Applies one window event: a close request raises the confirmation
    /// dialog, everything else is absorbed as a no-op.
    pub fn handle_window_event(&mut self, event: WindowEvent) -> (eff: Option<Effect>)
        ensures
            (*final(self), eff) == spec_handle_window(*old(self), event),
    {
        match event {
            WindowEvent::CloseRequested => {
                self.show_exit_dialog = true;
                None
            },
            WindowEvent::Other => None,
        }
    }

    /// The one operation of the state store: applies message `m` and
    /// returns the effect request it produces, if any. Pure, total, never
    /// fails: unrecognized events are absorbed as no-ops.
    pub fn apply(&mut self, m: Message) -> (eff: Option<Effect>)
        ensures
            (*final(self), eff) == spec_apply(*old(self), m),
    {
        match m {
            Message::RawEvent(e) => match e {
                RawEvent::Keyboard(ke) => self.handle_key_event(ke),
                RawEvent::Window(we) => self.handle_window_event(we),
                RawEvent::Other => None,
            },
            Message::SetDisplayMode(v) => {
                self.display_mode = Some(v);
                None
            },
            Message::FullscreenToggled(mode) => {
                if mode == WindowMode::Fullscreen {
                    Some(Effect::RequestWindowMode(WindowMode::Windowed))
                } else {
                    Some(Effect::RequestWindowMode(WindowMode::Fullscreen))
                }
            },
            Message::ExitConfirmed(confirm) => {
                if confirm {
                    Some(Effect::CloseWindow)
                } else {
                    self.show_exit_dialog = false;
                    None
                }
            },
        }
    }
}

} // verus!
