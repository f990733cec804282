use shell_core::dispatch::{
    Effect, Key, KeyboardEvent, Message, Modifiers, RawEvent, WindowEvent, WindowMode,
};
use shell_core::state::{AppState, Theme, ZOOM_DEFAULT_TENTHS, ZOOM_STEP_TENTHS};

fn ctrl() -> Modifiers {
    Modifiers { ctrl: true, alt: false, shift: false, logo: false }
}

fn alt() -> Modifiers {
    Modifiers { ctrl: false, alt: true, shift: false, logo: false }
}

fn key_message(key: Key, modifiers: Modifiers) -> Message {
    Message::RawEvent(RawEvent::Keyboard(KeyboardEvent::KeyPressed { key, modifiers }))
}

#[test]
fn initial_state_defaults() {
    let s = AppState::default();
    assert_eq!(s.display_mode, Some(true));
    assert_eq!(s.zoom_tenths, ZOOM_DEFAULT_TENTHS);
    assert_eq!(s.zoom_tenths, 10);
    assert!(!s.show_exit_dialog);
    assert_eq!(s.theme(), Theme::Dark);
}

#[test]
fn set_display_mode_selects_theme() {
    let mut s = AppState::default();
    let eff = s.apply(Message::SetDisplayMode(false));
    assert_eq!(eff, None);
    assert_eq!(s.display_mode, Some(false));
    assert_eq!(s.theme(), Theme::Light);
    let eff = s.apply(Message::SetDisplayMode(true));
    assert_eq!(eff, None);
    assert_eq!(s.theme(), Theme::Dark);
}

#[test]
fn close_request_raises_dialog() {
    let mut s = AppState::default();
    let eff = s.apply(Message::RawEvent(RawEvent::Window(WindowEvent::CloseRequested)));
    assert_eq!(eff, None);
    assert!(s.show_exit_dialog);
}

#[test]
fn declined_confirmation_lowers_dialog() {
    let mut s = AppState::default();
    s.apply(Message::RawEvent(RawEvent::Window(WindowEvent::CloseRequested)));
    let eff = s.apply(Message::ExitConfirmed(false));
    assert_eq!(eff, None);
    assert!(!s.show_exit_dialog);
}

#[test]
fn accepted_confirmation_closes_without_mutation() {
    let mut s = AppState::default();
    s.apply(Message::RawEvent(RawEvent::Window(WindowEvent::CloseRequested)));
    let before = s;
    let eff = s.apply(Message::ExitConfirmed(true));
    assert_eq!(eff, Some(Effect::CloseWindow));
    assert_eq!(s, before);
}

#[test]
fn zoom_in_twice_then_out_once() {
    // Ctrl+Equals, Ctrl+Equals, Ctrl+Minus: 1.0 + 0.1 + 0.1 - 0.1 = 1.1
    let mut s = AppState::default();
    assert_eq!(s.apply(key_message(Key::Equals, ctrl())), None);
    assert_eq!(s.apply(key_message(Key::Equals, ctrl())), None);
    assert_eq!(s.apply(key_message(Key::Minus, ctrl())), None);
    assert_eq!(s.zoom_tenths, 11);
}

#[test]
fn close_cancel_close_confirm() {
    let mut s = AppState::default();
    let messages = [
        Message::RawEvent(RawEvent::Window(WindowEvent::CloseRequested)),
        Message::ExitConfirmed(false),
        Message::RawEvent(RawEvent::Window(WindowEvent::CloseRequested)),
        Message::ExitConfirmed(true),
    ];
    let mut effects: Vec<Option<Effect>> = Vec::new();
    let mut dialog_after_cancel = true;
    for (i, m) in messages.iter().enumerate() {
        effects.push(s.apply(*m));
        if i == 1 {
            dialog_after_cancel = s.show_exit_dialog;
        }
    }
    // the cancelled dialog was consumed before the final close
    assert!(!dialog_after_cancel);
    // the final effect is the only CloseWindow of the run
    assert_eq!(effects[3], Some(Effect::CloseWindow));
    let closes = effects.iter().filter(|e| **e == Some(Effect::CloseWindow)).count();
    assert_eq!(closes, 1);
    assert_eq!(effects[0], None);
    assert_eq!(effects[1], None);
    assert_eq!(effects[2], None);
}

#[test]
fn zoom_never_drops_below_floor() {
    let mut s = AppState::default();
    for _ in 0..40 {
        s.apply(key_message(Key::Minus, ctrl()));
        assert!(s.zoom_tenths >= ZOOM_STEP_TENTHS);
    }
    assert_eq!(s.zoom_tenths, ZOOM_STEP_TENTHS);
    assert_eq!(s.zoom_tenths, 1);
}

#[test]
fn zoom_reset_after_changes() {
    let mut s = AppState::default();
    for _ in 0..7 {
        s.apply(key_message(Key::Equals, ctrl()));
    }
    s.apply(key_message(Key::Minus, ctrl()));
    assert_ne!(s.zoom_tenths, ZOOM_DEFAULT_TENTHS);
    let eff = s.apply(key_message(Key::Key0, ctrl()));
    assert_eq!(eff, None);
    assert_eq!(s.zoom_tenths, ZOOM_DEFAULT_TENTHS);
}

#[test]
fn alt_enter_queries_window_mode() {
    let mut s = AppState::default();
    let before = s;
    let eff = s.apply(key_message(Key::Enter, alt()));
    assert_eq!(eff, Some(Effect::QueryWindowMode));
    assert_eq!(s, before);
}

#[test]
fn fullscreen_toggles_to_windowed_and_back() {
    let mut s = AppState::default();
    let eff = s.apply(Message::FullscreenToggled(WindowMode::Fullscreen));
    assert_eq!(eff, Some(Effect::RequestWindowMode(WindowMode::Windowed)));
    let eff = s.apply(Message::FullscreenToggled(WindowMode::Windowed));
    assert_eq!(eff, Some(Effect::RequestWindowMode(WindowMode::Fullscreen)));
    let eff = s.apply(Message::FullscreenToggled(WindowMode::Hidden));
    assert_eq!(eff, Some(Effect::RequestWindowMode(WindowMode::Fullscreen)));
}

#[test]
fn unmatched_events_are_ignored() {
    let mut s = AppState::default();
    let before = s;
    // a chord with an extra modifier is not a match
    let extra = Modifiers { ctrl: true, alt: false, shift: true, logo: false };
    assert_eq!(s.apply(key_message(Key::Minus, extra)), None);
    // the right modifier with an unmapped key
    assert_eq!(s.apply(key_message(Key::Other, ctrl())), None);
    // enter without alt
    assert_eq!(s.apply(key_message(Key::Enter, ctrl())), None);
    // bare events with no classification
    assert_eq!(s.apply(Message::RawEvent(RawEvent::Keyboard(KeyboardEvent::Other))), None);
    assert_eq!(s.apply(Message::RawEvent(RawEvent::Window(WindowEvent::Other))), None);
    assert_eq!(s.apply(Message::RawEvent(RawEvent::Other)), None);
    assert_eq!(s, before);
}

#[test]
fn zoom_methods_step_exactly() {
    let mut s = AppState::default();
    s.zoom_in();
    assert_eq!(s.zoom_tenths, 11);
    s.zoom_out();
    s.zoom_out();
    assert_eq!(s.zoom_tenths, 9);
    s.zoom_reset();
    assert_eq!(s.zoom_tenths, 10);
}

#[test]
fn zoom_out_clamps_at_floor() {
    let mut s = AppState::default();
    s.zoom_tenths = 1;
    s.zoom_out();
    assert_eq!(s.zoom_tenths, 1);
}

#[test]
fn zoom_in_saturates_at_maximum() {
    let mut s = AppState::default();
    s.zoom_tenths = u32::MAX;
    s.zoom_in();
    assert_eq!(s.zoom_tenths, u32::MAX);
}
