//! The guarantees the transition table gives over whole runs: the zoom
//! floor, theme resolution after a mode change, the exit-confirmation
//! protocol, and the zoom reset, each stated over every state and every
//! sequence of messages.

use vstd::prelude::*;

use crate::dispatch::{
    spec_apply, Effect, Key, KeyboardEvent, Message, Modifiers, RawEvent, WindowEvent,
};
use crate::state::{AppState, Theme, ZOOM_DEFAULT_TENTHS, ZOOM_STEP_TENTHS};

verus! {

/// The state after a whole sequence of messages has been applied in order,
/// the effects discarded.
pub open spec fn apply_all(s: AppState, msgs: Seq<Message>) -> AppState
    decreases msgs.len(),
{
    if msgs.len() == 0 {
        s
    } else {
        apply_all(spec_apply(s, msgs.first()).0, msgs.drop_first())
    }
}

/// The modifier set of the zoom and reset shortcuts: exactly `Ctrl`.
pub open spec fn ctrl_only() -> Modifiers {
    Modifiers { ctrl: true, alt: false, shift: false, logo: false }
}

/// The message a `Ctrl+0` press arrives as.
pub open spec fn ctrl_zero_message() -> Message {
    Message::RawEvent(
        RawEvent::Keyboard(KeyboardEvent::KeyPressed { key: Key::Key0, modifiers: ctrl_only() }),
    )
}

/// No single message breaks the state invariant: the zoom factor stays at
/// or above the step, and the display mode stays set.
pub proof fn lemma_apply_preserves_well_formed(s: AppState, m: Message)
    requires
        s.well_formed(),
    ensures
        spec_apply(s, m).0.well_formed(),
{
}

/// No single message drops the zoom factor below the step.
pub proof fn lemma_apply_zoom_floor(s: AppState, m: Message)
    requires
        s.zoom_tenths >= ZOOM_STEP_TENTHS,
    ensures
        spec_apply(s, m).0.zoom_tenths >= ZOOM_STEP_TENTHS,
{
}

/// For every sequence of messages — in particular for any run of
/// `Ctrl+Minus` presses — the zoom factor never drops below the step of one
/// tenth: every intermediate state is the result of some prefix, and the
/// claim holds of all of them.
pub proof fn lemma_zoom_never_below_floor(s: AppState, msgs: Seq<Message>)
    requires
        s.zoom_tenths >= ZOOM_STEP_TENTHS,
    ensures
        apply_all(s, msgs).zoom_tenths >= ZOOM_STEP_TENTHS,
    decreases msgs.len(),
{
    if msgs.len() > 0 {
        lemma_apply_zoom_floor(s, msgs.first());
        lemma_zoom_never_below_floor(spec_apply(s, msgs.first()).0, msgs.drop_first());
    }
}

/// The whole invariant carried over a whole run: from a well-formed state
/// every sequence of messages leads to a well-formed state.
pub proof fn lemma_well_formed_preserved(s: AppState, msgs: Seq<Message>)
    requires
        s.well_formed(),
    ensures
        apply_all(s, msgs).well_formed(),
    decreases msgs.len(),
{
    if msgs.len() > 0 {
        lemma_apply_preserves_well_formed(s, msgs.first());
        lemma_well_formed_preserved(spec_apply(s, msgs.first()).0, msgs.drop_first());
    }
}

/// Setting the display mode followed immediately by a theme read yields the
/// theme corresponding to the chosen value: dark for `true`, light for
/// `false`, whatever state came before.
pub proof fn lemma_set_display_mode_theme(s: AppState, v: bool)
    ensures
        spec_apply(s, Message::SetDisplayMode(v)).0.display_mode == Some(v),
        spec_apply(s, Message::SetDisplayMode(v)).0.spec_theme() == (if v {
            Theme::Dark
        } else {
            Theme::Light
        }),
        spec_apply(s, Message::SetDisplayMode(v)).1 is None,
{
}

/// The exit-confirmation protocol, from any state: a close request raises
/// the dialog and closes nothing; a declined confirmation lowers the dialog;
/// an accepted confirmation requests the one `CloseWindow` effect and
/// mutates no state at all.
pub proof fn lemma_exit_dialog_protocol(s: AppState)
    ensures
        spec_apply(s, Message::RawEvent(RawEvent::Window(WindowEvent::CloseRequested))) == (
        AppState { show_exit_dialog: true, ..s },
        None::<Effect>,
        ),
        spec_apply(s, Message::ExitConfirmed(false)) == (
        AppState { show_exit_dialog: false, ..s },
        None::<Effect>,
        ),
        spec_apply(s, Message::ExitConfirmed(true)) == (s, Some(Effect::CloseWindow)),
{
}

/// `Ctrl+0` after any sequence of zoom changes — indeed after any sequence
/// of messages at all — resets the zoom factor to exactly `1.0`, and leaves
/// the rest of the state as the sequence left it.
pub proof fn lemma_zoom_reset_after_any(s: AppState, msgs: Seq<Message>)
    ensures
        spec_apply(apply_all(s, msgs), ctrl_zero_message()).0.zoom_tenths
            == ZOOM_DEFAULT_TENTHS,
        spec_apply(apply_all(s, msgs), ctrl_zero_message()).0.display_mode == apply_all(
            s,
            msgs,
        ).display_mode,
        spec_apply(apply_all(s, msgs), ctrl_zero_message()).0.show_exit_dialog == apply_all(
            s,
            msgs,
        ).show_exit_dialog,
        spec_apply(apply_all(s, msgs), ctrl_zero_message()).1 is None,
{
}

} // verus!
