//! The application state record and its elementary mutations.
//!
//! The zoom factor is held in tenths of the display scale, so that the step
//! of one tenth is exact: a stored value of `10` means a scale of `1.0`, the
//! floor of `1` means the minimal scale of `0.1`. The layer that talks to the
//! rendering toolkit divides by ten when it hands the scale out.

use vstd::prelude::*;

verus! {

/// The zoom step, in tenths of the display scale (one tenth, i.e. `0.1`).
/// It is also the floor below which the zoom factor never drops.
pub const ZOOM_STEP_TENTHS: u32 = 1;

/// The initial zoom factor, in tenths of the display scale (`1.0`).
pub const ZOOM_DEFAULT_TENTHS: u32 = 10;

/// One of the two mutually exclusive display themes.
#[derive(Clone, Copy, Debug, PartialEq, Eq, Structural)]
pub enum Theme {
    Dark,
    Light,
}

/// The single mutable application state record.
///
/// `display_mode` is `Some(true)` for the dark theme and `Some(false)` for
/// the light one; `None` is an invalid value that the transitions never
/// produce and that theme resolution refuses to read.
#[derive(Clone, Copy, Debug, PartialEq, Eq, Structural)]
pub struct AppState {
    pub display_mode: Option<bool>,
    pub zoom_tenths: u32,
    pub show_exit_dialog: bool,
}

impl AppState {
    /// The state every run starts from: dark theme, scale `1.0`, no pending
    /// exit confirmation.
    pub open spec fn initial() -> AppState {
        AppState {
            display_mode: Some(true),
            zoom_tenths: ZOOM_DEFAULT_TENTHS,
            show_exit_dialog: false,
        }
    }

    /// What every reachable state satisfies: the zoom factor is at least the
    /// step, and the display mode is set.
    pub open spec fn well_formed(self) -> bool {
        &&& self.zoom_tenths >= ZOOM_STEP_TENTHS
        &&& self.display_mode is Some
    }

    /// The theme that a state renders with, defined whenever the display
    /// mode is set.
    pub open spec fn spec_theme(self) -> Theme {
        if self.display_mode == Some(true) {
            Theme::Dark
        } else {
            Theme::Light
        }
    }

    /// Resolves the display mode to a theme. An unset mode is a logic defect
    /// and is excluded outright rather than rendered with an undefined theme.
    pub fn theme(&self) -> (t: Theme)
        requires
            self.display_mode is Some,
        ensures
            t == self.spec_theme(),
    {
        match self.display_mode {
            Some(true) => Theme::Dark,
            Some(false) => Theme::Light,
            None => unreached(),
        }
    }

    /// Raises the zoom factor by one step, saturating at the largest
    /// representable value.
    pub fn zoom_in(&mut self)
        ensures
            final(self).zoom_tenths == spec_zoom_in(old(self).zoom_tenths),
            final(self).display_mode == old(self).display_mode,
            final(self).show_exit_dialog == old(self).show_exit_dialog,
    {
        if self.zoom_tenths < u32::MAX {
            self.zoom_tenths = self.zoom_tenths + 1;
        }
    }

    /// Lowers the zoom factor by one step, clamped at the floor so that the
    /// scale never becomes zero or negative.
    pub fn zoom_out(&mut self)
        ensures
            final(self).zoom_tenths == spec_zoom_out(old(self).zoom_tenths),
            final(self).display_mode == old(self).display_mode,
            final(self).show_exit_dialog == old(self).show_exit_dialog,
    {
        if self.zoom_tenths > ZOOM_STEP_TENTHS {
            self.zoom_tenths = self.zoom_tenths - 1;
        } else {
            self.zoom_tenths = ZOOM_STEP_TENTHS;
        }
    }

    /// Resets the zoom factor to exactly `1.0`.
    pub fn zoom_reset(&mut self)
        ensures
            final(self).zoom_tenths == ZOOM_DEFAULT_TENTHS,
            final(self).display_mode == old(self).display_mode,
            final(self).show_exit_dialog == old(self).show_exit_dialog,
    {
        self.zoom_tenths = ZOOM_DEFAULT_TENTHS;
    }
}

/// The zoom factor one step above `z`, saturating at the largest
/// representable value.
pub open spec fn spec_zoom_in(z: u32) -> u32 {
    if z < u32::MAX {
        (z + 1) as u32
    } else {
        z
    }
}

/// The zoom factor one step below `z`, clamped at the floor.
pub open spec fn spec_zoom_out(z: u32) -> u32 {
    if z > ZOOM_STEP_TENTHS {
        (z - 1) as u32
    } else {
        ZOOM_STEP_TENTHS
    }
}

impl Default for AppState {
    /// The defaults every run starts from.
    fn default() -> (s: Self)
        ensures
            s == AppState::initial(),
            s.well_formed(),
    {
        AppState {
            display_mode: Some(true),
            zoom_tenths: ZOOM_DEFAULT_TENTHS,
            show_exit_dialog: false,
        }
    }
}

} // verus!
