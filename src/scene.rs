use vstd::prelude::*;

use crate::callbacks::ResumeCallback;
use crate::game::GameSetupCallback;
use crate::setup::{checked_dimensions, parse_dimensions, DimensionError};

verus! {

// The interface has two screens: setup, where the grid's dimensions are
// entered, and the running simulation. A valid submission on the setup
// screen starts a simulation; the exit control of the simulation goes back
// to setup. Each change of screen needs the rendering resources to be
// acquired again, which is what the resume flag asks for.

/// What the setup screen reports on a pointer release.
#[derive(Clone, Copy, Debug, PartialEq, Eq, Structural)]
pub enum SetupLeftUp {
    /// Nothing that changes the screen was clicked.
    DoNothing,
    /// The control that submits the dimensions was clicked.
    Go,
}

/// What becomes of the current screen after a pointer release.
#[derive(Clone, Copy, Debug, PartialEq, Eq, Structural)]
pub enum SceneChange {
    /// Keep the current screen as it is.
    Stay,
    /// Keep the setup screen and show this error on it.
    ShowError(DimensionError),
    /// Replace the setup screen by a simulation of this width and height.
    StartGame(u32, u32),
    /// Replace the simulation by a fresh setup screen.
    ReturnToSetup,
}

/// Decides what a pointer release on the setup screen does, given what the
/// screen reported and the texts entered for the width and the height.
/// Returns the change of screen, whether to draw again, and whether to
/// acquire the rendering resources again.
pub fn setup_left_up(signal: SetupLeftUp, sizex: &str, sizey: &str) -> (r: (
    SceneChange,
    bool,
    ResumeCallback,
))
    ensures
        signal == SetupLeftUp::DoNothing ==> r.0 == SceneChange::Stay && !r.1
            && !r.2.spec_resume(),
        signal == SetupLeftUp::Go ==> match checked_dimensions(sizex@, sizey@) {
            Ok((w, h)) => r.0 == SceneChange::StartGame(w, h) && r.1 && r.2.spec_resume(),
            Err(e) => r.0 == SceneChange::ShowError(e) && r.1 && !r.2.spec_resume(),
        },
{
    match signal {
        SetupLeftUp::DoNothing => (SceneChange::Stay, false, ResumeCallback::new(false)),
        SetupLeftUp::Go => match parse_dimensions(sizex, sizey) {
            Ok((width, height)) => (
                SceneChange::StartGame(width, height),
                true,
                ResumeCallback::new(true),
            ),
            Err(e) => (SceneChange::ShowError(e), true, ResumeCallback::new(false)),
        },
    }
}

/// Decides what a pointer release on the running screen does, given what
/// the simulation asked for and whether it changed. Returns the change of
/// screen, whether to draw again, and whether to acquire the rendering
/// resources again.
pub fn game_left_up(callback: GameSetupCallback, redraw: bool) -> (r: (
    SceneChange,
    bool,
    ResumeCallback,
))
    ensures
        callback == GameSetupCallback::Setup ==> r.0 == SceneChange::ReturnToSetup && r.1
            && r.2.spec_resume(),
        callback == GameSetupCallback::Stay ==> r.0 == SceneChange::Stay && r.1 == redraw
            && !r.2.spec_resume(),
{
    match callback {
        GameSetupCallback::Setup => (SceneChange::ReturnToSetup, true, ResumeCallback::new(true)),
        GameSetupCallback::Stay => (SceneChange::Stay, redraw, ResumeCallback::new(false)),
    }
}

} // verus!
