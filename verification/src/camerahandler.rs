//! The mode switch of the interactive camera: moving freely in first person, or
//! orbiting around a target.

use vstd::prelude::*;

verus! {

/// How mouse and keyboard input moves the camera.
#[allow(non_camel_case_types)]
#[derive(Debug, Copy, Clone, PartialEq, Eq, Structural)]
pub enum CameraState {
    /// The camera moves freely and looks where it goes.
    FIRST,
    /// The camera orbits around its target.
    SPHERICAL,
}

/// Holds the current mode of the interactive camera.
#[derive(Debug)]
pub struct CameraHandler {
    pub state: CameraState,
}

/// The mode that follows another one when cycling through the modes.
pub open spec fn spec_next_state(s: CameraState) -> CameraState {
    match s {
        CameraState::FIRST => CameraState::SPHERICAL,
        CameraState::SPHERICAL => CameraState::FIRST,
    }
}

impl CameraHandler {
    /// A handler in first person mode.
    pub fn create() -> (r: CameraHandler)
        ensures
            r.state == CameraState::FIRST,
    {
        CameraHandler { state: CameraState::FIRST }
    }

    /// Switches to the given mode.
    pub fn set_state(&mut self, state: CameraState)
        ensures
            final(self).state == state,
    {
        self.state = state;
    }

    /// Switches to the other mode.
    pub fn next_state(&mut self)
        ensures
            final(self).state == spec_next_state(old(self).state),
    {
        match self.state {
            CameraState::FIRST => {
                self.set_state(CameraState::SPHERICAL);
            },
            CameraState::SPHERICAL => {
                self.set_state(CameraState::FIRST);
            },
        }
    }
}

/// Switching mode twice returns to the mode one started in, and a switch always
/// changes the mode.
pub proof fn lemma_next_state_twice(s: CameraState)
    ensures
        spec_next_state(spec_next_state(s)) == s,
        spec_next_state(s) != s,
{
}

} // verus!
