//! The state of an application.

use vstd::prelude::*;

verus! {

/// The state of an application.
#[derive(Clone, Copy, Debug, PartialEq, Eq, Structural)]
pub enum AppState {
    Running,
    Terminated,
    Error,
}

/// Told of the state of an application.
pub trait AppStateObserver {
    fn on_update(&self, state: AppState);
}

} // verus!
