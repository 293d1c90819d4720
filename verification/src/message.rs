//! The two message vocabularies of the dashboard.

use vstd::prelude::*;

verus! {

/// What the controller tells the UI.
#[derive(Debug)]
pub enum UIMessage<S> {
    /// A fresh snapshot of the monitored status, passed by value.
    UpdateStatus(S),
}

/// What the UI tells the controller.
#[derive(Clone, Copy, Debug, PartialEq, Eq, Structural)]
pub enum ControllerMessage {
    /// The user asked to quit.
    Shutdown,
}

impl<S: Copy> UIMessage<S> {
    /// The snapshot that the message carries.
    pub open spec fn snapshot(self) -> S {
        match self {
            UIMessage::UpdateStatus(s) => s,
        }
    }
}

} // verus!
