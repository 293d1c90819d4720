//! Live status: a panel that shows the latest snapshot.

use crate::view::{RegistryModel, TUIStatusListener, ViewFault};
use vstd::prelude::*;

verus! {

/// The name under which the live status panel is mounted.
pub const VIEW_MINING: &'static str = "mining";

/// The live status panel. It shows the snapshot that it was handed last, and
/// nothing before the first one.
pub struct TUIMiningView<S> {
    pub shown: Option<S>,
}

impl<S: Copy> TUIMiningView<S> {
    /// The panel before any snapshot.
    pub fn create() -> (panel: Self)
        ensures
            panel.shown is None,
    {
        TUIMiningView { shown: None }
    }

    /// What the panel shows.
    pub fn displayed(&self) -> (shown: Option<S>)
        ensures
            shown == self.shown,
    {
        self.shown
    }
}

impl<S: Copy> TUIStatusListener<S> for TUIMiningView<S> {
    /// The panel shows the snapshot, whatever it showed before.
    open spec fn updated(self, snapshot: S) -> Self {
        TUIMiningView { shown: Some(snapshot) }
    }

    fn update(&mut self, snapshot: &S) -> (r: Result<(), ViewFault>)
        ensures
            r is Ok,
    {
        self.shown = Some(*snapshot);
        Ok(())
    }
}

/// Last write wins for the live status panel: after a dispatch pass, a mounted
/// one shows the last snapshot of the pass.
pub proof fn lemma_mining_shows_last<S: Copy>(
    views: RegistryModel<TUIMiningView<S>>,
    i: int,
    snapshots: Seq<S>,
)
    requires
        0 <= i < views.layers.len(),
        views.layers[i].mounted,
        snapshots.len() > 0,
    ensures
        views.dispatched_all(snapshots).layers[i].view.shown == Some(snapshots.last()),
{
    views.lemma_last_write_wins(i, snapshots);
}

} // verus!
