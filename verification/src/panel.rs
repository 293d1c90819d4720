//! The panels of the standard dashboard, as one type.

use crate::mining::{TUIMiningView, VIEW_MINING};
use crate::version::{TUIVersionView, VersionInfo, VIEW_VERSION};
use crate::view::{RegistryModel, TUIStatusListener, ViewFault, ViewRegistry};
use vstd::prelude::*;

verus! {

/// Either of the two panels that the dashboard comes with.
pub enum StatusPanel<S> {
    Version(TUIVersionView),
    Mining(TUIMiningView<S>),
}

impl<S: Copy> TUIStatusListener<S> for StatusPanel<S> {
    /// Each panel does with the snapshot what its own kind does.
    open spec fn updated(self, snapshot: S) -> Self {
        match self {
            StatusPanel::Version(v) => StatusPanel::Version(v.updated(snapshot)),
            StatusPanel::Mining(m) => StatusPanel::Mining(m.updated(snapshot)),
        }
    }

    fn update(&mut self, snapshot: &S) -> (r: Result<(), ViewFault>)
        ensures
            r is Ok,
    {
        match self {
            StatusPanel::Version(v) => v.update(snapshot),
            StatusPanel::Mining(m) => m.update(snapshot),
        }
    }
}

/// Last write wins in the standard dashboard: after a dispatch pass, a mounted
/// live status panel shows the last snapshot of the pass, and a version panel
/// is what it was.
pub proof fn lemma_panels_show_last<S: Copy>(
    views: RegistryModel<StatusPanel<S>>,
    i: int,
    snapshots: Seq<S>,
)
    requires
        0 <= i < views.layers.len(),
        views.layers[i].mounted,
        snapshots.len() > 0,
    ensures
        views.layers[i].view is Mining ==> views.dispatched_all(snapshots).layers[i].view
            == StatusPanel::Mining(TUIMiningView { shown: Some(snapshots.last()) }),
        views.layers[i].view is Version ==> views.dispatched_all(snapshots).layers[i].view
            == views.layers[i].view,
    decreases snapshots.len(),
{
    views.lemma_last_write_wins(i, snapshots);
    views.lemma_dispatched_layerwise(snapshots);
    views.lemma_dispatched_layerwise(snapshots.drop_last());
    if snapshots.len() > 1 {
        lemma_panels_show_last(views, i, snapshots.drop_last());
    }
}

/// The stack of the standard dashboard: the version panel below, the live
/// status panel on top of it and visible.
pub open spec fn standard_stack<S>(info: VersionInfo) -> RegistryModel<StatusPanel<S>> {
    RegistryModel::empty().with_layer(
        VIEW_VERSION@,
        StatusPanel::Version(
            TUIVersionView { basic_info: info.basic_info, detailed_info: info.detailed_info },
        ),
    ).with_layer(VIEW_MINING@, StatusPanel::Mining(TUIMiningView { shown: None }))
}

/// Builds the stack of the standard dashboard.
pub fn standard_views<S: Copy>(info: VersionInfo) -> (views: ViewRegistry<StatusPanel<S>>)
    ensures
        views@ == standard_stack::<S>(info),
        views@.well_formed(),
{
    let mut views: ViewRegistry<StatusPanel<S>> = ViewRegistry::new();
    let version = TUIVersionView::create(info);
    let mining: TUIMiningView<S> = TUIMiningView::create();
    proof {
        reveal_strlit("version");
        reveal_strlit("mining");
    }
    assert(!views@.has(VIEW_VERSION@)) by {
        assert forall|i: int| !views@.named(i, VIEW_VERSION@) by {}
    }
    let _ = views.mount(VIEW_VERSION, StatusPanel::Version(version));
    assert(!views@.has(VIEW_MINING@)) by {
        assert forall|i: int| !views@.named(i, VIEW_MINING@) by {
            assert(VIEW_VERSION@.len() != VIEW_MINING@.len());
        }
    }
    let _ = views.mount(VIEW_MINING, StatusPanel::Mining(mining));
    views
}

} // verus!
