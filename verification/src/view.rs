//! Status panels: the capability that makes a type one, and the stack that
//! holds them.

use vstd::prelude::*;
use vstd::string::*;

verus! {

/// A panel could not take an update.
#[derive(Clone, Copy, Debug, PartialEq, Eq, Structural)]
pub enum ViewFault {
    /// The panel refused the new content.
    Rejected,
}

/// A name could not be given to a new layer.
#[derive(Clone, Copy, Debug, PartialEq, Eq, Structural)]
pub enum MountError {
    /// A layer of that name is in the stack already.
    NameTaken,
}

/// What makes a type a status panel: it can be handed a snapshot.
///
/// A panel type also has a `create` function of its own, which makes the panel
/// in its initial state from whatever that type needs. New panels come into a
/// dashboard by implementing this trait and mounting a value in the stack;
/// nothing else changes.
pub trait TUIStatusListener<S: Copy>: Sized {
    /// The panel after it was handed `snapshot`, whether it took it or not.
    /// This is the specification of `update`; it has no run-time meaning and
    /// nothing ever calls it.
    spec fn updated(self, snapshot: S) -> Self;

    /// Refreshes what the panel shows from `snapshot`. An `Err` tells that the
    /// panel is at fault; the caller decides what that means.
    fn update(&mut self, snapshot: &S) -> (r: Result<(), ViewFault>)
        ensures
            *final(self) == old(self).updated(*snapshot),
    ;
}

/// One layer of the stack, mathematically.
pub struct LayerModel<V> {
    /// The stable name under which the panel was registered.
    pub name: Seq<char>,
    /// Whether the panel is on screen. An unmounted panel ignores updates.
    pub mounted: bool,
    /// The panel.
    pub view: V,
}

impl<V> LayerModel<V> {
    /// The layer after `snapshot` went round.
    pub open spec fn refreshed<S: Copy>(self, snapshot: S) -> Self where V: TUIStatusListener<S> {
        if self.mounted {
            LayerModel { view: self.view.updated(snapshot), ..self }
        } else {
            self
        }
    }
}

impl<V> LayerModel<V> {
    /// The layer after each of `snapshots` went round, in order.
    pub open spec fn refreshed_all<S: Copy>(self, snapshots: Seq<S>) -> Self where
        V: TUIStatusListener<S>,
        decreases snapshots.len(),
    {
        if snapshots.len() == 0 {
            self
        } else {
            self.refreshed_all(snapshots.drop_last()).refreshed(snapshots.last())
        }
    }

    /// Updates change what a panel shows, never its name or whether it is
    /// mounted.
    pub proof fn lemma_refreshed_all_keeps_place<S: Copy>(self, snapshots: Seq<S>) where
        V: TUIStatusListener<S>,
        ensures
            self.refreshed_all(snapshots).name == self.name,
            self.refreshed_all(snapshots).mounted == self.mounted,
            !self.mounted ==> self.refreshed_all(snapshots) == self,
        decreases snapshots.len(),
    {
        if snapshots.len() > 0 {
            self.lemma_refreshed_all_keeps_place(snapshots.drop_last());
        }
    }
}

/// The stack of panels, mathematically: the layers from the bottom up, and
/// which of them is visible.
pub struct RegistryModel<V> {
    pub layers: Seq<LayerModel<V>>,
    pub visible: int,
}

impl<V> RegistryModel<V> {
    /// The empty stack.
    pub open spec fn empty() -> Self {
        RegistryModel { layers: Seq::empty(), visible: 0 }
    }

    /// No two layers share a name, and the visible layer exists.
    pub open spec fn well_formed(self) -> bool {
        &&& forall|i: int, j: int|
            0 <= i < j < self.layers.len() ==> self.layers[i].name != self.layers[j].name
        &&& if self.layers.len() == 0 {
            self.visible == 0
        } else {
            0 <= self.visible < self.layers.len()
        }
    }

    /// Whether layer `i` exists and is called `name`.
    pub open spec fn named(self, i: int, name: Seq<char>) -> bool {
        0 <= i < self.layers.len() && self.layers[i].name == name
    }

    /// Whether a layer is called `name`.
    pub open spec fn has(self, name: Seq<char>) -> bool {
        exists|i: int| self.named(i, name)
    }

    /// The stack with one more layer on top, mounted and visible.
    pub open spec fn with_layer(self, name: Seq<char>, view: V) -> Self {
        RegistryModel {
            layers: self.layers.push(LayerModel { name, mounted: true, view }),
            visible: self.layers.len() as int,
        }
    }

    /// The stack with layer `i` mounted or unmounted.
    pub open spec fn with_mounted(self, i: int, mounted: bool) -> Self {
        RegistryModel {
            layers: self.layers.update(i, LayerModel { mounted, ..self.layers[i] }),
            ..self
        }
    }

    /// The stack with layer `i` visible.
    pub open spec fn with_visible(self, i: int) -> Self {
        RegistryModel { visible: i, ..self }
    }

    /// The stack after `snapshot` went round: every mounted panel was handed
    /// it, each on its own account.
    pub open spec fn dispatched<S: Copy>(self, snapshot: S) -> Self where V: TUIStatusListener<S> {
        RegistryModel {
            layers: Seq::new(self.layers.len(), |i: int| self.layers[i].refreshed(snapshot)),
            ..self
        }
    }

    /// The stack after each of `snapshots` went round, in order.
    pub open spec fn dispatched_all<S: Copy>(self, snapshots: Seq<S>) -> Self where
        V: TUIStatusListener<S>,
        decreases snapshots.len(),
    {
        if snapshots.len() == 0 {
            self
        } else {
            self.dispatched_all(snapshots.drop_last()).dispatched(snapshots.last())
        }
    }
}

impl<V> RegistryModel<V> {
    /// Dispatching is done layer by layer: what becomes of a layer is what
    /// the snapshots make of that layer, and the stack keeps its shape.
    pub proof fn lemma_dispatched_layerwise<S: Copy>(self, snapshots: Seq<S>) where
        V: TUIStatusListener<S>,
        ensures
            self.dispatched_all(snapshots).visible == self.visible,
            self.dispatched_all(snapshots).layers.len() == self.layers.len(),
            forall|i: int|
                0 <= i < self.layers.len() ==> #[trigger] self.dispatched_all(snapshots).layers[i]
                    == self.layers[i].refreshed_all(snapshots),
        decreases snapshots.len(),
    {
        if snapshots.len() > 0 {
            self.lemma_dispatched_layerwise(snapshots.drop_last());
        }
    }

    /// Dispatching keeps a well-formed stack well formed.
    pub proof fn lemma_dispatched_well_formed<S: Copy>(self, snapshots: Seq<S>) where
        V: TUIStatusListener<S>,
        requires
            self.well_formed(),
        ensures
            self.dispatched_all(snapshots).well_formed(),
    {
        self.lemma_dispatched_layerwise(snapshots);
        assert forall|i: int| 0 <= i < self.layers.len() implies #[trigger] self.dispatched_all(
            snapshots,
        ).layers[i].name == self.layers[i].name by {
            self.layers[i].lemma_refreshed_all_keeps_place(snapshots);
        }
    }

    /// View isolation: what a dispatch pass makes of a panel depends on that
    /// panel and the snapshots alone. Whatever the other panels of the stack
    /// are and however their updates go, faults included, panel `i` is handed
    /// every snapshot of the pass.
    pub proof fn lemma_view_isolation<S: Copy>(self, other: Self, i: int, snapshots: Seq<S>) where
        V: TUIStatusListener<S>,
        requires
            0 <= i < self.layers.len(),
            i < other.layers.len(),
            self.layers[i] == other.layers[i],
        ensures
            self.dispatched_all(snapshots).layers[i] == self.layers[i].refreshed_all(snapshots),
            self.dispatched_all(snapshots).layers[i] == other.dispatched_all(snapshots).layers[i],
    {
        self.lemma_dispatched_layerwise(snapshots);
        other.lemma_dispatched_layerwise(snapshots);
    }

    /// Last write wins: after a dispatch pass, a mounted panel is what the
    /// update with the last snapshot of the pass made of it. No earlier
    /// snapshot had the last word.
    pub proof fn lemma_last_write_wins<S: Copy>(self, i: int, snapshots: Seq<S>) where
        V: TUIStatusListener<S>,
        requires
            0 <= i < self.layers.len(),
            self.layers[i].mounted,
            snapshots.len() > 0,
        ensures
            self.dispatched_all(snapshots).layers[i].view == self.dispatched_all(
                snapshots.drop_last(),
            ).layers[i].view.updated(snapshots.last()),
    {
        self.lemma_dispatched_layerwise(snapshots);
        self.lemma_dispatched_layerwise(snapshots.drop_last());
        self.layers[i].lemma_refreshed_all_keeps_place(snapshots.drop_last());
    }
}

/// An ordered collection of named status panels, composed into a stack of
/// which one layer is visible at a time.
pub struct ViewRegistry<V> {
    names: Vec<String>,
    mounted: Vec<bool>,
    views: Vec<V>,
    visible: usize,
}

impl<V> View for ViewRegistry<V> {
    type V = RegistryModel<V>;

    closed spec fn view(&self) -> RegistryModel<V> {
        RegistryModel {
            layers: Seq::new(
                self.views@.len(),
                |i: int|
                    LayerModel {
                        name: self.names@[i]@,
                        mounted: self.mounted@[i],
                        view: self.views@[i],
                    },
            ),
            visible: self.visible as int,
        }
    }
}

impl<V> ViewRegistry<V> {
    #[verifier::type_invariant]
    spec fn inv(self) -> bool {
        &&& self.names@.len() == self.views@.len()
        &&& self.mounted@.len() == self.views@.len()
        &&& forall|i: int, j: int|
            0 <= i < j < self.names@.len() ==> self.names@[i]@ != self.names@[j]@
        &&& if self.views@.len() == 0 {
            self.visible == 0
        } else {
            self.visible < self.views@.len()
        }
    }

    /// The empty stack.
    pub fn new() -> (r: Self)
        ensures
            r@ == RegistryModel::<V>::empty(),
            r@.well_formed(),
    {
        let r = ViewRegistry {
            names: Vec::new(),
            mounted: Vec::new(),
            views: Vec::new(),
            visible: 0,
        };
        assert(r@.layers =~= Seq::empty());
        r
    }

    /// The number of layers.
    pub fn len(&self) -> (n: usize)
        ensures
            n == self@.layers.len(),
    {
        self.views.len()
    }

    /// The position of the layer called `name`, counted from the bottom.
    pub fn find(&self, name: &str) -> (r: Option<usize>)
        ensures
            self@.well_formed(),
            match r {
                Some(i) => self@.named(i as int, name@),
                None => !self@.has(name@),
            },
    {
        proof {
            use_type_invariant(self);
        }
        let key = String::from_str(name);
        let n = self.names.len();
        let mut i: usize = 0;
        while i < n
            invariant
                n == self.names@.len(),
                n == self.views@.len(),
                i <= n,
                key@ == name@,
                self@.well_formed(),
                forall|k: int| 0 <= k < i ==> !self@.named(k, name@),
            decreases n - i,
        {
            if self.names[i] == key {
                return Some(i);
            }
            i += 1;
        }
        None
    }

    /// Puts `view` on top of the stack under `name`, mounted and visible. A
    /// name that is taken is refused and the stack stays as it is.
    pub fn mount(&mut self, name: &str, view: V) -> (r: Result<(), MountError>)
        ensures
            final(self)@.well_formed(),
            old(self)@.has(name@) ==> {
                &&& r == Err::<(), MountError>(MountError::NameTaken)
                &&& final(self)@ == old(self)@
            },
            !old(self)@.has(name@) ==> {
                &&& r == Ok::<(), MountError>(())
                &&& final(self)@ == old(self)@.with_layer(name@, view)
            },
    {
        proof {
            use_type_invariant(&*self);
        }
        match self.find(name) {
            Some(_) => {
                Err(MountError::NameTaken)
            },
            None => {
                let n = self.views.len();
                assert forall|i: int| 0 <= i < n implies self.names@[i]@ != name@ by {
                    assert(!self@.named(i, name@));
                }
                let mut taken = ViewRegistry::new();
                core::mem::swap(self, &mut taken);
                let ViewRegistry { mut names, mut mounted, mut views, visible: _ } = taken;
                names.push(String::from_str(name));
                mounted.push(true);
                views.push(view);
                *self = ViewRegistry { names, mounted, views, visible: n };
                assert(self@.layers =~= old(self)@.with_layer(name@, view).layers);
                Ok(())
            },
        }
    }

    /// The panel called `name`.
    pub fn panel(&self, name: &str) -> (r: Option<&V>)
        ensures
            match r {
                Some(v) => exists|i: int| self@.named(i, name@) && self@.layers[i].view == *v,
                None => !self@.has(name@),
            },
    {
        proof {
            use_type_invariant(self);
        }
        match self.find(name) {
            Some(i) => Some(&self.views[i]),
            None => None,
        }
    }

    /// The panel of layer `i`, counted from the bottom.
    pub fn get(&self, i: usize) -> (r: Option<&V>)
        ensures
            r == if i < self@.layers.len() {
                Some(&self@.layers[i as int].view)
            } else {
                None
            },
    {
        if i < self.views.len() {
            Some(&self.views[i])
        } else {
            None
        }
    }

    /// The name of layer `i`, counted from the bottom.
    pub fn name_at(&self, i: usize) -> (r: Option<&String>)
        ensures
            i < self@.layers.len() ==> r is Some && r->0@ == self@.layers[i as int].name,
            i >= self@.layers.len() ==> r is None,
    {
        proof {
            use_type_invariant(self);
        }
        if i < self.names.len() {
            Some(&self.names[i])
        } else {
            None
        }
    }

    /// Whether layer `i` is mounted; `None` where there is no such layer.
    pub fn mounted_at(&self, i: usize) -> (r: Option<bool>)
        ensures
            r == if i < self@.layers.len() {
                Some(self@.layers[i as int].mounted)
            } else {
                None
            },
    {
        proof {
            use_type_invariant(self);
        }
        if i < self.mounted.len() {
            Some(self.mounted[i])
        } else {
            None
        }
    }

    /// The position of the visible layer; `None` in an empty stack.
    pub fn visible(&self) -> (r: Option<usize>)
        ensures
            self@.well_formed(),
            r == if self@.layers.len() == 0 {
                None
            } else {
                Some(self@.visible as usize)
            },
    {
        proof {
            use_type_invariant(self);
        }
        if self.views.len() == 0 {
            None
        } else {
            Some(self.visible)
        }
    }

    /// Mounts or unmounts the panel called `name`, and tells whether there is
    /// one.
    pub fn set_mounted(&mut self, name: &str, mounted: bool) -> (found: bool)
        ensures
            final(self)@.well_formed(),
            found == old(self)@.has(name@),
            found ==> exists|i: int|
                old(self)@.named(i, name@) && final(self)@ == old(self)@.with_mounted(i, mounted),
            !found ==> final(self)@ == old(self)@,
    {
        proof {
            use_type_invariant(&*self);
        }
        match self.find(name) {
            Some(i) => {
                self.mounted[i] = mounted;
                assert(self@.layers =~= old(self)@.with_mounted(i as int, mounted).layers);
                true
            },
            None => false,
        }
    }

    /// Makes the layer called `name` the visible one, and tells whether there
    /// is one.
    pub fn select(&mut self, name: &str) -> (found: bool)
        ensures
            final(self)@.well_formed(),
            found == old(self)@.has(name@),
            found ==> exists|i: int|
                old(self)@.named(i, name@) && final(self)@ == old(self)@.with_visible(i),
            !found ==> final(self)@ == old(self)@,
    {
        proof {
            use_type_invariant(&*self);
        }
        match self.find(name) {
            Some(i) => {
                self.visible = i;
                assert(self@.layers =~= old(self)@.layers);
                assert(old(self)@.named(i as int, name@));
                assert(self@ == old(self)@.with_visible(i as int));
                true
            },
            None => false,
        }
    }

    /// Dispatches `snapshot`: every mounted panel is handed it. A panel at
    /// fault does not keep the others from their turn.
    pub fn update_all<S: Copy>(&mut self, snapshot: &S) where V: TUIStatusListener<S>
        ensures
            final(self)@.well_formed(),
            final(self)@ == old(self)@.dispatched(*snapshot),
    {
        proof {
            use_type_invariant(&*self);
        }
        let n = self.views.len();
        let mut i: usize = 0;
        while i < n
            invariant
                n == self.views@.len(),
                n == self.mounted@.len(),
                self.names == old(self).names,
                self.mounted == old(self).mounted,
                self.visible == old(self).visible,
                old(self).views@.len() == n,
                i <= n,
                forall|k: int|
                    0 <= k < i ==> self.views@[k] == (if self.mounted@[k] {
                        old(self).views@[k].updated(*snapshot)
                    } else {
                        old(self).views@[k]
                    }),
                forall|k: int| i <= k < n ==> self.views@[k] == old(self).views@[k],
            decreases n - i,
        {
            proof {
                use_type_invariant(&*self);
            }
            if self.mounted[i] {
                let _ = self.views[i].update(snapshot);
            }
            i += 1;
        }
        assert(self@.layers =~= old(self)@.dispatched(*snapshot).layers);
    }
}

} // verus!
