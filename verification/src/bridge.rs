use vstd::prelude::*;
use crate::observer::Observer;
use crate::state_cell::CellView;
use crate::state_cell::StateCell;
use crate::state_cell::Subscription;

verus! {

/// The host's reference to one mounted component and its state cell.
///
/// A handle is a place in the bridge's table, so a copy of it is an alias of the same
/// cell, never a copy of the value.
#[derive(Clone, Copy, Debug, PartialEq, Eq)]
pub struct Handle {
    slot: usize,
}

impl Handle {
    /// The place in the bridge's table that this handle stands for.
    pub closed spec fn slot(self) -> int {
        self.slot as int
    }

    /// Two handles are the same handle exactly where they stand for the same place.
    pub proof fn lemma_slot_decides(one: Handle, other: Handle)
        ensures
            one == other <==> one.slot() == other.slot(),
    {
    }
}

/// The abstract content of one mounted component.
pub ghost struct MountView<V, M, O> {
    /// The host's location into which the component was mounted.
    pub mount_point: M,
    /// The state cell that the component owns.
    pub cell: CellView<V, O>,
    /// What the presentation function made of the cell's value.
    pub rendering: String,
}

/// The abstract content of a bridge.
pub ghost struct BridgeView<V, M, P, O> {
    /// The presentation function of the bridge's components.
    pub present: P,
    /// One place for each `attach` ever made, in their order, holding the component
    /// until it is detached.
    pub mounts: Seq<Option<MountView<V, M, O>>>,
}

impl<V, M, P: Fn(&V) -> String, O: Observer<V>> BridgeView<V, M, P, O> {
    /// The presentation function accepts every value, and every component shows what
    /// the presentation function makes of its current value.
    pub open spec fn wf(self) -> bool {
        &&& forall|v: V| call_requires(self.present, (&v,))
        &&& forall|i: int|
            0 <= i < self.mounts.len() && (#[trigger] self.mounts[i]) is Some ==> call_ensures(
                self.present,
                (&self.mounts[i]->Some_0.cell.value,),
                self.mounts[i]->Some_0.rendering,
            )
    }

    /// `handle` names a place of this bridge's table at which a component is mounted.
    /// A handle carries no mark of the bridge that made it: one of another bridge that
    /// names such a place passes for a handle of this one.
    pub open spec fn is_live(self, handle: Handle) -> bool {
        &&& 0 <= handle.slot() < self.mounts.len()
        &&& self.mounts[handle.slot()] is Some
    }

    /// The component that `handle` stands for.
    pub open spec fn mount(self, handle: Handle) -> MountView<V, M, O> {
        self.mounts[handle.slot()]->Some_0
    }

    /// The current value of the cell behind `handle`.
    pub open spec fn value(self, handle: Handle) -> V {
        self.mount(handle).cell.value
    }

    /// Every place of the table but the one of `handle` is in `next` what it is in
    /// `self`.
    pub open spec fn same_elsewhere(self, next: Self, handle: Handle) -> bool {
        &&& next.present == self.present
        &&& next.mounts.len() == self.mounts.len()
        &&& forall|i: int|
            0 <= i < self.mounts.len() && i != handle.slot() ==> next.mounts[i] == self.mounts[i]
    }

    /// The component behind `handle` is live in `next` and mounted where it is in
    /// `self`.
    pub open spec fn same_mount(self, next: Self, handle: Handle) -> bool {
        &&& self.same_elsewhere(next, handle)
        &&& next.is_live(handle)
        &&& next.mount(handle).mount_point == self.mount(handle).mount_point
    }

    /// `next` is `self` after a component was attached at `mount_point` with the value
    /// `initial`: `handle` stands for it, it has a cell of its own with no observer,
    /// and it shows what the presentation function makes of `initial`. Every earlier
    /// component is what it was, its observers with their records too.
    pub open spec fn attached(self, next: Self, handle: Handle, mount_point: M, initial: V) -> bool {
        &&& next.present == self.present
        &&& handle.slot() == self.mounts.len()
        &&& next.mounts.len() == self.mounts.len() + 1
        &&& next.mounts.take(self.mounts.len() as int) == self.mounts
        &&& next.is_live(handle)
        &&& next.mount(handle).mount_point == mount_point
        &&& next.mount(handle).cell.value == initial
        &&& next.mount(handle).cell.observers == Seq::<Option<O>>::empty()
        &&& call_ensures(self.present, (&initial,), next.mount(handle).rendering)
    }

    /// `next` is `self` after the cell behind `handle` was set to `v`: the value was
    /// replaced, the presentation function ran on it, and every observer of that cell
    /// was notified once, of `v`, `outcomes` holding what each of them answered. No
    /// observer of another component was notified.
    pub open spec fn updated(
        self,
        next: Self,
        handle: Handle,
        v: V,
        outcomes: Seq<Option<Result<(), String>>>,
    ) -> bool {
        &&& self.same_mount(next, handle)
        &&& call_ensures(self.present, (&v,), next.mount(handle).rendering)
        &&& self.mount(handle).cell.set_to(next.mount(handle).cell, v, outcomes)
    }

    /// `next` is `self` after `observer` was subscribed to the cell behind `handle`
    /// as `subscription`: nobody was notified, and nothing else has changed.
    pub open spec fn subscribed(
        self,
        next: Self,
        handle: Handle,
        observer: O,
        subscription: Subscription,
    ) -> bool {
        &&& self.same_mount(next, handle)
        &&& next.mount(handle).rendering == self.mount(handle).rendering
        &&& self.mount(handle).cell.tracked_by(next.mount(handle).cell, observer, subscription)
    }

    /// `next` is `self` after `subscription` was given back to the cell behind
    /// `handle`.
    pub open spec fn unsubscribed(self, next: Self, handle: Handle, subscription: Subscription) -> bool {
        &&& self.same_mount(next, handle)
        &&& next.mount(handle).rendering == self.mount(handle).rendering
        &&& self.mount(handle).cell.without(next.mount(handle).cell, subscription)
    }

    /// `next` is `self` after the component behind `handle` was detached: its place
    /// is empty, so that the handle is no longer live.
    pub open spec fn detached(self, next: Self, handle: Handle) -> bool {
        &&& self.same_elsewhere(next, handle)
        &&& next.mounts[handle.slot()] is None
    }

    /// A well formed bridge stays so where every component of `next` either is one of
    /// `self`, at the same place, or shows its cell's value.
    proof fn lemma_stays_wf(self, next: Self)
        requires
            self.wf(),
            next.present == self.present,
            forall|i: int|
                0 <= i < next.mounts.len() && (#[trigger] next.mounts[i]) is Some ==> {
                    ||| i < self.mounts.len() && next.mounts[i] == self.mounts[i]
                    ||| call_ensures(
                        next.present,
                        (&next.mounts[i]->Some_0.cell.value,),
                        next.mounts[i]->Some_0.rendering,
                    )
                },
        ensures
            next.wf(),
    {
        assert forall|i: int| 0 <= i < next.mounts.len() && (#[trigger] next.mounts[i]) is Some implies call_ensures(
            next.present,
            (&next.mounts[i]->Some_0.cell.value,),
            next.mounts[i]->Some_0.rendering,
        ) by {
            if i < self.mounts.len() && next.mounts[i] == self.mounts[i] {
                assert(self.mounts[i] is Some);
            }
        }
    }
}

struct Mount<V, M, O> {
    mount_point: M,
    cell: StateCell<V, O>,
    rendering: String,
}

impl<V, M, O: Observer<V>> Mount<V, M, O> {
    spec fn view(&self) -> MountView<V, M, O> {
        MountView { mount_point: self.mount_point, cell: self.cell@, rendering: self.rendering }
    }
}

spec fn slot_view<V, M, O: Observer<V>>(slot: Option<Mount<V, M, O>>) -> Option<
    MountView<V, M, O>,
> {
    match slot {
        Some(mount) => Some(mount@),
        None => None,
    }
}

/// The table of the mounted components of one kind, with the presentation function
/// that renders each of them.
pub struct Bridge<V, M, P, O> {
    present: P,
    mounts: Vec<Option<Mount<V, M, O>>>,
}

impl<V, M, P: Fn(&V) -> String, O: Observer<V>> Bridge<V, M, P, O> {
    pub closed spec fn view(&self) -> BridgeView<V, M, P, O> {
        BridgeView {
            present: self.present,
            mounts: Seq::new(self.mounts@.len(), |i: int| slot_view(self.mounts@[i])),
        }
    }

    /// A bridge with nothing mounted, whose components are rendered by `present`.
    pub fn new(present: P) -> (bridge: Self)
        requires
            forall|v: V| call_requires(present, (&v,)),
        ensures
            bridge@.wf(),
            bridge@.present == present,
            bridge@.mounts == Seq::<Option<MountView<V, M, O>>>::empty(),
    {
        let bridge = Bridge { present, mounts: Vec::new() };
        assert(bridge@.mounts =~= Seq::empty());
        bridge
    }

    /// Whether `handle` stands for a component of this bridge that is still mounted.
    pub fn is_attached(&self, handle: Handle) -> (live: bool)
        ensures
            live == self@.is_live(handle),
    {
        handle.slot < self.mounts.len() && self.mounts[handle.slot].is_some()
    }

    /// Creates a state cell that holds `initial`, renders it, records the component as
    /// mounted at `mount_point` and returns the handle that stands for it.
    pub fn attach(&mut self, mount_point: M, initial: V) -> (handle: Handle)
        requires
            old(self)@.wf(),
        ensures
            final(self)@.wf(),
            old(self)@.attached(final(self)@, handle, mount_point, initial),
    {
        assert(call_requires(self@.present, (&initial,)));
        let rendering = (self.present)(&initial);
        let cell = StateCell::create(initial);
        let handle = Handle { slot: self.mounts.len() };
        self.mounts.push(Some(Mount { mount_point, cell, rendering }));
        proof {
            assert(self@.mounts.take(old(self)@.mounts.len() as int) =~= old(self)@.mounts);
            old(self)@.lemma_stays_wf(self@);
        }
        handle
    }

    /// The current value of the cell behind `handle`. No observer is registered and
    /// none is notified.
    pub fn read(&self, handle: Handle) -> (value: &V)
        requires
            self@.is_live(handle),
        ensures
            *value == self@.value(handle),
    {
        match &self.mounts[handle.slot] {
            Some(mount) => mount.cell.get_untracked(),
            None => vstd::pervasive::unreached(),
        }
    }

    /// What the component behind `handle` shows.
    pub fn rendering(&self, handle: Handle) -> (shown: &str)
        requires
            self@.is_live(handle),
        ensures
            shown@ == self@.mount(handle).rendering@,
    {
        match &self.mounts[handle.slot] {
            Some(mount) => mount.rendering.as_str(),
            None => vstd::pervasive::unreached(),
        }
    }

    /// The location into which the component behind `handle` was mounted.
    pub fn mount_point(&self, handle: Handle) -> (place: &M)
        requires
            self@.is_live(handle),
        ensures
            *place == self@.mount(handle).mount_point,
    {
        match &self.mounts[handle.slot] {
            Some(mount) => &mount.mount_point,
            None => vstd::pervasive::unreached(),
        }
    }

    /// Replaces the value of the cell behind `handle` by `v`, whether or not it differs
    /// from the current one, renders the component again and then notifies every
    /// observer of that cell once, showing it `v`. An observer that fails stops
    /// nothing: what each of them answered is returned, place by place.
    pub fn update(&mut self, handle: Handle, v: V) -> (outcomes: Vec<Option<Result<(), String>>>)
        requires
            old(self)@.wf(),
            old(self)@.is_live(handle),
        ensures
            final(self)@.wf(),
            old(self)@.updated(final(self)@, handle, v, outcomes@),
    {
        assert(call_requires(self@.present, (&v,)));
        let rendering = (self.present)(&v);
        let outcomes = match &mut self.mounts[handle.slot] {
            Some(mount) => {
                mount.rendering = rendering;
                mount.cell.set(v)
            },
            None => vstd::pervasive::unreached(),
        };
        proof {
            old(self)@.lemma_stays_wf(self@);
        }
        outcomes
    }

    /// Makes an update that had to wait: where the component behind `handle` is still
    /// mounted its cell is updated with `v` as by `update`; where it was detached
    /// meanwhile nothing is changed and nobody is notified.
    pub fn serve(&mut self, handle: Handle, v: V) -> (served: Option<Vec<Option<Result<(), String>>>>)
        requires
            old(self)@.wf(),
        ensures
            final(self)@.wf(),
            match served {
                Some(outcomes) => old(self)@.is_live(handle) && old(self)@.updated(
                    final(self)@,
                    handle,
                    v,
                    outcomes@,
                ),
                None => !old(self)@.is_live(handle) && final(self)@ == old(self)@,
            },
    {
        if self.is_attached(handle) {
            Some(self.update(handle, v))
        } else {
            None
        }
    }

    /// Registers `observer` with the cell behind `handle` and returns the subscription
    /// with which it can be taken out again. Nobody is notified now: only later updates
    /// notify the observer.
    pub fn subscribe(&mut self, handle: Handle, observer: O) -> (subscription: Subscription)
        requires
            old(self)@.wf(),
            old(self)@.is_live(handle),
        ensures
            final(self)@.wf(),
            old(self)@.subscribed(final(self)@, handle, observer, subscription),
    {
        let subscription = match &mut self.mounts[handle.slot] {
            Some(mount) => mount.cell.get_tracked(observer).0,
            None => vstd::pervasive::unreached(),
        };
        proof {
            old(self)@.lemma_stays_wf(self@);
        }
        subscription
    }

    /// Takes the observer of `subscription` out of the observers of the cell behind
    /// `handle`, so that no later update notifies it, and says whether it was still
    /// there.
    pub fn unsubscribe(&mut self, handle: Handle, subscription: Subscription) -> (removed: bool)
        requires
            old(self)@.wf(),
            old(self)@.is_live(handle),
        ensures
            final(self)@.wf(),
            removed == old(self)@.mount(handle).cell.is_subscribed(subscription),
            old(self)@.unsubscribed(final(self)@, handle, subscription),
    {
        let removed = match &mut self.mounts[handle.slot] {
            Some(mount) => mount.cell.unsubscribe(subscription),
            None => vstd::pervasive::unreached(),
        };
        proof {
            old(self)@.lemma_stays_wf(self@);
        }
        removed
    }

    /// Tears the component behind `handle` down: its cell is released with all its
    /// observers, and the handle and its copies are no longer live.
    pub fn detach(&mut self, handle: Handle)
        requires
            old(self)@.wf(),
            old(self)@.is_live(handle),
        ensures
            final(self)@.wf(),
            old(self)@.detached(final(self)@, handle),
    {
        self.mounts[handle.slot] = None;
        proof {
            old(self)@.lemma_stays_wf(self@);
        }
    }
}

} // verus!
