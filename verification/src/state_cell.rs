use vstd::prelude::*;
use crate::observer::Observer;

verus! {

/// The disposer of one subscription: what `get_tracked` hands out and `unsubscribe`
/// takes back.
#[derive(Clone, Copy, Debug, PartialEq, Eq)]
pub struct Subscription {
    slot: usize,
}

impl Subscription {
    /// The place in the cell's observer list that this subscription has.
    pub closed spec fn slot(self) -> int {
        self.slot as int
    }

    /// Two subscriptions are the same exactly where they have the same place.
    pub proof fn lemma_slot_decides(one: Subscription, other: Subscription)
        ensures
            one == other <==> one.slot() == other.slot(),
    {
    }
}

/// The abstract content of a state cell.
pub ghost struct CellView<V, O> {
    /// The one authoritative current value.
    pub value: V,
    /// The observer list: one place for each subscription ever made, in the order in
    /// which they were made, holding the observer until it is unsubscribed.
    pub observers: Seq<Option<O>>,
}

/// What one `set` to `v` does at one place of the observer list: an observer that is
/// there is notified once, of `v`, and `outcome` is what it answered, failed or not;
/// an empty place is passed over.
pub open spec fn notified_at<V, O: Observer<V>>(
    before: Option<O>,
    after: Option<O>,
    v: V,
    outcome: Option<Result<(), String>>,
) -> bool {
    match before {
        Some(observer) => {
            &&& outcome is Some
            &&& after is Some
            &&& after->Some_0.history() == observer.history().push((v, outcome->Some_0))
        },
        None => outcome is None && after is None,
    }
}

impl<V, O: Observer<V>> CellView<V, O> {
    /// `subscription` stands for an observer that is still in the observer list.
    pub open spec fn is_subscribed(self, subscription: Subscription) -> bool {
        &&& 0 <= subscription.slot() < self.observers.len()
        &&& self.observers[subscription.slot()] is Some
    }

    /// The observer that `subscription` stands for.
    pub open spec fn observer(self, subscription: Subscription) -> O {
        self.observers[subscription.slot()]->Some_0
    }

    /// `next` is `self` after `observer` was registered: it has the new last place of
    /// the list as `subscription`, and neither it nor any other observer was notified.
    pub open spec fn tracked_by(self, next: Self, observer: O, subscription: Subscription) -> bool {
        &&& next.value == self.value
        &&& subscription.slot() == self.observers.len()
        &&& next.observers == self.observers.push(Some(observer))
    }

    /// `next` is `self` after a `set` to `v`: the value is `v`, and every observer
    /// of the list was notified once, of `v`, `outcomes` holding what each answered.
    pub open spec fn set_to(self, next: Self, v: V, outcomes: Seq<Option<Result<(), String>>>) -> bool {
        &&& next.value == v
        &&& next.observers.len() == self.observers.len()
        &&& outcomes.len() == self.observers.len()
        &&& forall|k: int|
            0 <= k < self.observers.len() ==> notified_at(
                self.observers[k],
                next.observers[k],
                v,
                #[trigger] outcomes[k],
            )
    }

    /// `next` is `self` after `subscription` was given back: its place is empty, and
    /// nothing else has changed.
    pub open spec fn without(self, next: Self, subscription: Subscription) -> bool {
        &&& next.value == self.value
        &&& next.observers == if 0 <= subscription.slot() < self.observers.len() {
            self.observers.update(subscription.slot(), None)
        } else {
            self.observers
        }
    }
}

/// A single mutable value with the list of the observers of its changes.
pub struct StateCell<V, O> {
    value: V,
    observers: Vec<Option<O>>,
}

impl<V, O: Observer<V>> StateCell<V, O> {
    pub closed spec fn view(&self) -> CellView<V, O> {
        CellView { value: self.value, observers: self.observers@ }
    }

    /// A cell that holds `initial` and has no observer.
    pub fn create(initial: V) -> (cell: Self)
        ensures
            cell@.value == initial,
            cell@.observers == Seq::<Option<O>>::empty(),
    {
        StateCell { value: initial, observers: Vec::new() }
    }

    /// The current value. Nobody is registered and nobody is notified.
    pub fn get_untracked(&self) -> (value: &V)
        ensures
            *value == self@.value,
    {
        &self.value
    }

    /// The current value, for `observer`, which is registered for the changes to come.
    /// Nobody is notified, `observer` neither.
    pub fn get_tracked(&mut self, observer: O) -> (registered: (Subscription, &V))
        ensures
            old(self)@.tracked_by(final(self)@, observer, registered.0),
            *registered.1 == old(self)@.value,
    {
        let subscription = Subscription { slot: self.observers.len() };
        self.observers.push(Some(observer));
        (subscription, &self.value)
    }

    /// Replaces the value by `v`, whether or not it differs from the current one, and
    /// then notifies every observer of the list once, before it returns. An observer
    /// that fails stops nothing: what each of them answered is returned, place by
    /// place.
    ///
    /// The value is installed first, and each observer is shown it: an observer that
    /// reads the value during its notification reads `v`. The cell is borrowed while
    /// it notifies, so a `set` that an observer asks for from within its notification
    /// is made when the notification has ended.
    pub fn set(&mut self, v: V) -> (outcomes: Vec<Option<Result<(), String>>>)
        ensures
            old(self)@.set_to(final(self)@, v, outcomes@),
    {
        self.value = v;
        let mut outcomes: Vec<Option<Result<(), String>>> = Vec::new();
        let mut i: usize = 0;
        while i < self.observers.len()
            invariant
                i <= self.observers@.len(),
                outcomes@.len() == i,
                self.value == v,
                self.observers@.len() == old(self).observers@.len(),
                forall|k: int|
                    0 <= k < i ==> notified_at(
                        old(self).observers@[k],
                        self.observers@[k],
                        v,
                        #[trigger] outcomes@[k],
                    ),
                forall|k: int|
                    i <= k < self.observers@.len() ==> self.observers@[k] == old(self).observers@[k],
            decreases self.observers@.len() - i,
        {
            let outcome = match &mut self.observers[i] {
                Some(observer) => Some(observer.notify(&self.value)),
                None => None,
            };
            outcomes.push(outcome);
            i += 1;
        }
        outcomes
    }

    /// Takes the observer of `subscription` out of the observer list, so that no later
    /// `set` notifies it, and says whether it was still there.
    pub fn unsubscribe(&mut self, subscription: Subscription) -> (removed: bool)
        ensures
            removed == old(self)@.is_subscribed(subscription),
            old(self)@.without(final(self)@, subscription),
    {
        if subscription.slot < self.observers.len() {
            let removed = self.observers[subscription.slot].is_some();
            self.observers[subscription.slot] = None;
            removed
        } else {
            false
        }
    }
}

} // verus!
