use vstd::prelude::*;
use crate::bridge::BridgeView;
use crate::bridge::Handle;
use crate::observer::Observer;
use crate::observer::notified;
use crate::state_cell::Subscription;

verus! {

/// An update installs its value: whatever the cell behind a live handle held before,
/// the same value or another, after an update with `v` it holds `v`, and the handle is
/// still live.
pub proof fn law_update_then_read<V, M, P: Fn(&V) -> String, O: Observer<V>>(
    before: BridgeView<V, M, P, O>,
    after: BridgeView<V, M, P, O>,
    handle: Handle,
    v: V,
    outcomes: Seq<Option<Result<(), String>>>,
)
    requires
        before.is_live(handle),
        before.updated(after, handle, v, outcomes),
    ensures
        after.is_live(handle),
        after.value(handle) == v,
{
}

/// An attach notifies nobody: every component that was mounted before is what it was,
/// its observers with the records of their notifications too. The new component has no
/// observer, so that an update right after the attach notifies nobody either.
pub proof fn law_attach_notifies_nobody<V, M, P: Fn(&V) -> String, O: Observer<V>>(
    before: BridgeView<V, M, P, O>,
    mounted: BridgeView<V, M, P, O>,
    after: BridgeView<V, M, P, O>,
    handle: Handle,
    earlier: Handle,
    mount_point: M,
    v1: V,
    v2: V,
    outcomes: Seq<Option<Result<(), String>>>,
)
    requires
        before.is_live(earlier),
        before.attached(mounted, handle, mount_point, v1),
        mounted.updated(after, handle, v2, outcomes),
    ensures
        mounted.is_live(earlier),
        mounted.mount(earlier) == before.mount(earlier),
        mounted.value(handle) == v1,
        mounted.mount(handle).cell.observers.len() == 0,
        after.value(handle) == v2,
        outcomes.len() == 0,
        after.mount(handle).cell.observers.len() == 0,
        after.mount(earlier) == before.mount(earlier),
{
    assert(mounted.mounts.take(before.mounts.len() as int)[earlier.slot()]
        == mounted.mounts[earlier.slot()]);
    Handle::lemma_slot_decides(handle, earlier);
}

/// An update notifies every observer that is subscribed when it is made exactly once,
/// whether or not the value is a new one: the observer's record grows by the one
/// notification, of the value `v`, with the answer that `outcomes` holds at its place.
pub proof fn law_update_notifies_once<V, M, P: Fn(&V) -> String, O: Observer<V>>(
    before: BridgeView<V, M, P, O>,
    after: BridgeView<V, M, P, O>,
    handle: Handle,
    v: V,
    outcomes: Seq<Option<Result<(), String>>>,
    subscription: Subscription,
)
    requires
        before.is_live(handle),
        before.mount(handle).cell.is_subscribed(subscription),
        before.updated(after, handle, v, outcomes),
    ensures
        after.mount(handle).cell.is_subscribed(subscription),
        outcomes[subscription.slot()] is Some,
        after.mount(handle).cell.observer(subscription).history() == before.mount(
            handle,
        ).cell.observer(subscription).history().push((v, outcomes[subscription.slot()]->Some_0)),
        notified(after.mount(handle).cell.observer(subscription)) == notified(
            before.mount(handle).cell.observer(subscription),
        ) + 1,
{
}

/// A subscription notifies nobody: right after it the cell holds the value it held,
/// the new observer is in the list as it came, and every other observer is what it
/// was, whatever updates were made before.
pub proof fn law_subscribe_notifies_nobody<V, M, P: Fn(&V) -> String, O: Observer<V>>(
    before: BridgeView<V, M, P, O>,
    after: BridgeView<V, M, P, O>,
    handle: Handle,
    observer: O,
    subscription: Subscription,
)
    requires
        before.is_live(handle),
        before.subscribed(after, handle, observer, subscription),
    ensures
        after.value(handle) == before.value(handle),
        after.mount(handle).cell.is_subscribed(subscription),
        after.mount(handle).cell.observer(subscription) == observer,
        notified(after.mount(handle).cell.observer(subscription)) == notified(observer),
        forall|k: int|
            0 <= k < before.mount(handle).cell.observers.len() ==> after.mount(
                handle,
            ).cell.observers[k] == before.mount(handle).cell.observers[k],
{
}

/// The first update after a subscription notifies the new observer for the first time
/// since, and every observer that was there before exactly once as well.
pub proof fn law_subscribe_then_update<V, M, P: Fn(&V) -> String, O: Observer<V>>(
    before: BridgeView<V, M, P, O>,
    listening: BridgeView<V, M, P, O>,
    after: BridgeView<V, M, P, O>,
    handle: Handle,
    observer: O,
    subscription: Subscription,
    earlier: Subscription,
    v: V,
    outcomes: Seq<Option<Result<(), String>>>,
)
    requires
        before.is_live(handle),
        before.mount(handle).cell.is_subscribed(earlier),
        before.subscribed(listening, handle, observer, subscription),
        listening.updated(after, handle, v, outcomes),
    ensures
        after.value(handle) == v,
        earlier != subscription,
        outcomes[subscription.slot()] is Some,
        after.mount(handle).cell.observer(subscription).history() == observer.history().push(
            (v, outcomes[subscription.slot()]->Some_0),
        ),
        notified(after.mount(handle).cell.observer(subscription)) == notified(observer) + 1,
        notified(after.mount(handle).cell.observer(earlier)) == notified(
            before.mount(handle).cell.observer(earlier),
        ) + 1,
{
    Subscription::lemma_slot_decides(earlier, subscription);
    assert(outcomes[earlier.slot()] is Some);
}

/// `states` is a run of updates of the cell behind `handle`, one after the other:
/// each state but the first is the one before it after an update with the value of
/// `values` at that step, `outcomes` holding what the observers answered to it.
pub open spec fn updates_in_turn<V, M, P: Fn(&V) -> String, O: Observer<V>>(
    states: Seq<BridgeView<V, M, P, O>>,
    handle: Handle,
    values: Seq<V>,
    outcomes: Seq<Seq<Option<Result<(), String>>>>,
) -> bool {
    &&& states.len() == values.len() + 1
    &&& outcomes.len() == values.len()
    &&& forall|i: int|
        0 <= i < values.len() ==> (#[trigger] states[i]).updated(
            states[i + 1],
            handle,
            values[i],
            outcomes[i],
        )
}

/// An observer is notified once for every update that is made while it is subscribed,
/// never more and never less: after any number of updates, with any values, repeated
/// ones too, it has been notified that many times more, and the cell holds the value
/// of the last of them.
pub proof fn law_updates_notify_once_each<V, M, P: Fn(&V) -> String, O: Observer<V>>(
    states: Seq<BridgeView<V, M, P, O>>,
    handle: Handle,
    values: Seq<V>,
    outcomes: Seq<Seq<Option<Result<(), String>>>>,
    subscription: Subscription,
)
    requires
        updates_in_turn(states, handle, values, outcomes),
        states[0].is_live(handle),
        states[0].mount(handle).cell.is_subscribed(subscription),
    ensures
        states.last().is_live(handle),
        states.last().mount(handle).cell.is_subscribed(subscription),
        notified(states.last().mount(handle).cell.observer(subscription)) == notified(
            states[0].mount(handle).cell.observer(subscription),
        ) + values.len(),
        values.len() > 0 ==> states.last().value(handle) == values.last(),
    decreases values.len(),
{
    if values.len() > 0 {
        let n = values.len() as int;
        let shorter = states.drop_last();
        assert forall|i: int| 0 <= i < n - 1 implies (#[trigger] shorter[i]).updated(
            shorter[i + 1],
            handle,
            values.drop_last()[i],
            outcomes.drop_last()[i],
        ) by {
            assert(states[i].updated(states[i + 1], handle, values[i], outcomes[i]));
        }
        law_updates_notify_once_each(
            shorter,
            handle,
            values.drop_last(),
            outcomes.drop_last(),
            subscription,
        );
        assert(shorter.last() == states[n - 1]);
        assert(states[n - 1].updated(states[n], handle, values[n - 1], outcomes[n - 1]));
        assert(outcomes[n - 1][subscription.slot()] is Some);
    }
}

/// Two attaches give two handles that differ, each with a component of its own: the
/// second attach leaves the first component as it was.
pub proof fn law_attaches_are_independent<V, M, P: Fn(&V) -> String, O: Observer<V>>(
    fresh: BridgeView<V, M, P, O>,
    one: BridgeView<V, M, P, O>,
    both: BridgeView<V, M, P, O>,
    first: Handle,
    second: Handle,
    first_point: M,
    second_point: M,
    v1: V,
    v2: V,
)
    requires
        fresh.attached(one, first, first_point, v1),
        one.attached(both, second, second_point, v2),
    ensures
        first != second,
        both.is_live(first),
        both.is_live(second),
        both.mount(first) == one.mount(first),
        both.value(first) == v1,
        both.value(second) == v2,
{
    assert(both.mounts.take(one.mounts.len() as int)[first.slot()] == both.mounts[first.slot()]);
}

/// An update through one handle changes nothing behind another: the other component
/// keeps its value and what it shows, and none of its observers is notified.
pub proof fn law_update_leaves_others<V, M, P: Fn(&V) -> String, O: Observer<V>>(
    before: BridgeView<V, M, P, O>,
    after: BridgeView<V, M, P, O>,
    handle: Handle,
    other: Handle,
    bystander: Subscription,
    v: V,
    outcomes: Seq<Option<Result<(), String>>>,
)
    requires
        before.is_live(handle),
        before.is_live(other),
        other != handle,
        before.mount(other).cell.is_subscribed(bystander),
        before.updated(after, handle, v, outcomes),
    ensures
        after.is_live(other),
        after.mount(other) == before.mount(other),
        after.value(other) == before.value(other),
        after.mount(other).cell.observer(bystander).history() == before.mount(
            other,
        ).cell.observer(bystander).history(),
{
    Handle::lemma_slot_decides(handle, other);
}

/// An observer that fails stops nothing: where one observer answered an update with a
/// failure, any other observer that was subscribed, one registered later too, was
/// notified by the same update all the same, exactly once.
pub proof fn law_failure_stops_nothing<V, M, P: Fn(&V) -> String, O: Observer<V>>(
    before: BridgeView<V, M, P, O>,
    after: BridgeView<V, M, P, O>,
    handle: Handle,
    v: V,
    outcomes: Seq<Option<Result<(), String>>>,
    failing: Subscription,
    later: Subscription,
)
    requires
        before.is_live(handle),
        before.mount(handle).cell.is_subscribed(failing),
        before.mount(handle).cell.is_subscribed(later),
        failing.slot() < later.slot(),
        before.updated(after, handle, v, outcomes),
        outcomes[failing.slot()] is Some,
        outcomes[failing.slot()]->Some_0 is Err,
    ensures
        after.value(handle) == v,
        outcomes[later.slot()] is Some,
        after.mount(handle).cell.observer(later).history() == before.mount(handle).cell.observer(
            later,
        ).history().push((v, outcomes[later.slot()]->Some_0)),
        notified(after.mount(handle).cell.observer(later)) == notified(
            before.mount(handle).cell.observer(later),
        ) + 1,
{
}

/// An observer that was unsubscribed is notified no more: an update passes its place
/// over. The observers that are still subscribed are notified by it exactly once.
pub proof fn law_unsubscribed_is_not_notified<V, M, P: Fn(&V) -> String, O: Observer<V>>(
    before: BridgeView<V, M, P, O>,
    silent: BridgeView<V, M, P, O>,
    after: BridgeView<V, M, P, O>,
    handle: Handle,
    subscription: Subscription,
    kept: Subscription,
    v: V,
    outcomes: Seq<Option<Result<(), String>>>,
)
    requires
        before.is_live(handle),
        before.mount(handle).cell.is_subscribed(subscription),
        before.mount(handle).cell.is_subscribed(kept),
        kept != subscription,
        before.unsubscribed(silent, handle, subscription),
        silent.updated(after, handle, v, outcomes),
    ensures
        !silent.mount(handle).cell.is_subscribed(subscription),
        !after.mount(handle).cell.is_subscribed(subscription),
        outcomes[subscription.slot()] is None,
        silent.mount(handle).cell.observer(kept) == before.mount(handle).cell.observer(kept),
        notified(after.mount(handle).cell.observer(kept)) == notified(
            before.mount(handle).cell.observer(kept),
        ) + 1,
{
    Subscription::lemma_slot_decides(kept, subscription);
    assert(outcomes[subscription.slot()] is None);
    assert(outcomes[kept.slot()] is Some);
}

/// A detached handle is dead for good: no attach brings it back to life, and the
/// handle of a later attach differs from it.
pub proof fn law_detached_stays_detached<V, M, P: Fn(&V) -> String, O: Observer<V>>(
    before: BridgeView<V, M, P, O>,
    torn: BridgeView<V, M, P, O>,
    after: BridgeView<V, M, P, O>,
    handle: Handle,
    later: Handle,
    mount_point: M,
    initial: V,
)
    requires
        before.is_live(handle),
        before.detached(torn, handle),
        torn.attached(after, later, mount_point, initial),
    ensures
        !torn.is_live(handle),
        !after.is_live(handle),
        later != handle,
{
    assert(after.mounts.take(torn.mounts.len() as int)[handle.slot()] == after.mounts[handle.slot()]);
}

} // verus!
