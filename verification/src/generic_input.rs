use vstd::prelude::*;
use crate::bridge::Bridge;
use crate::bridge::Handle;
use crate::observer::Observer;
use crate::state_cell::Subscription;

verus! {

/// What the host holds of a mounted input component.
#[derive(Clone, Copy, Debug)]
pub struct GenericInputState {
    pub handle: Handle,
}

/// Mounts an input component at `element` and returns the host's state for it. The
/// component starts with `initial_value`, or with the default of its type where the
/// host gave none.
pub fn attach_generic_input<V: Default, M, P: Fn(&V) -> String, O: Observer<V>>(
    bridge: &mut Bridge<V, M, P, O>,
    element: M,
    initial_value: Option<V>,
) -> (state: GenericInputState)
    requires
        old(bridge)@.wf(),
    ensures
        final(bridge)@.wf(),
        old(bridge)@.attached(
            final(bridge)@,
            state.handle,
            element,
            final(bridge)@.value(state.handle),
        ),
        match initial_value {
            Some(v) => final(bridge)@.value(state.handle) == v,
            None => call_ensures(V::default, (), final(bridge)@.value(state.handle)),
        },
{
    GenericInputState { handle: bridge.attach(element, initial_value.unwrap_or_default()) }
}

/// Sets the component's value to `value` without mounting it again, notifies each of
/// its observers once and returns what each answered.
pub fn update_generic_input<V, M, P: Fn(&V) -> String, O: Observer<V>>(
    bridge: &mut Bridge<V, M, P, O>,
    state: &GenericInputState,
    value: V,
) -> (outcomes: Vec<Option<Result<(), String>>>)
    requires
        old(bridge)@.wf(),
        old(bridge)@.is_live(state.handle),
    ensures
        final(bridge)@.wf(),
        old(bridge)@.updated(final(bridge)@, state.handle, value, outcomes@),
{
    bridge.update(state.handle, value)
}

/// The component's current value.
pub fn get_generic_input_value<V: Copy, M, P: Fn(&V) -> String, O: Observer<V>>(
    bridge: &Bridge<V, M, P, O>,
    state: &GenericInputState,
) -> (value: V)
    requires
        bridge@.is_live(state.handle),
    ensures
        value == bridge@.value(state.handle),
{
    *bridge.read(state.handle)
}

/// Has `observer` notified of every later change of the component's value, until the
/// subscription that is returned is given back. Nobody is notified now.
pub fn subscribe_generic_input<V, M, P: Fn(&V) -> String, O: Observer<V>>(
    bridge: &mut Bridge<V, M, P, O>,
    state: &GenericInputState,
    observer: O,
) -> (subscription: Subscription)
    requires
        old(bridge)@.wf(),
        old(bridge)@.is_live(state.handle),
    ensures
        final(bridge)@.wf(),
        old(bridge)@.subscribed(final(bridge)@, state.handle, observer, subscription),
{
    bridge.subscribe(state.handle, observer)
}

} // verus!
