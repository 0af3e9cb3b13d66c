use vstd::prelude::*;
use crate::bridge::Bridge;
use crate::bridge::Handle;
use crate::error::DeserializationError;
use crate::error::initial_data_message;
use crate::error::updated_data_message;
use crate::observer::Observer;

verus! {

/// What the host holds of a mounted output component.
#[derive(Clone, Copy, Debug)]
pub struct GenericOutputState {
    pub handle: Handle,
}

/// Mounts an output component at `element` the first time that the host renders it.
/// Where the host gave no initial value the component starts with the default of its
/// type. Else `initial_data` holds what decoding the host's value gave: where that
/// failed nothing is mounted, nobody is notified, and the error says what the decoder
/// said.
pub fn attach_generic_output<V: Default, M, P: Fn(&V) -> String, O: Observer<V>>(
    bridge: &mut Bridge<V, M, P, O>,
    element: M,
    initial_data: Option<Result<V, String>>,
) -> (attached: Result<GenericOutputState, DeserializationError>)
    requires
        old(bridge)@.wf(),
    ensures
        final(bridge)@.wf(),
        match initial_data {
            None => attached is Ok && old(bridge)@.attached(
                final(bridge)@,
                attached->Ok_0.handle,
                element,
                final(bridge)@.value(attached->Ok_0.handle),
            ) && call_ensures(V::default, (), final(bridge)@.value(attached->Ok_0.handle)),
            Some(Ok(initial)) => attached is Ok && old(bridge)@.attached(
                final(bridge)@,
                attached->Ok_0.handle,
                element,
                initial,
            ),
            Some(Err(detail)) => attached is Err && attached->Err_0@ == initial_data_message(
                detail@,
            ) && final(bridge)@ == old(bridge)@,
        },
{
    match initial_data {
        None => Ok(GenericOutputState { handle: bridge.attach(element, V::default()) }),
        Some(Ok(initial)) => Ok(GenericOutputState { handle: bridge.attach(element, initial) }),
        Some(Err(detail)) => Err(DeserializationError::initial(detail.as_str())),
    }
}

/// Installs the host's new value in the component. `new_data` is what decoding the
/// host's value gave: where that failed the component keeps its value, nothing is
/// rendered and no observer is notified; else the value is replaced as a whole, each
/// observer is notified once and what each answered is returned.
pub fn update_generic_output<V, M, P: Fn(&V) -> String, O: Observer<V>>(
    bridge: &mut Bridge<V, M, P, O>,
    state: &GenericOutputState,
    new_data: Result<V, String>,
) -> (updated: Result<Vec<Option<Result<(), String>>>, DeserializationError>)
    requires
        old(bridge)@.wf(),
        old(bridge)@.is_live(state.handle),
    ensures
        final(bridge)@.wf(),
        match new_data {
            Ok(v) => updated is Ok && old(bridge)@.updated(
                final(bridge)@,
                state.handle,
                v,
                updated->Ok_0@,
            ),
            Err(detail) => updated is Err && updated->Err_0@ == updated_data_message(detail@)
                && final(bridge)@ == old(bridge)@,
        },
{
    match new_data {
        Ok(v) => Ok(bridge.update(state.handle, v)),
        Err(detail) => Err(DeserializationError::updated(detail.as_str())),
    }
}

} // verus!
