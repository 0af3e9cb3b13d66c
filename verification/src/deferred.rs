use vstd::prelude::*;
use crate::bridge::Handle;

verus! {

/// The updates that were asked for while a bridge was busy notifying.
///
/// A bridge is borrowed exclusively while it notifies, so an observer cannot update a
/// cell from within its own notification. It may ask for the update all the same: the
/// host puts the request here and takes it up when the notification has ended. The
/// requests are served in the order in which they were made; what an observer may rely
/// on is that its update is made, not when.
pub struct Deferred<V> {
    waiting: Vec<(Handle, V)>,
}

impl<V> Deferred<V> {
    /// The requests that wait, oldest first.
    pub closed spec fn view(&self) -> Seq<(Handle, V)> {
        self.waiting@
    }

    /// Nothing waits.
    pub fn new() -> (deferred: Self)
        ensures
            deferred@ == Seq::<(Handle, V)>::empty(),
    {
        Deferred { waiting: Vec::new() }
    }

    /// Puts the update of the cell behind `handle` to `v` behind those that wait.
    pub fn defer(&mut self, handle: Handle, v: V)
        ensures
            final(self)@ == old(self)@.push((handle, v)),
    {
        self.waiting.push((handle, v));
    }

    /// Takes the oldest request out, where one waits.
    pub fn take_next(&mut self) -> (next: Option<(Handle, V)>)
        ensures
            match next {
                Some(request) => old(self)@.len() > 0 && request == old(self)@[0] && final(self)@
                    == old(self)@.drop_first(),
                None => old(self)@.len() == 0 && final(self)@ == old(self)@,
            },
    {
        if self.waiting.len() == 0 {
            None
        } else {
            let request = self.waiting.remove(0);
            assert(self.waiting@ =~= old(self).waiting@.drop_first());
            Some(request)
        }
    }
}

} // verus!
