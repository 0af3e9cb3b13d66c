use vstd::prelude::*;

verus! {

/// Something that wants to hear of every change of a state cell.
///
/// An observer keeps the record of its own notifications, which nothing but a
/// notification extends: what a cell says of the records of its observers is said of
/// the calls that it made.
pub trait Observer<V> {
    /// The notifications that this observer has had, oldest first: the value that it
    /// was shown and what it answered.
    spec fn history(&self) -> Seq<(V, Result<(), String>)>;

    /// Tells the observer that the cell has changed and shows it the value that the
    /// cell now holds. An observer that fails answers with what went wrong.
    fn notify(&mut self, current: &V) -> (outcome: Result<(), String>)
        ensures
            final(self).history() == old(self).history().push((*current, outcome)),
    ;
}

/// How often `observer` has been notified.
pub open spec fn notified<V, O: Observer<V>>(observer: O) -> nat {
    observer.history().len()
}

/// An observer made of a function, which is called once for each notification.
pub struct Callback<V, F: Fn(&V) -> Result<(), String>> {
    call: F,
    history: Ghost<Seq<(V, Result<(), String>)>>,
}

impl<V, F: Fn(&V) -> Result<(), String>> Callback<V, F> {
    #[verifier::type_invariant]
    spec fn callable(&self) -> bool {
        forall|v: V| call_requires(self.call, (&v,))
    }

    /// The function that is called for each notification.
    pub closed spec fn call(&self) -> F {
        self.call
    }

    /// An observer that calls `call` when it is notified, and has not been notified
    /// yet.
    pub fn new(call: F) -> (callback: Self)
        requires
            forall|v: V| call_requires(call, (&v,)),
        ensures
            callback.call() == call,
            callback.history() == Seq::<(V, Result<(), String>)>::empty(),
    {
        Callback { call, history: Ghost(Seq::empty()) }
    }
}

impl<V, F: Fn(&V) -> Result<(), String>> Observer<V> for Callback<V, F> {
    closed spec fn history(&self) -> Seq<(V, Result<(), String>)> {
        self.history@
    }

    fn notify(&mut self, current: &V) -> (outcome: Result<(), String>)
        ensures
            final(self).call() == old(self).call(),
            call_ensures(old(self).call(), (current,), outcome),
    {
        proof {
            use_type_invariant(&*self);
        }
        assert(call_requires(self.call, (current,)));
        let outcome = (self.call)(current);
        self.history = Ghost(self.history@.push((*current, outcome)));
        outcome
    }
}

} // verus!
