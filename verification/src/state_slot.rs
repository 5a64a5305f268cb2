//! A slot that always holds a state and replaces it by a transition that
//! consumes the old state.

use vstd::prelude::*;

verus! {

/// A slot that always holds a state of type `T`.
pub struct StateSlot<T>(Option<T>);

impl<T> StateSlot<T> {
    /// The slot holds a state, as every operation leaves it.
    pub closed spec fn wf(self) -> bool {
        self.0 is Some
    }

    /// The state the slot holds.
    pub closed spec fn state(self) -> T {
        self.0->0
    }

    /// A slot holding `state`.
    pub fn new(state: T) -> (r: Self)
        ensures
            r.wf(),
            r.state() == state,
    {
        StateSlot(Some(state))
    }

    /// Replaces the state by `f` applied to it.
    ///
    /// The state is moved out while `f` runs. The process is not aborted
    /// when `f` panics: the panic unwinds through this call and leaves the
    /// slot without a state, so `wf` no longer holds of it and none of its
    /// operations may be used on it again.
    pub fn transition<F: FnOnce(T) -> T>(&mut self, f: F)
        requires
            old(self).wf(),
            call_requires(f, (old(self).state(),)),
        ensures
            final(self).wf(),
            call_ensures(f, (old(self).state(),), final(self).state()),
    {
        let state = self.0.take().unwrap();
        self.0 = Some(f(state));
    }

    /// The state the slot holds.
    pub fn get(&self) -> (r: &T)
        requires
            self.wf(),
        ensures
            *r == self.state(),
    {
        self.0.as_ref().unwrap()
    }

    /// The state the slot holds, to change in place.
    pub fn get_mut(&mut self) -> (r: &mut T)
        requires
            old(self).wf(),
        ensures
            final(self).wf(),
            *r == old(self).state(),
            final(self).state() == *final(r),
    {
        self.0.as_mut().unwrap()
    }
}

} // verus!
