//! What the user-space runtime keeps of its own: the callbacks that are
//! registered, and the diagnostic for a heap that is exhausted.

use crate::ops::SystemHalt;
use std::collections::BTreeSet;
use vstd::prelude::*;

verus! {

/// The tokens of the callbacks that are registered with the runtime.
pub struct CallbackTids {
    tids: BTreeSet<usize>,
}

impl View for CallbackTids {
    type V = Set<usize>;

    /// The registered tokens.
    closed spec fn view(&self) -> Set<usize> {
        self.tids@
    }
}

impl CallbackTids {
    /// A table without callbacks.
    pub fn new() -> (table: Self)
        ensures
            table@ == Set::<usize>::empty(),
    {
        CallbackTids { tids: BTreeSet::new() }
    }

    /// Registers the token `tid`; tells whether it was new.
    pub fn register(&mut self, tid: usize) -> (added: bool)
        ensures
            final(self)@ == old(self)@.insert(tid),
            added == !old(self)@.contains(tid),
    {
        self.tids.insert(tid)
    }

    /// Takes the token `tid` out; tells whether it was registered.
    pub fn unregister(&mut self, tid: usize) -> (removed: bool)
        ensures
            final(self)@ == old(self)@.remove(tid),
            removed == old(self)@.contains(tid),
    {
        self.tids.remove(&tid)
    }

    /// Whether the token `tid` is registered.
    pub fn contains_tid(&self, tid: usize) -> (registered: bool)
        ensures
            registered == self@.contains(tid),
    {
        self.tids.contains(&tid)
    }
}

/// Whether the callback token `t` is still registered in `callbacks`.
pub fn check_callback(callbacks: &CallbackTids, t: usize) -> (registered: bool)
    ensures
        registered == callbacks@.contains(t),
{
    callbacks.contains_tid(t)
}

/// The halt for an allocation of `size` bytes, aligned to `align`, that the
/// heap could not serve.
pub fn handle_alloc_error(size: usize, align: usize) -> (halt: SystemHalt)
    ensures
        halt == (SystemHalt::AllocError { size, align }),
{
    SystemHalt::AllocError { size, align }
}

} // verus!
