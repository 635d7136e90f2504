//! The per-hart timer multiplexer: many deadlines behind one comparator.

use std::collections::BTreeMap;
use vstd::prelude::*;

verus! {

/// Whether `deadline` is a key of `entries` that no other key is below.
pub open spec fn is_earliest(entries: Map<usize, usize>, deadline: usize) -> bool {
    &&& entries.contains_key(deadline)
    &&& forall|other: usize| entries.contains_key(other) ==> deadline <= other
}

/// The value that the comparator holds for `entries`: the earliest deadline,
/// or nothing where there is no deadline.
pub open spec fn comparator_for(entries: Map<usize, usize>, comparator: Option<usize>) -> bool {
    match comparator {
        Some(deadline) => is_earliest(entries, deadline),
        None => entries == Map::<usize, usize>::empty(),
    }
}

/// `entries` without the deadlines that `pid` owns.
pub open spec fn without_pid(entries: Map<usize, usize>, pid: usize) -> Map<usize, usize> {
    Map::new(
        |deadline: usize| entries.contains_key(deadline) && entries[deadline] != pid,
        |deadline: usize| entries[deadline],
    )
}

/// `entries` once `pid` has asked for `deadline`: the request takes the
/// place of the deadline that `pid` had and of the owner that `deadline` had.
pub open spec fn armed(entries: Map<usize, usize>, deadline: usize, pid: usize) -> Map<
    usize,
    usize,
> {
    without_pid(entries, pid).insert(deadline, pid)
}

/// Whether no process owns two deadlines of `entries`.
pub open spec fn one_deadline_each(entries: Map<usize, usize>) -> bool {
    forall|a: usize, b: usize|
        entries.contains_key(a) && entries.contains_key(b) && entries[a] == entries[b] ==> a == b
}

/// Calls `BTreeMap::pop_first`.
///
/// Trusted: the standard library removes and returns the entry with the
/// minimum key, and returns `None` on an empty map.
#[verifier::external_body]
fn pop_first(map: &mut BTreeMap<usize, usize>) -> (first: Option<(usize, usize)>)
    ensures
        match first {
            Some((key, value)) => {
                &&& is_earliest(old(map)@, key)
                &&& old(map)@[key] == value
                &&& final(map)@ == old(map)@.remove(key)
            },
            None => old(map)@ == Map::<usize, usize>::empty() && final(map)@ == old(map)@,
        },
{
    map.pop_first()
}

/// Calls `BTreeMap::first_key_value`.
///
/// Trusted: the standard library returns the entry with the minimum key,
/// and `None` on an empty map.
#[verifier::external_body]
fn first_key_value(map: &BTreeMap<usize, usize>) -> (first: Option<(usize, usize)>)
    ensures
        match first {
            Some((key, value)) => is_earliest(map@, key) && map@[key] == value,
            None => map@ == Map::<usize, usize>::empty(),
        },
{
    match map.first_key_value() {
        Some((key, value)) => Some((*key, *value)),
        None => None,
    }
}

/// The deadlines of one hart, each with the process that waits for it, and
/// the value that the hart's comparator is programmed to.
pub struct TimerMultiplexer {
    by_deadline: BTreeMap<usize, usize>,
    by_pid: BTreeMap<usize, usize>,
    comparator: Option<usize>,
}

impl View for TimerMultiplexer {
    type V = Map<usize, usize>;

    /// The outstanding deadlines, each mapped to the process that owns it.
    closed spec fn view(&self) -> Map<usize, usize> {
        self.by_deadline@
    }
}

impl TimerMultiplexer {
    /// The value that the comparator is programmed to, if any.
    pub closed spec fn comparator_spec(&self) -> Option<usize> {
        self.comparator
    }

    /// The invariant: the index by process mirrors the deadlines, and the
    /// comparator holds the earliest of them.
    pub closed spec fn wf(&self) -> bool {
        &&& forall|deadline: usize| #[trigger]
            self.by_deadline@.contains_key(deadline) ==> {
                &&& self.by_pid@.contains_key(self.by_deadline@[deadline])
                &&& self.by_pid@[self.by_deadline@[deadline]] == deadline
            }
        &&& forall|pid: usize| #[trigger]
            self.by_pid@.contains_key(pid) ==> {
                &&& self.by_deadline@.contains_key(self.by_pid@[pid])
                &&& self.by_deadline@[self.by_pid@[pid]] == pid
            }
        &&& comparator_for(self.by_deadline@, self.comparator)
    }

    /// A multiplexer without deadlines, its comparator not programmed.
    pub fn new() -> (timer: Self)
        ensures
            timer.wf(),
            timer@ == Map::<usize, usize>::empty(),
            timer.comparator_spec() is None,
    {
        TimerMultiplexer { by_deadline: BTreeMap::new(), by_pid: BTreeMap::new(), comparator: None }
    }

    /// The value that the comparator is programmed to, if any.
    pub fn comparator(&self) -> (programmed: Option<usize>)
        ensures
            programmed == self.comparator_spec(),
            self.wf() ==> comparator_for(self@, programmed),
    {
        self.comparator
    }

    /// The number of outstanding deadlines.
    pub fn len(&self) -> (count: usize)
        ensures
            count == self@.len(),
    {
        self.by_deadline.len()
    }

    /// Whether no deadline is outstanding.
    pub fn is_empty(&self) -> (empty: bool)
        ensures
            empty <==> self@ == Map::<usize, usize>::empty(),
    {
        let empty = self.by_deadline.is_empty();
        assert(empty ==> self@ =~= Map::<usize, usize>::empty());
        empty
    }

    /// The process that waits for `deadline`, if one does.
    pub fn owner_of(&self, deadline: usize) -> (owner: Option<usize>)
        ensures
            owner == (if self@.contains_key(deadline) {
                Some(self@[deadline])
            } else {
                None
            }),
    {
        match self.by_deadline.get(&deadline) {
            Some(pid) => Some(*pid),
            None => None,
        }
    }

    /// The deadline that `pid` waits for, if it waits for one.
    pub fn deadline_of(&self, pid: usize) -> (deadline: Option<usize>)
        requires
            self.wf(),
        ensures
            match deadline {
                Some(at) => self@.contains_key(at) && self@[at] == pid,
                None => forall|at: usize| self@.contains_key(at) ==> self@[at] != pid,
            },
    {
        match self.by_pid.get(&pid) {
            Some(at) => Some(*at),
            None => None,
        }
    }

    /// Records that `pid` waits for `deadline` and programs the comparator
    /// to the earliest deadline. A deadline that `pid` already had is given
    /// up, and so is the claim of another process on `deadline`.
    pub fn arm(&mut self, deadline: usize, pid: usize) -> (programmed: usize)
        requires
            old(self).wf(),
        ensures
            final(self).wf(),
            final(self)@ == armed(old(self)@, deadline, pid),
            final(self).comparator_spec() == Some(programmed),
            is_earliest(final(self)@, programmed),
    {
        match self.by_pid.remove(&pid) {
            Some(previous) => {
                self.by_deadline.remove(&previous);
            },
            None => {},
        }
        assert(self.by_deadline@ =~= without_pid(old(self)@, pid));
        match self.by_deadline.insert(deadline, pid) {
            Some(owner) => {
                self.by_pid.remove(&owner);
            },
            None => {},
        }
        self.by_pid.insert(pid, deadline);
        let programmed = match first_key_value(&self.by_deadline) {
            Some((first, _)) => first,
            None => {
                assert(self.by_deadline@.contains_key(deadline));
                deadline
            },
        };
        self.comparator = Some(programmed);
        programmed
    }

    /// Removes the earliest deadline and programs the comparator to the one
    /// that is then the earliest.
    pub fn pop_earliest(&mut self) -> (popped: Option<(usize, usize)>)
        requires
            old(self).wf(),
        ensures
            final(self).wf(),
            match popped {
                Some((deadline, pid)) => {
                    &&& is_earliest(old(self)@, deadline)
                    &&& old(self)@[deadline] == pid
                    &&& final(self)@ == old(self)@.remove(deadline)
                },
                None => old(self)@ == Map::<usize, usize>::empty() && final(self)@ == old(self)@,
            },
            comparator_for(final(self)@, final(self).comparator_spec()),
    {
        let popped = pop_first(&mut self.by_deadline);
        match popped {
            Some((deadline, pid)) => {
                self.by_pid.remove(&pid);
                self.comparator =
                match first_key_value(&self.by_deadline) {
                    Some((next, _)) => Some(next),
                    None => None,
                };
            },
            None => {
                self.comparator = None;
            },
        }
        popped
    }
}

/// No process owns two deadlines of a well-formed multiplexer.
pub proof fn lemma_one_deadline_each(timer: TimerMultiplexer)
    requires
        timer.wf(),
    ensures
        one_deadline_each(timer@),
{
}

/// Whatever was armed and popped before, the comparator holds the earliest
/// outstanding deadline, and holds nothing exactly when none is outstanding.
pub proof fn lemma_comparator_is_earliest(timer: TimerMultiplexer)
    requires
        timer.wf(),
    ensures
        comparator_for(timer@, timer.comparator_spec()),
        timer.comparator_spec() is None <==> timer@ == Map::<usize, usize>::empty(),
{
}

/// Deadlines leave in strictly increasing order: what is the earliest once
/// the earliest is gone lies after it.
pub proof fn lemma_pops_increase(entries: Map<usize, usize>, first: usize, second: usize)
    requires
        is_earliest(entries, first),
        is_earliest(entries.remove(first), second),
    ensures
        first < second,
{
}

/// Arming gives `pid` the deadline it asked for and no other.
pub proof fn lemma_armed_replaces(entries: Map<usize, usize>, deadline: usize, pid: usize)
    requires
        one_deadline_each(entries),
    ensures
        armed(entries, deadline, pid).contains_key(deadline),
        armed(entries, deadline, pid)[deadline] == pid,
        one_deadline_each(armed(entries, deadline, pid)),
        forall|other: usize|
            other != deadline && armed(entries, deadline, pid).contains_key(other) ==> {
                &&& entries.contains_key(other)
                &&& entries[other] != pid
                &&& armed(entries, deadline, pid)[other] == entries[other]
            },
{
}

} // verus!
