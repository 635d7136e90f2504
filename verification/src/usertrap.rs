//! Trap records on their way to a process that is not running.

use crate::ops::Op;
use std::collections::BTreeMap;
use std::collections::VecDeque;
use vstd::prelude::*;

verus! {

/// Cause tag of a user software interrupt.
pub const USER_SOFT_CAUSE: usize = 0;

/// Cause tag of a user timer interrupt.
pub const USER_TIMER_CAUSE: usize = 4;

/// Cause tag of a user external interrupt.
pub const USER_EXTERNAL_CAUSE: usize = 8;

/// One event for a process: what happened and a payload, such as the time.
#[derive(Clone, Copy, Debug, PartialEq, Eq, Structural)]
pub struct UserTrapRecord {
    pub cause: usize,
    pub message: usize,
}

/// Why a record was not queued.
#[derive(Clone, Copy, Debug, PartialEq, Eq, Structural)]
pub enum UserTrapError {
    /// No process with that id has a queue.
    TaskNotFound,
    /// The queue of the process holds as many records as it can.
    TrapBufferFull,
}

/// The delegated interrupts that are pending for a process.
#[derive(Clone, Copy, Debug, PartialEq, Eq, Structural)]
pub struct UserPending {
    pub soft: bool,
    pub timer: bool,
    pub external: bool,
}

/// Whether one of `records` has the cause tag `cause`.
pub open spec fn has_cause(records: Seq<UserTrapRecord>, cause: usize) -> bool {
    exists|i: int| 0 <= i < records.len() && #[trigger] records[i].cause == cause
}

/// The delegated interrupts that `records` make pending: each kind of which
/// a record is there.
pub open spec fn pending_of(records: Seq<UserTrapRecord>) -> UserPending {
    UserPending {
        soft: has_cause(records, USER_SOFT_CAUSE),
        timer: has_cause(records, USER_TIMER_CAUSE),
        external: has_cause(records, USER_EXTERNAL_CAUSE),
    }
}

/// The queue `records`, which holds up to `capacity` records, once
/// `record` was pushed: the record is its last, unless the queue was full.
pub open spec fn after_push(
    records: Seq<UserTrapRecord>,
    capacity: nat,
    record: UserTrapRecord,
) -> Seq<UserTrapRecord> {
    if records.len() < capacity {
        records.push(record)
    } else {
        records
    }
}

/// The queue `records` once each of `incoming` was pushed, in order.
pub open spec fn after_pushes(
    records: Seq<UserTrapRecord>,
    capacity: nat,
    incoming: Seq<UserTrapRecord>,
) -> Seq<UserTrapRecord>
    decreases incoming.len(),
{
    if incoming.len() == 0 {
        records
    } else {
        after_pushes(after_push(records, capacity, incoming[0]), capacity, incoming.drop_first())
    }
}

/// What a drain of the queue `records` hands out, and what it leaves.
pub open spec fn drain_of(records: Seq<UserTrapRecord>) -> (Seq<UserTrapRecord>, Seq<
    UserTrapRecord,
>) {
    (records, Seq::<UserTrapRecord>::empty())
}

/// What a process finds when it is resumed: the records that were queued
/// for it, oldest first, and the interrupts that they make pending.
#[derive(Debug)]
pub struct RestoredTraps {
    pub records: Vec<UserTrapRecord>,
    pub pending: UserPending,
}

/// The bounded mailbox of one process; records leave in the order they came.
pub struct UserTrapQueue {
    records: VecDeque<UserTrapRecord>,
    capacity: usize,
}

impl View for UserTrapQueue {
    type V = Seq<UserTrapRecord>;

    /// The queued records, oldest first.
    closed spec fn view(&self) -> Seq<UserTrapRecord> {
        self.records@
    }
}

impl UserTrapQueue {
    /// The number of records that the queue can hold.
    pub closed spec fn capacity_spec(&self) -> usize {
        self.capacity
    }

    /// The invariant: the queue holds no more than its capacity.
    pub open spec fn wf(&self) -> bool {
        self@.len() <= self.capacity_spec()
    }

    /// An empty queue for up to `capacity` records.
    pub fn new(capacity: usize) -> (queue: Self)
        ensures
            queue.wf(),
            queue@ == Seq::<UserTrapRecord>::empty(),
            queue.capacity_spec() == capacity,
    {
        UserTrapQueue { records: VecDeque::new(), capacity }
    }

    /// The number of records that the queue can hold.
    pub fn capacity(&self) -> (capacity: usize)
        ensures
            capacity == self.capacity_spec(),
    {
        self.capacity
    }

    /// The number of queued records.
    pub fn len(&self) -> (count: usize)
        ensures
            count == self@.len(),
    {
        self.records.len()
    }

    /// Whether no record is queued.
    pub fn is_empty(&self) -> (empty: bool)
        ensures
            empty <==> self@.len() == 0,
    {
        self.records.len() == 0
    }

    /// Whether the queue holds as many records as it can.
    pub fn is_full(&self) -> (full: bool)
        ensures
            full <==> self@.len() >= self.capacity_spec(),
    {
        self.records.len() >= self.capacity
    }

    /// Appends `record`, unless the queue is full.
    pub fn push(&mut self, record: UserTrapRecord) -> (outcome: Result<(), UserTrapError>)
        requires
            old(self).wf(),
        ensures
            final(self).wf(),
            final(self).capacity_spec() == old(self).capacity_spec(),
            final(self)@ == after_push(old(self)@, old(self).capacity_spec() as nat, record),
            match outcome {
                Ok(_) => old(self)@.len() < old(self).capacity_spec(),
                Err(error) => {
                    &&& error == UserTrapError::TrapBufferFull
                    &&& old(self)@.len() >= old(self).capacity_spec()
                },
            },
    {
        if self.records.len() >= self.capacity {
            Err(UserTrapError::TrapBufferFull)
        } else {
            self.records.push_back(record);
            Ok(())
        }
    }

    /// Takes every record out of the queue, oldest first.
    pub fn drain(&mut self) -> (drained: Vec<UserTrapRecord>)
        ensures
            (drained@, final(self)@) == drain_of(old(self)@),
            final(self).capacity_spec() == old(self).capacity_spec(),
            final(self).wf(),
    {
        let ghost before = self.records@;
        let mut drained: Vec<UserTrapRecord> = Vec::new();
        loop
            invariant
                drained@ + self.records@ == before,
                self.capacity == old(self).capacity,
            ensures
                self.records@.len() == 0,
            decreases self.records@.len(),
        {
            match self.records.pop_front() {
                Some(record) => {
                    proof {
                        let ghost rest = self.records@;
                        assert(drained@.push(record) + rest =~= before);
                    }
                    drained.push(record);
                },
                None => {
                    break ;
                },
            }
        }
        assert(drained@ =~= before);
        assert(self.records@ =~= Seq::<UserTrapRecord>::empty());
        drained
    }

    /// Empties the queue for the process that is about to resume, and tells
    /// which delegated interrupts the records make pending.
    pub fn restore_user_trap_info(&mut self) -> (restored: RestoredTraps)
        ensures
            restored.records@ == old(self)@,
            restored.pending == pending_of(old(self)@),
            final(self)@ == Seq::<UserTrapRecord>::empty(),
            final(self).capacity_spec() == old(self).capacity_spec(),
            final(self).wf(),
    {
        let records = self.drain();
        let pending = pending(&records);
        RestoredTraps { records, pending }
    }
}

/// The delegated interrupts that `records` make pending.
pub fn pending(records: &Vec<UserTrapRecord>) -> (raised: UserPending)
    ensures
        raised == pending_of(records@),
{
    let mut raised = UserPending { soft: false, timer: false, external: false };
    let mut i: usize = 0;
    while i < records.len()
        invariant
            i <= records.len(),
            raised == pending_of(records@.take(i as int)),
        decreases records.len() - i,
    {
        let cause = records[i].cause;
        proof {
            let ghost seen = records@.take(i as int);
            let ghost next = records@.take(i + 1);
            assert(next[i as int] == records@[i as int]);
            assert forall|tag: usize| #[trigger]
                has_cause(next, tag) == (has_cause(seen, tag) || cause == tag) by {
                if has_cause(seen, tag) {
                    let k = choose|k: int| 0 <= k < seen.len() && #[trigger] seen[k].cause == tag;
                    assert(next[k].cause == tag);
                }
                if has_cause(next, tag) {
                    let k = choose|k: int| 0 <= k < next.len() && #[trigger] next[k].cause == tag;
                    if k < i {
                        assert(seen[k].cause == tag);
                    }
                }
            }
        }
        if cause == USER_SOFT_CAUSE {
            raised.soft = true;
        } else if cause == USER_TIMER_CAUSE {
            raised.timer = true;
        } else if cause == USER_EXTERNAL_CAUSE {
            raised.external = true;
        }
        i = i + 1;
    }
    assert(records@.take(i as int) =~= records@);
    raised
}

/// The mailboxes of the processes that take user traps, by process id.
pub struct UserTrapRegistry {
    queues: BTreeMap<usize, UserTrapQueue>,
}

impl View for UserTrapRegistry {
    type V = Map<usize, Seq<UserTrapRecord>>;

    /// The queued records of each registered process, oldest first.
    closed spec fn view(&self) -> Map<usize, Seq<UserTrapRecord>> {
        Map::new(|pid: usize| self.queues@.contains_key(pid), |pid: usize| self.queues@[pid]@)
    }
}

impl UserTrapRegistry {
    /// The number of records that the queue of `pid` can hold.
    pub closed spec fn capacity_of(&self, pid: usize) -> usize {
        self.queues@[pid].capacity_spec()
    }

    /// The number of records that each queue can hold, by process.
    pub open spec fn capacity_fn(&self) -> spec_fn(usize) -> nat {
        |pid: usize| self.capacity_of(pid) as nat
    }

    /// The invariant: no queue holds more than its capacity.
    pub open spec fn wf(&self) -> bool {
        forall|pid: usize| #[trigger]
            self@.contains_key(pid) ==> self@[pid].len() <= self.capacity_of(pid)
    }

    /// Whether `other` has the same processes, each with the same capacity.
    pub open spec fn same_processes(&self, other: &Self) -> bool {
        &&& self@.dom() == other@.dom()
        &&& forall|pid: usize| #[trigger]
            self@.contains_key(pid) ==> self.capacity_of(pid) == other.capacity_of(pid)
    }

    /// A registry without processes.
    pub fn new() -> (registry: Self)
        ensures
            registry.wf(),
            registry@ == Map::<usize, Seq<UserTrapRecord>>::empty(),
    {
        let registry = UserTrapRegistry { queues: BTreeMap::new() };
        assert(registry@ =~= Map::<usize, Seq<UserTrapRecord>>::empty());
        registry
    }

    /// Gives `pid` an empty queue for up to `capacity` records, unless it
    /// has a queue already; tells whether it did so.
    pub fn register(&mut self, pid: usize, capacity: usize) -> (added: bool)
        requires
            old(self).wf(),
        ensures
            final(self).wf(),
            added <==> !old(self)@.contains_key(pid),
            added ==> final(self)@ == old(self)@.insert(pid, Seq::<UserTrapRecord>::empty()),
            added ==> final(self).capacity_of(pid) == capacity,
            !added ==> final(self)@ == old(self)@,
            forall|other: usize|
                other != pid || !added ==> final(self).capacity_of(other) == old(self).capacity_of(
                    other,
                ),
    {
        if self.queues.contains_key(&pid) {
            false
        } else {
            self.queues.insert(pid, UserTrapQueue::new(capacity));
            assert(final(self)@ =~= old(self)@.insert(pid, Seq::<UserTrapRecord>::empty()));
            true
        }
    }

    /// Takes the queue of `pid` away, with the records that it still holds;
    /// tells whether there was one.
    pub fn unregister(&mut self, pid: usize) -> (removed: bool)
        requires
            old(self).wf(),
        ensures
            final(self).wf(),
            removed <==> old(self)@.contains_key(pid),
            final(self)@ == old(self)@.remove(pid),
            forall|other: usize|
                other != pid ==> final(self).capacity_of(other) == old(self).capacity_of(other),
    {
        let removed = self.queues.remove(&pid).is_some();
        assert(final(self)@ =~= old(self)@.remove(pid));
        removed
    }

    /// Whether `pid` has a queue.
    pub fn contains(&self, pid: usize) -> (registered: bool)
        ensures
            registered <==> self@.contains_key(pid),
    {
        self.queues.contains_key(&pid)
    }

    /// The number of records queued for `pid`, if it has a queue.
    pub fn queued(&self, pid: usize) -> (count: Option<usize>)
        ensures
            count == (if self@.contains_key(pid) {
                Some(self@[pid].len() as usize)
            } else {
                None
            }),
    {
        match self.queues.get(&pid) {
            Some(queue) => Some(queue.len()),
            None => None,
        }
    }

    /// Appends `record` to the queue of `pid`. Fails, and changes nothing,
    /// where `pid` has no queue or its queue is full.
    pub fn push_trap_record(&mut self, pid: usize, record: UserTrapRecord) -> (outcome: Result<
        (),
        UserTrapError,
    >)
        requires
            old(self).wf(),
        ensures
            final(self).wf(),
            final(self).same_processes(old(self)),
            final(self)@ == pushed(old(self)@, old(self).capacity_of(pid) as nat, pid, record),
            match outcome {
                Ok(_) => push_error(old(self)@, old(self).capacity_of(pid) as nat, pid) is None,
                Err(error) => push_error(old(self)@, old(self).capacity_of(pid) as nat, pid)
                    == Some(error),
            },
    {
        match self.queues.remove(&pid) {
            None => {
                assert(final(self)@ =~= old(self)@);
                assert(!old(self)@.contains_key(pid));
                Err(UserTrapError::TaskNotFound)
            },
            Some(queue) => {
                let mut queue = queue;
                assert(old(self)@.contains_key(pid) && queue@ == old(self)@[pid]);
                assert(queue.capacity_spec() == old(self).capacity_of(pid));
                let outcome = queue.push(record);
                self.queues.insert(pid, queue);
                assert(final(self)@ =~= pushed(
                    old(self)@,
                    old(self).capacity_of(pid) as nat,
                    pid,
                    record,
                ));
                assert(final(self)@.dom() =~= old(self)@.dom());
                outcome
            },
        }
    }

    /// Does `op` on the queues: a push queues its record, where it can;
    /// no other operation touches a queue.
    pub fn perform(&mut self, op: &Op)
        requires
            old(self).wf(),
        ensures
            final(self).wf(),
            final(self).same_processes(old(self)),
            final(self)@ == queues_after(old(self)@, old(self).capacity_fn(), *op),
    {
        match op {
            Op::PushTrapRecord { pid, record } => {
                let _ = self.push_trap_record(*pid, *record);
            },
            _ => {},
        }
    }

    /// Empties the queue of `pid`, which is about to resume, and tells what
    /// was in it; `None` where `pid` has no queue.
    pub fn restore_user_trap_info(&mut self, pid: usize) -> (restored: Option<RestoredTraps>)
        requires
            old(self).wf(),
        ensures
            final(self).wf(),
            final(self).same_processes(old(self)),
            match restored {
                Some(traps) => {
                    &&& old(self)@.contains_key(pid)
                    &&& traps.records@ == old(self)@[pid]
                    &&& traps.pending == pending_of(old(self)@[pid])
                    &&& final(self)@ == old(self)@.insert(pid, Seq::<UserTrapRecord>::empty())
                },
                None => !old(self)@.contains_key(pid) && final(self)@ == old(self)@,
            },
    {
        match self.queues.remove(&pid) {
            None => {
                assert(final(self)@ =~= old(self)@);
                None
            },
            Some(queue) => {
                let mut queue = queue;
                let traps = queue.restore_user_trap_info();
                self.queues.insert(pid, queue);
                assert(final(self)@ =~= old(self)@.insert(pid, Seq::<UserTrapRecord>::empty()));
                assert(final(self)@.dom() =~= old(self)@.dom());
                Some(traps)
            },
        }
    }
}

/// The queues once `record` was pushed for `pid`, whose queue holds up to
/// `capacity` records: the record is the last of that queue, unless `pid`
/// has none or it was full; no other queue changes.
pub open spec fn pushed(
    queues: Map<usize, Seq<UserTrapRecord>>,
    capacity: nat,
    pid: usize,
    record: UserTrapRecord,
) -> Map<usize, Seq<UserTrapRecord>> {
    if queues.contains_key(pid) {
        queues.insert(pid, after_push(queues[pid], capacity, record))
    } else {
        queues
    }
}

/// The queues once `op` was done, where `capacity_of` tells how many
/// records the queue of each process can hold: a push queues its record,
/// where it can; no other operation touches a queue.
pub open spec fn queues_after(
    queues: Map<usize, Seq<UserTrapRecord>>,
    capacity_of: spec_fn(usize) -> nat,
    op: Op,
) -> Map<usize, Seq<UserTrapRecord>> {
    match op {
        Op::PushTrapRecord { pid, record } => pushed(queues, capacity_of(pid), pid, record),
        _ => queues,
    }
}

/// The queues once each of `ops` was done, in order.
pub open spec fn queues_after_all(
    queues: Map<usize, Seq<UserTrapRecord>>,
    capacity_of: spec_fn(usize) -> nat,
    ops: Seq<Op>,
) -> Map<usize, Seq<UserTrapRecord>>
    decreases ops.len(),
{
    if ops.len() == 0 {
        queues
    } else {
        queues_after_all(queues_after(queues, capacity_of, ops[0]), capacity_of, ops.drop_first())
    }
}

/// The queues once each of `incoming` was pushed for `pid`, in order.
pub open spec fn pushed_all(
    queues: Map<usize, Seq<UserTrapRecord>>,
    capacity: nat,
    pid: usize,
    incoming: Seq<UserTrapRecord>,
) -> Map<usize, Seq<UserTrapRecord>>
    decreases incoming.len(),
{
    if incoming.len() == 0 {
        queues
    } else {
        pushed_all(pushed(queues, capacity, pid, incoming[0]), capacity, pid, incoming.drop_first())
    }
}

/// Why a push for `pid` fails, if it does, where the queue of `pid` holds up
/// to `capacity` records.
pub open spec fn push_error(
    queues: Map<usize, Seq<UserTrapRecord>>,
    capacity: nat,
    pid: usize,
) -> Option<UserTrapError> {
    if !queues.contains_key(pid) {
        Some(UserTrapError::TaskNotFound)
    } else if queues[pid].len() >= capacity {
        Some(UserTrapError::TrapBufferFull)
    } else {
        None
    }
}

/// Queues `record` for the process `pid`, which is not running.
pub fn push_trap_record(registry: &mut UserTrapRegistry, pid: usize, record: UserTrapRecord) -> (outcome:
    Result<(), UserTrapError>)
    requires
        old(registry).wf(),
    ensures
        final(registry).wf(),
        final(registry).same_processes(old(registry)),
        final(registry)@ == pushed(
            old(registry)@,
            old(registry).capacity_of(pid) as nat,
            pid,
            record,
        ),
        match outcome {
            Ok(_) => push_error(old(registry)@, old(registry).capacity_of(pid) as nat, pid) is None,
            Err(error) => push_error(old(registry)@, old(registry).capacity_of(pid) as nat, pid)
                == Some(error),
        },
{
    registry.push_trap_record(pid, record)
}

/// Records leave a queue in the order in which they were pushed: where the
/// queue has room for all of `incoming`, a drain hands out what was there
/// before, then `incoming`, and leaves nothing.
pub proof fn lemma_drain_is_fifo(
    records: Seq<UserTrapRecord>,
    capacity: nat,
    incoming: Seq<UserTrapRecord>,
)
    requires
        records.len() + incoming.len() <= capacity,
    ensures
        drain_of(after_pushes(records, capacity, incoming)) == (
            records + incoming,
            Seq::<UserTrapRecord>::empty(),
        ),
    decreases incoming.len(),
{
    if incoming.len() == 0 {
        assert(records + incoming =~= records);
    } else {
        let next = after_push(records, capacity, incoming[0]);
        lemma_drain_is_fifo(next, capacity, incoming.drop_first());
        assert(next + incoming.drop_first() =~= records + incoming);
    }
}

/// A second drain right after a drain hands out nothing and leaves nothing.
pub proof fn lemma_second_drain_is_empty(records: Seq<UserTrapRecord>)
    ensures
        drain_of(drain_of(records).1) == (
            Seq::<UserTrapRecord>::empty(),
            Seq::<UserTrapRecord>::empty(),
        ),
{
}

/// A queue that is full keeps what it has: a push changes nothing.
pub proof fn lemma_full_queue_refuses(
    records: Seq<UserTrapRecord>,
    capacity: nat,
    record: UserTrapRecord,
)
    requires
        records.len() >= capacity,
    ensures
        after_push(records, capacity, record) == records,
{
}

/// Pushes for a process that has a queue reach that queue alone, and reach
/// it as pushes on the queue itself do.
pub proof fn lemma_pushed_all(
    queues: Map<usize, Seq<UserTrapRecord>>,
    capacity: nat,
    pid: usize,
    incoming: Seq<UserTrapRecord>,
)
    requires
        queues.contains_key(pid),
    ensures
        pushed_all(queues, capacity, pid, incoming) == queues.insert(
            pid,
            after_pushes(queues[pid], capacity, incoming),
        ),
    decreases incoming.len(),
{
    if incoming.len() == 0 {
        assert(queues.insert(pid, queues[pid]) =~= queues);
    } else {
        let next = pushed(queues, capacity, pid, incoming[0]);
        lemma_pushed_all(next, capacity, pid, incoming.drop_first());
        assert(next.insert(pid, after_pushes(next[pid], capacity, incoming.drop_first()))
            =~= queues.insert(pid, after_pushes(queues[pid], capacity, incoming)));
    }
}

/// Doing a list of operations with one more at its end is doing the list,
/// then the one.
pub proof fn lemma_queues_after_all_push(
    queues: Map<usize, Seq<UserTrapRecord>>,
    capacity_of: spec_fn(usize) -> nat,
    ops: Seq<Op>,
    op: Op,
)
    ensures
        queues_after_all(queues, capacity_of, ops.push(op)) == queues_after(
            queues_after_all(queues, capacity_of, ops),
            capacity_of,
            op,
        ),
    decreases ops.len(),
{
    if ops.len() == 0 {
        assert(ops.push(op).drop_first() =~= ops);
        assert(queues_after_all(queues_after(queues, capacity_of, op), capacity_of, ops)
            == queues_after(queues, capacity_of, op));
    } else {
        assert(ops.push(op).drop_first() =~= ops.drop_first().push(op));
        assert(ops.push(op)[0] == ops[0]);
        lemma_queues_after_all_push(
            queues_after(queues, capacity_of, ops[0]),
            capacity_of,
            ops.drop_first(),
            op,
        );
    }
}

} // verus!
