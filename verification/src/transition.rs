//! The ways from the kernel into user mode, and the set-up of the hart's
//! trap registers.

use crate::bits::{bit_range, get_bits};
use crate::cause::{cause_of, classify};
use crate::config::{
    has_swap_context, swap_contex_va, swap_contex_va_spec, PAGE_SIZE, TRAMPOLINE, TRAP_CONTEXT,
};
use crate::hart::{lemma_after_all_push, raised_on, HartState};
use crate::ops::{Op, Resume, SwapContextSlot, SystemHalt};
use crate::usertrap::{
    lemma_drain_is_fifo, lemma_pushed_all, pending_of, pushed_all, UserPending, UserTrapRecord,
    UserTrapRegistry,
};
use vstd::prelude::*;

verus! {

/// Number of bits of an address-space token that hold the page number of
/// the root page table.
pub const PPN_BITS: u64 = 44;

/// The asid slot that [`trap_return1`] resumes.
pub const LEGACY_ASID: usize = 1;

/// What [`init`] does, where `kernel_entry` is the kernel's trap entry.
pub open spec fn init_ops(kernel_entry: usize) -> Seq<Op> {
    seq![
        Op::SieSetStimer,
        Op::SieSetSext,
        Op::SieSetSsoft,
        Op::SidelegSetUsoft,
        Op::SidelegSetUext,
        Op::SidelegSetUtimer,
        Op::ScounterenSetCy,
        Op::ScounterenSetTm,
        Op::ScounterenSetIr,
        Op::StvecWrite { addr: kernel_entry },
    ]
}

/// Sets up trap handling on a hart: enables the timer, external and
/// software interrupts of the supervisor, delegates those of the user,
/// opens the three counters to user mode, and points the trap vector at
/// `kernel_entry`, the handler of traps that are taken in the kernel.
pub fn init(kernel_entry: usize) -> (ops: Vec<Op>)
    ensures
        ops@ == init_ops(kernel_entry),
        forall|hart: HartState| #[trigger]
            hart.after_all(ops@) == (HartState {
                sie_stimer: true,
                sie_sext: true,
                sie_ssoft: true,
                sideleg_usoft: true,
                sideleg_uext: true,
                sideleg_utimer: true,
                scounteren_cy: true,
                scounteren_tm: true,
                scounteren_ir: true,
                stvec: kernel_entry,
                ..hart
            }),
{
    let mut ops: Vec<Op> = Vec::new();
    ops.push(Op::SieSetStimer);
    ops.push(Op::SieSetSext);
    ops.push(Op::SieSetSsoft);
    ops.push(Op::SidelegSetUsoft);
    ops.push(Op::SidelegSetUext);
    ops.push(Op::SidelegSetUtimer);
    ops.push(Op::ScounterenSetCy);
    ops.push(Op::ScounterenSetTm);
    ops.push(Op::ScounterenSetIr);
    ops.push(set_kernel_trap_entry(kernel_entry));
    assert(ops@ =~= init_ops(kernel_entry));
    proof {
        assert forall|hart: HartState| #[trigger]
            hart.after_all(ops@) == (HartState {
                sie_stimer: true,
                sie_sext: true,
                sie_ssoft: true,
                sideleg_usoft: true,
                sideleg_uext: true,
                sideleg_utimer: true,
                scounteren_cy: true,
                scounteren_tm: true,
                scounteren_ir: true,
                stvec: kernel_entry,
                ..hart
            }) by {
            lemma_init_sets_up_traps(hart, kernel_entry);
        }
    }
    ops
}

/// Points the trap vector at `kernel_entry`: a trap that is taken while
/// the kernel handles one is the kernel's own.
pub fn set_kernel_trap_entry(kernel_entry: usize) -> (op: Op)
    ensures
        op == (Op::StvecWrite { addr: kernel_entry }),
{
    Op::StvecWrite { addr: kernel_entry }
}

/// Points the trap vector at the trampoline, where traps from user mode enter.
pub fn set_user_trap_entry() -> (op: Op)
    ensures
        op == (Op::StvecWrite { addr: TRAMPOLINE }),
{
    Op::StvecWrite { addr: TRAMPOLINE }
}

/// Enables the timer interrupt of the supervisor.
pub fn enable_timer_interrupt() -> (op: Op)
    ensures
        op == Op::SieSetStimer,
{
    Op::SieSetStimer
}

/// The halt for a trap that was taken while the kernel ran, from the cause
/// register, the trap value and the program counter of the trap.
pub fn trap_from_kernel(scause: usize, stval: usize, sepc: usize) -> (halt: SystemHalt)
    ensures
        halt == (SystemHalt::KernelTrap { cause: cause_of(scause), stval, sepc }),
{
    SystemHalt::KernelTrap { cause: classify(scause), stval, sepc }
}

/// Whether the trampoline code, entered at `alltraps`, holds the restore
/// routine at `restore`: behind the entry and within the same page.
pub open spec fn trampoline_holds(alltraps: usize, restore: usize) -> bool {
    alltraps <= restore && restore - alltraps < PAGE_SIZE
}

/// The address of the restore routine in the trampoline page, where the
/// kernel has the trampoline's entry at `alltraps` and the routine at
/// `restore`: as far behind the page's base as the routine is behind the entry.
pub open spec fn restore_va_spec(alltraps: usize, restore: usize) -> int {
    TRAMPOLINE + (restore - alltraps)
}

/// The kernel's copy of the trampoline code: the address of its entry and
/// that of the restore routine in it, which lies behind the entry and
/// within the same page.
#[derive(Clone, Copy, Debug)]
pub struct Trampoline {
    alltraps: usize,
    restore: usize,
}

impl Trampoline {
    #[verifier::type_invariant]
    spec fn holds(self) -> bool {
        trampoline_holds(self.alltraps, self.restore)
    }

    /// The address of the trampoline's entry in the kernel.
    pub closed spec fn alltraps_spec(&self) -> usize {
        self.alltraps
    }

    /// The address of the restore routine in the kernel.
    pub closed spec fn restore_spec(&self) -> usize {
        self.restore
    }

    /// The invariant: the restore routine lies behind the entry, within
    /// the same page.
    pub open spec fn wf(&self) -> bool {
        trampoline_holds(self.alltraps_spec(), self.restore_spec())
    }

    /// The address of the restore routine in the trampoline page.
    pub open spec fn restore_va_spec(&self) -> int {
        restore_va_spec(self.alltraps_spec(), self.restore_spec())
    }

    /// The trampoline with its entry at `alltraps` and its restore routine
    /// at `restore`; `None` where the routine does not lie behind the entry
    /// within the same page.
    pub fn new(alltraps: usize, restore: usize) -> (trampoline: Option<Self>)
        ensures
            trampoline is Some <==> trampoline_holds(alltraps, restore),
            trampoline matches Some(found) ==> found.wf() && found.alltraps_spec() == alltraps
                && found.restore_spec() == restore,
    {
        if alltraps <= restore && restore - alltraps < PAGE_SIZE {
            Some(Trampoline { alltraps, restore })
        } else {
            None
        }
    }

    /// The address to jump to in order to leave the kernel. It is the same
    /// in every address space.
    pub fn restore_va(&self) -> (va: usize)
        ensures
            self.wf(),
            va == self.restore_va_spec(),
    {
        proof {
            use_type_invariant(self);
        }
        self.restore - self.alltraps + TRAMPOLINE
    }
}

/// What a task that resumes through [`trap_return`] is handed: the records
/// that were queued for it, oldest first, and what is to be done on the hart.
#[derive(Debug)]
pub struct TrapReturn {
    pub delivered: Vec<UserTrapRecord>,
    pub ops: Vec<Op>,
}

/// The records that wait for `pid` in `queues`.
pub open spec fn waiting_for(queues: Map<usize, Seq<UserTrapRecord>>, pid: usize) -> Seq<
    UserTrapRecord,
> {
    if queues.contains_key(pid) {
        queues[pid]
    } else {
        Seq::<UserTrapRecord>::empty()
    }
}

/// `queues` once `pid` has taken what waited for it.
pub open spec fn taken_by(queues: Map<usize, Seq<UserTrapRecord>>, pid: usize) -> Map<
    usize,
    Seq<UserTrapRecord>,
> {
    if queues.contains_key(pid) {
        queues.insert(pid, Seq::<UserTrapRecord>::empty())
    } else {
        queues
    }
}

/// What [`trap_return`] does on the hart for a task to which `delivered`
/// was handed and whose address space has the token `user_satp`.
pub open spec fn trap_return_ops(
    delivered: Seq<UserTrapRecord>,
    user_satp: usize,
    alltraps: usize,
    restore: usize,
) -> Seq<Op> {
    seq![
        Op::SstatusClearSie,
        Op::RaisePending(pending_of(delivered)),
        Op::StvecWrite { addr: TRAMPOLINE },
        Op::SstatusSetSpie,
        Op::SstatusSetSppUser,
        Op::Jump(
            Resume {
                restore_va: restore_va_spec(alltraps, restore) as usize,
                trap_cx_ptr: TRAP_CONTEXT,
                user_satp,
            },
        ),
    ]
}

/// Resumes the task `current` after a trap: interrupts go off, the task
/// takes the records that were queued for it and they become pending
/// interrupts of its own, the trap vector goes to the trampoline, and the
/// hart jumps into user mode with the task's trap context and the token
/// `user_satp` of its address space, interrupts enabled behind the jump.
pub fn trap_return(
    registry: &mut UserTrapRegistry,
    current: usize,
    user_satp: usize,
    trampoline: &Trampoline,
) -> (resumed: TrapReturn)
    requires
        old(registry).wf(),
    ensures
        final(registry).wf(),
        final(registry).same_processes(old(registry)),
        final(registry)@ == taken_by(old(registry)@, current),
        resumed.delivered@ == waiting_for(old(registry)@, current),
        resumed.ops@ == trap_return_ops(
            resumed.delivered@,
            user_satp,
            trampoline.alltraps_spec(),
            trampoline.restore_spec(),
        ),
        forall|hart: HartState| #[trigger]
            hart.after_all(resumed.ops@) == (HartState {
                sstatus_sie: false,
                sstatus_spie: true,
                sstatus_spp_user: true,
                stvec: TRAMPOLINE,
                pending: raised_on(hart.pending, pending_of(resumed.delivered@)),
                ..hart
            }),
{
    let mut ops: Vec<Op> = Vec::new();
    ops.push(Op::SstatusClearSie);
    let (delivered, pending) = match registry.restore_user_trap_info(current) {
        Some(traps) => (traps.records, traps.pending),
        None => {
            let none: Vec<UserTrapRecord> = Vec::new();
            assert(pending_of(none@) == UserPending { soft: false, timer: false, external: false });
            (none, UserPending { soft: false, timer: false, external: false })
        },
    };
    ops.push(Op::RaisePending(pending));
    ops.push(set_user_trap_entry());
    ops.push(Op::SstatusSetSpie);
    ops.push(Op::SstatusSetSppUser);
    ops.push(
        Op::Jump(
            Resume {
                restore_va: trampoline.restore_va(),
                trap_cx_ptr: TRAP_CONTEXT,
                user_satp,
            },
        ),
    );
    assert(ops@ =~= trap_return_ops(
        delivered@,
        user_satp,
        trampoline.alltraps_spec(),
        trampoline.restore_spec(),
    ));
    proof {
        assert forall|hart: HartState| #[trigger]
            hart.after_all(ops@) == (HartState {
                sstatus_sie: false,
                sstatus_spie: true,
                sstatus_spp_user: true,
                stvec: TRAMPOLINE,
                pending: raised_on(hart.pending, pending_of(delivered@)),
                ..hart
            }) by {
            lemma_trap_return_leaves_for_user(
                hart,
                delivered@,
                user_satp,
                trampoline.alltraps_spec(),
                trampoline.restore_spec(),
            );
        }
    }
    TrapReturn { delivered, ops }
}

/// The jump into the address space with the token `satp` and the swap
/// context of `asid`.
pub open spec fn resume_of(satp: usize, asid: usize, alltraps: usize, restore: usize) -> Resume {
    Resume {
        restore_va: restore_va_spec(alltraps, restore) as usize,
        trap_cx_ptr: swap_contex_va_spec(asid) as usize,
        user_satp: satp,
    }
}

/// The low `PPN_BITS` bits of the token `satp`: the page number of the
/// root page table.
pub open spec fn root_ppn_of(satp: usize) -> u64 {
    (satp as u64 % 0x1000_0000_0000) as u64
}

/// The place of the swap context of `asid` in the address space `satp`.
pub open spec fn swap_slot(satp: usize, asid: usize) -> SwapContextSlot {
    SwapContextSlot { satp, root_ppn: root_ppn_of(satp), va: swap_contex_va_spec(asid) as usize }
}

proof fn lemma_low_bits(value: u64)
    by (bit_vector)
    ensures
        ((value << 20u64) >> 20u64) >> 0u64 == value % 0x1000_0000_0000u64,
{
}

/// Names the swap context of `asid` in the address space with the token
/// `satp`. The context itself is found through the page table.
pub fn get_swap_cx(satp: usize, asid: usize) -> (slot: SwapContextSlot)
    requires
        has_swap_context(asid),
    ensures
        slot == swap_slot(satp, asid),
{
    let root_ppn = get_bits(satp as u64, 0, PPN_BITS);
    proof {
        lemma_low_bits(satp as u64);
        assert(bit_range(satp as u64, 0, 44) == root_ppn_of(satp));
    }
    SwapContextSlot { satp, root_ppn, va: swap_contex_va(asid) }
}

/// What [`switch_to_user`] does on the hart.
pub open spec fn switch_to_user_ops(satp: usize, asid: usize, alltraps: usize, restore: usize) -> Seq<
    Op,
> {
    seq![
        Op::StvecWrite { addr: TRAMPOLINE },
        Op::ResolveSwapContext(swap_slot(satp, asid)),
        Op::SstatusSetSppUser,
        Op::Jump(resume_of(satp, asid, alltraps, restore)),
    ]
}

/// Resumes the address space with the token `satp` in the swap context of
/// `asid`, whatever task is running: the trap vector goes to the
/// trampoline, the swap context is looked up, and the hart jumps into user
/// mode, whatever mode it had trapped from.
pub fn switch_to_user(satp: usize, asid: usize, trampoline: &Trampoline) -> (ops: Vec<Op>)
    requires
        has_swap_context(asid),
    ensures
        ops@ == switch_to_user_ops(
            satp,
            asid,
            trampoline.alltraps_spec(),
            trampoline.restore_spec(),
        ),
        forall|hart: HartState| #[trigger]
            hart.after_all(ops@) == (HartState {
                sstatus_spp_user: true,
                stvec: TRAMPOLINE,
                ..hart
            }),
{
    let mut ops: Vec<Op> = Vec::new();
    ops.push(set_user_trap_entry());
    ops.push(Op::ResolveSwapContext(get_swap_cx(satp, asid)));
    ops.push(Op::SstatusSetSppUser);
    ops.push(
        Op::Jump(
            Resume {
                restore_va: trampoline.restore_va(),
                trap_cx_ptr: swap_contex_va(asid),
                user_satp: satp,
            },
        ),
    );
    assert(ops@ =~= switch_to_user_ops(
        satp,
        asid,
        trampoline.alltraps_spec(),
        trampoline.restore_spec(),
    ));
    proof {
        assert forall|hart: HartState| #[trigger]
            hart.after_all(ops@) == (HartState {
                sstatus_spp_user: true,
                stvec: TRAMPOLINE,
                ..hart
            }) by {
            lemma_switch_to_user_leaves_for_user(
                hart,
                satp,
                asid,
                trampoline.alltraps_spec(),
                trampoline.restore_spec(),
            );
        }
    }
    ops
}

/// What [`trap_return1`] does on the hart.
pub open spec fn trap_return1_ops(user_satp: usize, alltraps: usize, restore: usize) -> Seq<Op> {
    seq![
        Op::StvecWrite { addr: TRAMPOLINE },
        Op::SstatusSetSppUser,
        Op::Jump(resume_of(user_satp, LEGACY_ASID, alltraps, restore)),
    ]
}

/// Resumes the running task, whose address space has the token
/// `user_satp`, in the swap context of the asid slot 1. `space_id` is not
/// looked at: the slot is fixed.
pub fn trap_return1(space_id: usize, user_satp: usize, trampoline: &Trampoline) -> (ops: Vec<Op>)
    ensures
        ops@ == trap_return1_ops(
            user_satp,
            trampoline.alltraps_spec(),
            trampoline.restore_spec(),
        ),
        forall|hart: HartState| #[trigger]
            hart.after_all(ops@) == (HartState {
                sstatus_spp_user: true,
                stvec: TRAMPOLINE,
                ..hart
            }),
{
    let mut ops: Vec<Op> = Vec::new();
    ops.push(set_user_trap_entry());
    ops.push(Op::SstatusSetSppUser);
    ops.push(
        Op::Jump(
            Resume {
                restore_va: trampoline.restore_va(),
                trap_cx_ptr: swap_contex_va(LEGACY_ASID),
                user_satp,
            },
        ),
    );
    assert(ops@ =~= trap_return1_ops(
        user_satp,
        trampoline.alltraps_spec(),
        trampoline.restore_spec(),
    ));
    proof {
        assert forall|hart: HartState| #[trigger]
            hart.after_all(ops@) == (HartState {
                sstatus_spp_user: true,
                stvec: TRAMPOLINE,
                ..hart
            }) by {
            lemma_trap_return1_leaves_for_user(
                hart,
                user_satp,
                trampoline.alltraps_spec(),
                trampoline.restore_spec(),
            );
        }
    }
    ops
}

/// Whatever the registers held, after [`init`] the three interrupts of the
/// supervisor are enabled, the three of the user are delegated, the three
/// counters are open to user mode, and the trap vector points at
/// `kernel_entry`; nothing else has changed.
pub proof fn lemma_init_sets_up_traps(hart: HartState, kernel_entry: usize)
    ensures
        hart.after_all(init_ops(kernel_entry)) == (HartState {
            sie_stimer: true,
            sie_sext: true,
            sie_ssoft: true,
            sideleg_usoft: true,
            sideleg_uext: true,
            sideleg_utimer: true,
            scounteren_cy: true,
            scounteren_tm: true,
            scounteren_ir: true,
            stvec: kernel_entry,
            ..hart
        }),
{
    reveal_with_fuel(HartState::after_all, 11);
    let ops = init_ops(kernel_entry);
    let s1 = ops.drop_first();
    let s2 = s1.drop_first();
    let s3 = s2.drop_first();
    let s4 = s3.drop_first();
    let s5 = s4.drop_first();
    let s6 = s5.drop_first();
    let s7 = s6.drop_first();
    let s8 = s7.drop_first();
    let s9 = s8.drop_first();
    let s10 = s9.drop_first();
    assert(s10.len() == 0);
}

/// Whatever the registers held, after [`trap_return`] interrupts are off
/// in the kernel and come on behind the jump, the hart returns into user
/// mode, the trap vector points at the trampoline, and the interrupts that
/// `delivered` stands for are pending beside those that were; nothing
/// else has changed.
pub proof fn lemma_trap_return_leaves_for_user(
    hart: HartState,
    delivered: Seq<UserTrapRecord>,
    user_satp: usize,
    alltraps: usize,
    restore: usize,
)
    ensures
        hart.after_all(trap_return_ops(delivered, user_satp, alltraps, restore)) == (HartState {
            sstatus_sie: false,
            sstatus_spie: true,
            sstatus_spp_user: true,
            stvec: TRAMPOLINE,
            pending: raised_on(hart.pending, pending_of(delivered)),
            ..hart
        }),
{
    let ops = trap_return_ops(delivered, user_satp, alltraps, restore);
    let none = Seq::<Op>::empty();
    let done1 = none.push(ops[0]);
    let done2 = done1.push(ops[1]);
    let done3 = done2.push(ops[2]);
    let done4 = done3.push(ops[3]);
    let done5 = done4.push(ops[4]);
    let done6 = done5.push(ops[5]);
    assert(done6 =~= ops);
    lemma_after_all_push(hart, none, ops[0]);
    lemma_after_all_push(hart, done1, ops[1]);
    lemma_after_all_push(hart, done2, ops[2]);
    lemma_after_all_push(hart, done3, ops[3]);
    lemma_after_all_push(hart, done4, ops[4]);
    lemma_after_all_push(hart, done5, ops[5]);
}

/// [`trap_return1`] is [`switch_to_user`] for the asid slot 1, but for the
/// look-up of the swap context: the other operations are the same, in the
/// same order.
pub proof fn lemma_trap_return1_is_switch_to_slot_one(
    user_satp: usize,
    alltraps: usize,
    restore: usize,
)
    ensures
        trap_return1_ops(user_satp, alltraps, restore) == switch_to_user_ops(
            user_satp,
            LEGACY_ASID,
            alltraps,
            restore,
        ).remove(1),
        switch_to_user_ops(user_satp, LEGACY_ASID, alltraps, restore)[1] is ResolveSwapContext,
{
    assert(trap_return1_ops(user_satp, alltraps, restore) =~= switch_to_user_ops(
        user_satp,
        LEGACY_ASID,
        alltraps,
        restore,
    ).remove(1));
}

/// Whatever the registers held, and whatever mode the hart had trapped
/// from, after [`switch_to_user`] the hart returns into user mode and the
/// trap vector points at the trampoline; nothing else has changed.
pub proof fn lemma_switch_to_user_leaves_for_user(
    hart: HartState,
    satp: usize,
    asid: usize,
    alltraps: usize,
    restore: usize,
)
    ensures
        hart.after_all(switch_to_user_ops(satp, asid, alltraps, restore)) == (HartState {
            sstatus_spp_user: true,
            stvec: TRAMPOLINE,
            ..hart
        }),
{
    let ops = switch_to_user_ops(satp, asid, alltraps, restore);
    let none = Seq::<Op>::empty();
    let done1 = none.push(ops[0]);
    let done2 = done1.push(ops[1]);
    let done3 = done2.push(ops[2]);
    let done4 = done3.push(ops[3]);
    assert(done4 =~= ops);
    lemma_after_all_push(hart, none, ops[0]);
    lemma_after_all_push(hart, done1, ops[1]);
    lemma_after_all_push(hart, done2, ops[2]);
    lemma_after_all_push(hart, done3, ops[3]);
}

/// Whatever the registers held, after [`trap_return1`] the hart returns
/// into user mode and the trap vector points at the trampoline; nothing
/// else has changed.
pub proof fn lemma_trap_return1_leaves_for_user(
    hart: HartState,
    user_satp: usize,
    alltraps: usize,
    restore: usize,
)
    ensures
        hart.after_all(trap_return1_ops(user_satp, alltraps, restore)) == (HartState {
            sstatus_spp_user: true,
            stvec: TRAMPOLINE,
            ..hart
        }),
{
    let ops = trap_return1_ops(user_satp, alltraps, restore);
    let none = Seq::<Op>::empty();
    let done1 = none.push(ops[0]);
    let done2 = done1.push(ops[1]);
    let done3 = done2.push(ops[2]);
    assert(done3 =~= ops);
    lemma_after_all_push(hart, none, ops[0]);
    lemma_after_all_push(hart, done1, ops[1]);
    lemma_after_all_push(hart, done2, ops[2]);
}

/// A task that resumes is handed what was pushed for it, in the order of
/// the pushes, where its queue had room for all of it; its queue is then
/// empty, and every other queue is as it was before the pushes.
pub proof fn lemma_trap_return_delivers_in_order(
    queues: Map<usize, Seq<UserTrapRecord>>,
    capacity: nat,
    pid: usize,
    incoming: Seq<UserTrapRecord>,
)
    requires
        queues.contains_key(pid),
        queues[pid].len() + incoming.len() <= capacity,
    ensures
        waiting_for(pushed_all(queues, capacity, pid, incoming), pid) == queues[pid] + incoming,
        taken_by(pushed_all(queues, capacity, pid, incoming), pid) == queues.insert(
            pid,
            Seq::<UserTrapRecord>::empty(),
        ),
{
    lemma_pushed_all(queues, capacity, pid, incoming);
    lemma_drain_is_fifo(queues[pid], capacity, incoming);
    assert(taken_by(pushed_all(queues, capacity, pid, incoming), pid) =~= queues.insert(
        pid,
        Seq::<UserTrapRecord>::empty(),
    ));
}

/// A task that resumes a second time, with nothing pushed for it in
/// between, is handed nothing: no record is delivered twice, the queues
/// stay as the first time left them, and so do the pending interrupts.
pub proof fn lemma_second_trap_return_delivers_nothing(
    queues: Map<usize, Seq<UserTrapRecord>>,
    pid: usize,
    hart: HartState,
)
    ensures
        waiting_for(taken_by(queues, pid), pid) == Seq::<UserTrapRecord>::empty(),
        taken_by(taken_by(queues, pid), pid) == taken_by(queues, pid),
        hart.after(Op::RaisePending(pending_of(waiting_for(taken_by(queues, pid), pid)))) == hart,
{
    assert(taken_by(taken_by(queues, pid), pid) =~= taken_by(queues, pid));
}

/// The three ways into user mode jump to the same address, whatever
/// address space they enter: it lies in the trampoline page.
pub proof fn lemma_one_jump_target(alltraps: usize, restore: usize)
    requires
        trampoline_holds(alltraps, restore),
    ensures
        TRAMPOLINE <= restore_va_spec(alltraps, restore) <= usize::MAX,
        restore_va_spec(alltraps, restore) - TRAMPOLINE == restore - alltraps,
{
}

} // verus!
