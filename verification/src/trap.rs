//! The trap dispatcher: what the kernel does about each trap.

use crate::cause::{cause_of, classify, Exception, Interrupt, Trap};
use crate::context::{TrapContext, ECALL_LENGTH};
use crate::hart::{lemma_after_all_push, lemma_trap_vector_is_kept, HartState};
use crate::ops::{Op, SystemHalt, ILLEGAL_INSTRUCTION_EXIT_CODE, PAGE_FAULT_EXIT_CODE};
use crate::timer::{comparator_for, is_earliest, TimerMultiplexer};
use crate::usertrap::{
    lemma_queues_after_all_push, queues_after_all, UserTrapRecord, USER_TIMER_CAUSE,
};
use vstd::prelude::*;

verus! {

/// The process id that stands for the kernel's own periodic tick.
pub const KERNEL_PID: usize = 0;

/// To whom a deadline that fired is delivered.
#[derive(Clone, Copy, Debug, PartialEq, Eq, Structural)]
pub enum TimerDelivery {
    /// The kernel's tick: the hart is given to the scheduler.
    KernelTick,
    /// The running task: its user timer interrupt is made pending.
    SelfDelivery,
    /// Another process: this record is to be queued for it.
    Forwarded(UserTrapRecord),
}

/// A deadline that fired.
#[derive(Clone, Copy, Debug, PartialEq, Eq, Structural)]
pub struct TimerFired {
    /// The deadline that was the earliest.
    pub deadline: usize,
    /// The process that waited for it.
    pub pid: usize,
    /// The deadline that the comparator is to be programmed to: the
    /// earliest that is left, if one is.
    pub reprogram: Option<usize>,
    /// To whom the event goes.
    pub delivery: TimerDelivery,
}

/// The record that tells a process that its deadline fired at `now`.
pub open spec fn timer_record(now: usize) -> UserTrapRecord {
    UserTrapRecord { cause: USER_TIMER_CAUSE, message: now }
}

/// To whom a deadline of `pid` is delivered at `now`, while `current` is
/// the task that runs, if one does: to the kernel for its own id, to the
/// running task for its own, and else into the queue of `pid`.
pub open spec fn delivery_of(pid: usize, current: Option<usize>, now: usize) -> TimerDelivery {
    if pid == KERNEL_PID {
        TimerDelivery::KernelTick
    } else if current == Some(pid) {
        TimerDelivery::SelfDelivery
    } else {
        TimerDelivery::Forwarded(timer_record(now))
    }
}

/// Whether the earliest deadline of `entries` is that of a process: to
/// deliver it, the running task has to be known.
pub open spec fn wants_current(entries: Map<usize, usize>) -> bool {
    exists|deadline: usize| is_earliest(entries, deadline) && entries[deadline] != KERNEL_PID
}

/// Whether `fired` and the multiplexer after it are what a timer interrupt
/// at `now` makes of the multiplexer before it, while `current` runs: the
/// earliest deadline leaves, the comparator goes to the next, and the
/// event goes to the kernel, to the running task or to the process that
/// waited.
pub open spec fn timer_interrupt_handled(
    timer: TimerMultiplexer,
    timer_after: TimerMultiplexer,
    current: Option<usize>,
    now: usize,
    fired: Option<TimerFired>,
) -> bool {
    &&& timer_after.wf()
    &&& match fired {
        None => timer@ == Map::<usize, usize>::empty() && timer_after@ == timer@,
        Some(fired) => {
            &&& is_earliest(timer@, fired.deadline)
            &&& timer@[fired.deadline] == fired.pid
            &&& timer_after@ == timer@.remove(fired.deadline)
            &&& fired.reprogram == timer_after.comparator_spec()
            &&& comparator_for(timer_after@, fired.reprogram)
            &&& fired.delivery == delivery_of(fired.pid, current, now)
        },
    }
}

/// Handles the timer interrupt of a hart at the time `now`, while the task
/// `current` runs on it, if one does: pops the earliest deadline of the
/// hart, moves the comparator on, and tells to whom the event goes. One
/// deadline is handled at a time. The running task has to be known where
/// the deadline is that of a process.
pub fn handle_timer_interrupt(
    timer: &mut TimerMultiplexer,
    current: Option<usize>,
    now: usize,
) -> (fired: Option<TimerFired>)
    requires
        old(timer).wf(),
        wants_current(old(timer)@) ==> current is Some,
    ensures
        timer_interrupt_handled(*old(timer), *final(timer), current, now, fired),
{
    match timer.pop_earliest() {
        None => None,
        Some((deadline, pid)) => {
            let reprogram = timer.comparator();
            let delivery = if pid == KERNEL_PID {
                TimerDelivery::KernelTick
            } else {
                match current {
                    Some(running) => {
                        if pid == running {
                            TimerDelivery::SelfDelivery
                        } else {
                            TimerDelivery::Forwarded(
                                UserTrapRecord { cause: USER_TIMER_CAUSE, message: now },
                            )
                        }
                    },
                    None => {
                        assert(is_earliest(old(timer)@, deadline));
                        TimerDelivery::Forwarded(
                            UserTrapRecord { cause: USER_TIMER_CAUSE, message: now },
                        )
                    },
                }
            };
            Some(TimerFired { deadline, pid, reprogram, delivery })
        },
    }
}

/// The operations that program the comparator to `reprogram`, if it is a
/// deadline.
pub open spec fn program_ops(reprogram: Option<usize>) -> Seq<Op> {
    match reprogram {
        Some(deadline) => seq![Op::SetTimer { deadline }],
        None => Seq::<Op>::empty(),
    }
}

/// The operations that deliver a deadline of `pid`.
pub open spec fn delivery_ops(pid: usize, delivery: TimerDelivery) -> Seq<Op> {
    match delivery {
        TimerDelivery::KernelTick => seq![
            Op::SetNextTrigger,
            Op::CpuRun,
            Op::SuspendCurrentAndRunNext,
        ],
        TimerDelivery::SelfDelivery => seq![Op::SipSetUtimer],
        TimerDelivery::Forwarded(record) => seq![Op::PushTrapRecord { pid, record }],
    }
}

/// What is left to do once a timer interrupt was handled: program the
/// comparator, if a deadline is left, then deliver the event. The
/// multiplexer is not touched again, so its lock can be given up first.
pub open spec fn timer_ops(fired: Option<TimerFired>) -> Seq<Op> {
    match fired {
        None => Seq::<Op>::empty(),
        Some(fired) => program_ops(fired.reprogram) + delivery_ops(fired.pid, fired.delivery),
    }
}

/// Whether `exception` is a fault of a load, a store or an instruction
/// fetch: an access fault or a page fault.
pub open spec fn is_memory_fault(exception: Exception) -> bool {
    ||| exception == Exception::StoreFault
    ||| exception == Exception::StorePageFault
    ||| exception == Exception::InstructionFault
    ||| exception == Exception::InstructionPageFault
    ||| exception == Exception::LoadFault
    ||| exception == Exception::LoadPageFault
}

/// The exit code with which a task is terminated for `exception`, where it is.
pub open spec fn exit_code_of(exception: Exception) -> Option<i32> {
    if is_memory_fault(exception) {
        Some(PAGE_FAULT_EXIT_CODE)
    } else if exception == Exception::IllegalInstruction {
        Some(ILLEGAL_INSTRUCTION_EXIT_CODE)
    } else {
        None
    }
}

/// Whether a trap by `cause` is a timer interrupt of the supervisor.
pub open spec fn is_timer_interrupt(cause: Trap) -> bool {
    cause == Trap::Interrupt(Interrupt::SupervisorTimer)
}

/// Whether a trap by `cause` is a system call.
pub open spec fn is_syscall(cause: Trap) -> bool {
    cause == Trap::Exception(Exception::UserEnvCall)
}

/// Whether the dispatcher looks at the user registers for a trap by
/// `cause`: for a system call, and for a fault that ends the task.
pub open spec fn reads_trap_context(cause: Trap) -> bool {
    match cause {
        Trap::Exception(exception) => exception == Exception::UserEnvCall || exit_code_of(
            exception,
        ) is Some,
        Trap::Interrupt(_) => false,
    }
}

/// Whether the dispatcher has to know the running task for a trap by
/// `cause`, where `entries` are the deadlines of the hart: for a timer
/// interrupt that finds the deadline of a process.
pub open spec fn reads_current(cause: Trap, entries: Map<usize, usize>) -> bool {
    is_timer_interrupt(cause) && wants_current(entries)
}

/// What the dispatcher does about a trap once the trap vector points at
/// the kernel: `stval` is the trap value, `hart` the hart, `cx` the user
/// registers as they were, where they are looked at, and `fired` what the
/// timer interrupt, if it was one, came to.
pub open spec fn handling_ops(
    cause: Trap,
    stval: usize,
    hart: usize,
    cx: Option<TrapContext>,
    fired: Option<TimerFired>,
) -> Seq<Op> {
    match cause {
        Trap::Exception(Exception::UserEnvCall) => seq![
            Op::Syscall(cx->0.syscall_request()),
            Op::TrapReturn,
        ],
        Trap::Exception(exception) => match exit_code_of(exception) {
            Some(code) => seq![
                Op::ReportFault { cause: exception, stval, sepc: cx->0.sepc },
                Op::ExitCurrentAndRunNext { code },
                Op::TrapReturn,
            ],
            None => seq![Op::Halt(SystemHalt::UnsupportedTrap { cause, stval })],
        },
        Trap::Interrupt(Interrupt::SupervisorTimer) => timer_ops(fired).push(Op::TrapReturn),
        Trap::Interrupt(Interrupt::SupervisorExternal) => seq![
            Op::HandleExternalInterrupt { hart },
            Op::TrapReturn,
        ],
        Trap::Interrupt(Interrupt::SupervisorSoft) => seq![Op::SipClearSsoft, Op::TrapReturn],
        Trap::Interrupt(_) => seq![Op::Halt(SystemHalt::UnsupportedTrap { cause, stval })],
    }
}

/// What the kernel does about a trap, from its first action on: it points
/// the trap vector at `kernel_entry`, so that a trap taken from here on is
/// the kernel's own, and then handles the trap.
pub open spec fn trap_ops(
    kernel_entry: usize,
    cause: Trap,
    stval: usize,
    hart: usize,
    cx: Option<TrapContext>,
    fired: Option<TimerFired>,
) -> Seq<Op> {
    seq![Op::StvecWrite { addr: kernel_entry }] + handling_ops(cause, stval, hart, cx, fired)
}

/// The user registers once a trap by `cause` was dispatched: a system call
/// moves the program counter past the call; nothing else changes.
pub open spec fn context_after(cause: Trap, cx: Option<TrapContext>) -> Option<TrapContext> {
    match cx {
        Some(registers) => if is_syscall(cause) {
            Some(
                TrapContext {
                    sepc: (registers.sepc + ECALL_LENGTH) as usize,
                    ..registers
                },
            )
        } else {
            Some(registers)
        },
        None => None,
    }
}

/// The operations that follow a timer interrupt that came to `fired`.
pub fn plan_timer(fired: &Option<TimerFired>) -> (ops: Vec<Op>)
    ensures
        ops@ == timer_ops(*fired),
{
    let mut ops: Vec<Op> = Vec::new();
    match fired {
        None => {},
        Some(fired) => {
            match fired.reprogram {
                Some(deadline) => {
                    ops.push(Op::SetTimer { deadline });
                },
                None => {},
            }
            match fired.delivery {
                TimerDelivery::KernelTick => {
                    ops.push(Op::SetNextTrigger);
                    ops.push(Op::CpuRun);
                    ops.push(Op::SuspendCurrentAndRunNext);
                },
                TimerDelivery::SelfDelivery => {
                    ops.push(Op::SipSetUtimer);
                },
                TimerDelivery::Forwarded(record) => {
                    ops.push(Op::PushTrapRecord { pid: fired.pid, record });
                },
            }
        },
    }
    assert(ops@ =~= timer_ops(*fired));
    ops
}

/// Tells whether the dispatcher looks at the user registers for a trap
/// with the cause register `scause`.
pub fn needs_trap_context(scause: usize) -> (needed: bool)
    ensures
        needed == reads_trap_context(cause_of(scause)),
{
    match classify(scause) {
        Trap::Exception(Exception::UserEnvCall)
        | Trap::Exception(Exception::StoreFault)
        | Trap::Exception(Exception::StorePageFault)
        | Trap::Exception(Exception::InstructionFault)
        | Trap::Exception(Exception::InstructionPageFault)
        | Trap::Exception(Exception::LoadFault)
        | Trap::Exception(Exception::LoadPageFault)
        | Trap::Exception(Exception::IllegalInstruction) => true,
        _ => false,
    }
}

/// Tells whether the dispatcher has to know the running task for a trap
/// with the cause register `scause`, where `timer` holds the deadlines of
/// the hart.
pub fn needs_current(scause: usize, timer: &TimerMultiplexer) -> (needed: bool)
    requires
        timer.wf(),
    ensures
        needed == reads_current(cause_of(scause), timer@),
{
    match classify(scause) {
        Trap::Interrupt(Interrupt::SupervisorTimer) => {
            match timer.comparator() {
                Some(deadline) => {
                    let needed = match timer.owner_of(deadline) {
                        Some(pid) => pid != KERNEL_PID,
                        None => false,
                    };
                    assert(needed == wants_current(timer@)) by {
                        if wants_current(timer@) {
                            let other = choose|other: usize|
                                is_earliest(timer@, other) && timer@[other] != KERNEL_PID;
                            assert(other == deadline);
                        }
                    }
                    needed
                },
                None => false,
            }
        },
        _ => false,
    }
}

/// What the dispatcher came to: the operations to be done, in order, the
/// deadline that fired, if the trap was a timer interrupt and a deadline
/// was there, and the user registers as they are to be kept.
#[derive(Debug)]
pub struct Dispatched {
    pub ops: Vec<Op>,
    pub fired: Option<TimerFired>,
    pub cx: Option<TrapContext>,
}

/// Dispatches a trap that was taken from user mode. `kernel_entry` is the
/// kernel's own trap entry, `scause` and `stval` are the cause and
/// trap-value registers, `hart` is the hart that trapped, `current` the id
/// of the task that runs on it, `now` the time, `cx` the user registers of
/// that task, and `timer` the deadlines of the hart.
///
/// The user registers have to be there where the trap is a system call or
/// a fault that ends the task, and the running task has to be known where a
/// timer interrupt finds the deadline of a process.
///
/// The first operation points the trap vector at the kernel, whatever the
/// cause. A system call moves the program counter past the call; a timer
/// interrupt pops a deadline; nothing else changes. The operations end
/// with the return to user mode or with the halt of the system.
pub fn trap_handler(
    kernel_entry: usize,
    scause: usize,
    stval: usize,
    hart: usize,
    current: Option<usize>,
    now: usize,
    cx: Option<TrapContext>,
    timer: &mut TimerMultiplexer,
) -> (outcome: Dispatched)
    requires
        old(timer).wf(),
        reads_trap_context(cause_of(scause)) ==> cx is Some,
        is_syscall(cause_of(scause)) ==> cx->0.sepc + ECALL_LENGTH <= usize::MAX,
        reads_current(cause_of(scause), old(timer)@) ==> current is Some,
    ensures
        outcome.ops@ == trap_ops(kernel_entry, cause_of(scause), stval, hart, cx, outcome.fired),
        forall|registers: HartState| #[trigger]
            registers.after_all(outcome.ops@).stvec == kernel_entry,
        outcome.cx == context_after(cause_of(scause), cx),
        is_timer_interrupt(cause_of(scause)) ==> timer_interrupt_handled(
            *old(timer),
            *final(timer),
            current,
            now,
            outcome.fired,
        ),
        !is_timer_interrupt(cause_of(scause)) ==> outcome.fired is None && *final(timer) == *old(
            timer,
        ),
{
    let cause = classify(scause);
    let mut ops: Vec<Op> = Vec::new();
    ops.push(Op::StvecWrite { addr: kernel_entry });
    let mut fired: Option<TimerFired> = None;
    let mut kept = cx;
    match cause {
        Trap::Exception(Exception::UserEnvCall) => {
            let mut registers = kept.unwrap();
            let request = registers.begin_syscall();
            kept = Some(registers);
            ops.push(Op::Syscall(request));
            ops.push(Op::TrapReturn);
        },
        Trap::Exception(Exception::StoreFault)
        | Trap::Exception(Exception::StorePageFault)
        | Trap::Exception(Exception::InstructionFault)
        | Trap::Exception(Exception::InstructionPageFault)
        | Trap::Exception(Exception::LoadFault)
        | Trap::Exception(Exception::LoadPageFault) => {
            let exception = match cause {
                Trap::Exception(exception) => exception,
                Trap::Interrupt(_) => Exception::Unknown,
            };
            let sepc = match &kept {
                Some(registers) => registers.sepc,
                None => 0,
            };
            ops.push(Op::ReportFault { cause: exception, stval, sepc });
            ops.push(Op::ExitCurrentAndRunNext { code: PAGE_FAULT_EXIT_CODE });
            ops.push(Op::TrapReturn);
        },
        Trap::Exception(Exception::IllegalInstruction) => {
            let sepc = match &kept {
                Some(registers) => registers.sepc,
                None => 0,
            };
            ops.push(Op::ReportFault { cause: Exception::IllegalInstruction, stval, sepc });
            ops.push(Op::ExitCurrentAndRunNext { code: ILLEGAL_INSTRUCTION_EXIT_CODE });
            ops.push(Op::TrapReturn);
        },
        Trap::Interrupt(Interrupt::SupervisorTimer) => {
            fired = handle_timer_interrupt(timer, current, now);
            let mut planned = plan_timer(&fired);
            ops.append(&mut planned);
            ops.push(Op::TrapReturn);
        },
        Trap::Interrupt(Interrupt::SupervisorExternal) => {
            ops.push(Op::HandleExternalInterrupt { hart });
            ops.push(Op::TrapReturn);
        },
        Trap::Interrupt(Interrupt::SupervisorSoft) => {
            ops.push(Op::SipClearSsoft);
            ops.push(Op::TrapReturn);
        },
        _ => {
            ops.push(Op::Halt(SystemHalt::UnsupportedTrap { cause, stval }));
        },
    }
    assert(ops@ =~= trap_ops(kernel_entry, cause_of(scause), stval, hart, cx, fired));
    proof {
        assert forall|registers: HartState| #[trigger]
            registers.after_all(ops@).stvec == kernel_entry by {
            lemma_trap_vector_comes_first(
                kernel_entry,
                cause_of(scause),
                stval,
                hart,
                cx,
                fired,
                registers,
            );
        }
    }
    Dispatched { ops, fired, cx: kept }
}

/// The operations that program the comparator touch no queue.
proof fn lemma_program_ops_touch_no_queue(
    queues: Map<usize, Seq<UserTrapRecord>>,
    capacity_of: spec_fn(usize) -> nat,
    reprogram: Option<usize>,
)
    ensures
        queues_after_all(queues, capacity_of, program_ops(reprogram)) == queues,
{
    let none = Seq::<Op>::empty();
    if let Some(deadline) = reprogram {
        assert(program_ops(reprogram) =~= none.push(Op::SetTimer { deadline }));
        lemma_queues_after_all_push(queues, capacity_of, none, Op::SetTimer { deadline });
    }
}

/// A deadline of a process that is neither the kernel nor the running task
/// puts exactly one record at the end of that process's queue, with the
/// timer cause and the time of the interrupt, where the process has a
/// queue with room in it. No other queue changes, and nothing is done on
/// the hart but to program the comparator.
pub proof fn lemma_forwarded_deadline_queues_one_record(
    timer: TimerMultiplexer,
    timer_after: TimerMultiplexer,
    current: Option<usize>,
    now: usize,
    fired: Option<TimerFired>,
    deadline: usize,
    pid: usize,
    queues: Map<usize, Seq<UserTrapRecord>>,
    capacity_of: spec_fn(usize) -> nat,
)
    requires
        timer_interrupt_handled(timer, timer_after, current, now, fired),
        is_earliest(timer@, deadline),
        timer@[deadline] == pid,
        pid != KERNEL_PID,
        current != Some(pid),
        queues.contains_key(pid),
        queues[pid].len() < capacity_of(pid),
    ensures
        fired == Some(
            TimerFired {
                deadline,
                pid,
                reprogram: timer_after.comparator_spec(),
                delivery: TimerDelivery::Forwarded(
                    UserTrapRecord { cause: USER_TIMER_CAUSE, message: now },
                ),
            },
        ),
        timer_ops(fired) == program_ops(timer_after.comparator_spec()).push(
            Op::PushTrapRecord {
                pid,
                record: UserTrapRecord { cause: USER_TIMER_CAUSE, message: now },
            },
        ),
        queues_after_all(queues, capacity_of, timer_ops(fired)) == queues.insert(
            pid,
            queues[pid].push(UserTrapRecord { cause: USER_TIMER_CAUSE, message: now }),
        ),
{
    let event = fired->0;
    assert(timer@.contains_key(event.deadline));
    let program = program_ops(timer_after.comparator_spec());
    let push = Op::PushTrapRecord { pid, record: timer_record(now) };
    assert(timer_ops(fired) =~= program.push(push));
    lemma_queues_after_all_push(queues, capacity_of, program, push);
    lemma_program_ops_touch_no_queue(queues, capacity_of, timer_after.comparator_spec());
}

/// A deadline of the kernel changes no queue; on the hart the comparator
/// is programmed, then the next tick is armed, the periodic work is run and
/// the hart is given up, each once and in this order.
pub proof fn lemma_kernel_tick_yields_once(
    timer: TimerMultiplexer,
    timer_after: TimerMultiplexer,
    current: Option<usize>,
    now: usize,
    fired: Option<TimerFired>,
    deadline: usize,
    queues: Map<usize, Seq<UserTrapRecord>>,
    capacity_of: spec_fn(usize) -> nat,
)
    requires
        timer_interrupt_handled(timer, timer_after, current, now, fired),
        is_earliest(timer@, deadline),
        timer@[deadline] == KERNEL_PID,
    ensures
        fired == Some(
            TimerFired {
                deadline,
                pid: KERNEL_PID,
                reprogram: timer_after.comparator_spec(),
                delivery: TimerDelivery::KernelTick,
            },
        ),
        timer_ops(fired) == program_ops(timer_after.comparator_spec()) + seq![
            Op::SetNextTrigger,
            Op::CpuRun,
            Op::SuspendCurrentAndRunNext,
        ],
        queues_after_all(queues, capacity_of, timer_ops(fired)) == queues,
{
    let event = fired->0;
    assert(timer@.contains_key(event.deadline));
    let program = program_ops(timer_after.comparator_spec());
    let first = program.push(Op::SetNextTrigger);
    let second = first.push(Op::CpuRun);
    let third = second.push(Op::SuspendCurrentAndRunNext);
    assert(timer_ops(fired) =~= third);
    lemma_program_ops_touch_no_queue(queues, capacity_of, timer_after.comparator_spec());
    lemma_queues_after_all_push(queues, capacity_of, program, Op::SetNextTrigger);
    lemma_queues_after_all_push(queues, capacity_of, first, Op::CpuRun);
    lemma_queues_after_all_push(queues, capacity_of, second, Op::SuspendCurrentAndRunNext);
}

/// A deadline of the running task, which is not the kernel, changes no
/// queue; on the hart the comparator is programmed and the task's user
/// timer interrupt is made pending.
pub proof fn lemma_own_deadline_sets_pending(
    timer: TimerMultiplexer,
    timer_after: TimerMultiplexer,
    current: usize,
    now: usize,
    fired: Option<TimerFired>,
    deadline: usize,
    hart: HartState,
    queues: Map<usize, Seq<UserTrapRecord>>,
    capacity_of: spec_fn(usize) -> nat,
)
    requires
        timer_interrupt_handled(timer, timer_after, Some(current), now, fired),
        is_earliest(timer@, deadline),
        timer@[deadline] == current,
        current != KERNEL_PID,
    ensures
        fired == Some(
            TimerFired {
                deadline,
                pid: current,
                reprogram: timer_after.comparator_spec(),
                delivery: TimerDelivery::SelfDelivery,
            },
        ),
        timer_ops(fired) == program_ops(timer_after.comparator_spec()) + seq![Op::SipSetUtimer],
        hart.after_all(timer_ops(fired)).pending.timer,
        queues_after_all(queues, capacity_of, timer_ops(fired)) == queues,
{
    let event = fired->0;
    assert(timer@.contains_key(event.deadline));
    let program = program_ops(timer_after.comparator_spec());
    assert(timer_ops(fired) =~= program.push(Op::SipSetUtimer));
    lemma_after_all_push(hart, program, Op::SipSetUtimer);
    lemma_program_ops_touch_no_queue(queues, capacity_of, timer_after.comparator_spec());
    lemma_queues_after_all_push(queues, capacity_of, program, Op::SipSetUtimer);
}

/// Whatever a timer interrupt finds, the comparator then holds the
/// earliest deadline that is left, and the hart is told to program it
/// exactly when one is left.
pub proof fn lemma_comparator_follows_interrupt(
    timer: TimerMultiplexer,
    timer_after: TimerMultiplexer,
    current: Option<usize>,
    now: usize,
    fired: Option<TimerFired>,
)
    requires
        timer_interrupt_handled(timer, timer_after, current, now, fired),
    ensures
        comparator_for(timer_after@, timer_after.comparator_spec()),
        fired matches Some(event) ==> event.reprogram == timer_after.comparator_spec(),
        timer_after.comparator_spec() is Some <==> timer_after@ != Map::<usize, usize>::empty(),
{
    crate::timer::lemma_comparator_is_earliest(timer_after);
}

/// The dispatcher's first action, whatever the cause, is to point the trap
/// vector at the kernel; nothing that follows writes the trap vector, so
/// that it points there as long as the trap is handled, whatever the
/// registers `registers` held.
pub proof fn lemma_trap_vector_comes_first(
    kernel_entry: usize,
    cause: Trap,
    stval: usize,
    hart: usize,
    cx: Option<TrapContext>,
    fired: Option<TimerFired>,
    registers: HartState,
)
    ensures
        trap_ops(kernel_entry, cause, stval, hart, cx, fired)[0] == (Op::StvecWrite {
            addr: kernel_entry,
        }),
        forall|i: int|
            1 <= i < trap_ops(kernel_entry, cause, stval, hart, cx, fired).len() ==> !(
            #[trigger] trap_ops(kernel_entry, cause, stval, hart, cx, fired)[i] is StvecWrite),
        registers.after_all(trap_ops(kernel_entry, cause, stval, hart, cx, fired)).stvec
            == kernel_entry,
{
    let ops = trap_ops(kernel_entry, cause, stval, hart, cx, fired);
    let rest = handling_ops(cause, stval, hart, cx, fired);
    assert(ops.drop_first() =~= rest);
    lemma_trap_vector_is_kept(registers.after(ops[0]), rest);
}

/// The dispatcher never just returns: what it leaves to be done ends with
/// the return to user mode or with the halt of the system, and holds
/// neither of them before its end. It halts for the causes that it does not
/// know, and then does nothing else but its first action: no task is
/// terminated.
pub proof fn lemma_trap_ends_in_return_or_halt(
    kernel_entry: usize,
    cause: Trap,
    stval: usize,
    hart: usize,
    cx: Option<TrapContext>,
    fired: Option<TimerFired>,
)
    ensures
        trap_ops(kernel_entry, cause, stval, hart, cx, fired).len() >= 2,
        trap_ops(kernel_entry, cause, stval, hart, cx, fired).last() == Op::TrapReturn || trap_ops(
            kernel_entry,
            cause,
            stval,
            hart,
            cx,
            fired,
        ) == seq![
            Op::StvecWrite { addr: kernel_entry },
            Op::Halt(SystemHalt::UnsupportedTrap { cause, stval }),
        ],
        forall|i: int|
            0 <= i < trap_ops(kernel_entry, cause, stval, hart, cx, fired).len() - 1 ==> {
                &&& #[trigger] trap_ops(kernel_entry, cause, stval, hart, cx, fired)[i]
                    != Op::TrapReturn
                &&& !(trap_ops(kernel_entry, cause, stval, hart, cx, fired)[i] is Halt)
            },
{
    assert(seq![Op::StvecWrite { addr: kernel_entry }] + seq![
        Op::Halt(SystemHalt::UnsupportedTrap { cause, stval }),
    ] =~= seq![
        Op::StvecWrite { addr: kernel_entry },
        Op::Halt(SystemHalt::UnsupportedTrap { cause, stval }),
    ]);
}

} // verus!
