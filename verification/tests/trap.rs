use trap_core::cause::{Exception, Interrupt, Trap};
use trap_core::context::{SyscallRequest, TrapContext};
use trap_core::hart::HartState;
use trap_core::ops::{Op, SystemHalt, ILLEGAL_INSTRUCTION_EXIT_CODE, PAGE_FAULT_EXIT_CODE};
use trap_core::timer::TimerMultiplexer;
use trap_core::trap::{
    handle_timer_interrupt, needs_current, needs_trap_context, plan_timer, trap_handler,
    Dispatched, TimerDelivery, TimerFired, KERNEL_PID,
};
use trap_core::usertrap::{UserPending, UserTrapRecord, UserTrapRegistry};

const INTERRUPT: usize = usize::MAX / 2 + 1;
const SUPERVISOR_TIMER: usize = INTERRUPT + 5;
const ENTRY: usize = 0x8020_0400;
const FIRST: Op = Op::StvecWrite { addr: ENTRY };

struct World {
    cx: TrapContext,
    timer: TimerMultiplexer,
    registry: UserTrapRegistry,
}

fn registers() -> TrapContext {
    let mut x = [0usize; 32];
    for (i, register) in x.iter_mut().enumerate() {
        *register = 100 + i;
    }
    TrapContext { x, sstatus: 0, sepc: 0x4000 }
}

fn world() -> World {
    World { cx: registers(), timer: TimerMultiplexer::new(), registry: UserTrapRegistry::new() }
}

/// Dispatches as the kernel does: with the registers and the running task
/// where they are needed, and with the queues touched by the operations.
fn dispatch(w: &mut World, scause: usize, stval: usize, current: usize, now: usize) -> Dispatched {
    let cx = if needs_trap_context(scause) { Some(w.cx.clone()) } else { None };
    let running = if needs_current(scause, &w.timer) { Some(current) } else { None };
    let outcome = trap_handler(ENTRY, scause, stval, 2, running, now, cx, &mut w.timer);
    if let Some(cx) = &outcome.cx {
        w.cx = cx.clone();
    }
    for op in &outcome.ops {
        w.registry.perform(op);
    }
    outcome
}

fn timer_record(now: usize) -> UserTrapRecord {
    UserTrapRecord { cause: 4, message: now }
}

#[test]
fn deadline_of_another_process_is_forwarded_to_its_queue() {
    let mut w = world();
    w.registry.register(7, 4);
    w.registry.register(3, 4);
    w.timer.arm(1000, 7);
    let outcome = dispatch(&mut w, SUPERVISOR_TIMER, 0, 3, 1000);
    assert_eq!(
        outcome.fired,
        Some(TimerFired {
            deadline: 1000,
            pid: 7,
            reprogram: None,
            delivery: TimerDelivery::Forwarded(timer_record(1000)),
        })
    );
    assert_eq!(
        outcome.ops,
        vec![FIRST, Op::PushTrapRecord { pid: 7, record: timer_record(1000) }, Op::TrapReturn]
    );
    assert!(w.timer.is_empty());
    assert_eq!(w.registry.queued(3), Some(0));
    let restored = w.registry.restore_user_trap_info(7).unwrap();
    assert_eq!(restored.records, vec![UserTrapRecord { cause: 4, message: 1000 }]);
    assert_eq!(restored.pending, UserPending { soft: false, timer: true, external: false });
}

#[test]
fn page_fault_terminates_the_task_and_goes_on() {
    let mut w = world();
    w.registry.register(3, 4);
    w.timer.arm(50, 3);
    let outcome = dispatch(&mut w, 13, 0xdead0000, 3, 10);
    assert_eq!(
        outcome.ops,
        vec![
            FIRST,
            Op::ReportFault { cause: Exception::LoadPageFault, stval: 0xdead0000, sepc: 0x4000 },
            Op::ExitCurrentAndRunNext { code: -2 },
            Op::TrapReturn,
        ]
    );
    assert_eq!(outcome.fired, None);
    assert_eq!(outcome.cx, Some(registers()));
    assert_eq!(PAGE_FAULT_EXIT_CODE, -2);
    assert_eq!(w.timer.len(), 1);
    assert_eq!(w.registry.queued(3), Some(0));
}

#[test]
fn every_memory_fault_has_the_page_fault_exit_code() {
    let faults = [
        (7, Exception::StoreFault),
        (15, Exception::StorePageFault),
        (1, Exception::InstructionFault),
        (12, Exception::InstructionPageFault),
        (5, Exception::LoadFault),
        (13, Exception::LoadPageFault),
    ];
    for (code, cause) in faults {
        let mut w = world();
        assert!(needs_trap_context(code));
        let outcome = dispatch(&mut w, code, 0x10, 1, 0);
        assert_eq!(
            outcome.ops,
            vec![
                FIRST,
                Op::ReportFault { cause, stval: 0x10, sepc: 0x4000 },
                Op::ExitCurrentAndRunNext { code: -2 },
                Op::TrapReturn,
            ]
        );
    }
}

#[test]
fn illegal_instruction_has_its_own_exit_code() {
    let mut w = world();
    let outcome = dispatch(&mut w, 2, 0xbad, 1, 0);
    assert_eq!(
        outcome.ops,
        vec![
            FIRST,
            Op::ReportFault { cause: Exception::IllegalInstruction, stval: 0xbad, sepc: 0x4000 },
            Op::ExitCurrentAndRunNext { code: -3 },
            Op::TrapReturn,
        ]
    );
    assert_eq!(ILLEGAL_INSTRUCTION_EXIT_CODE, -3);
}

#[test]
fn unknown_cause_halts_the_system_and_terminates_nothing() {
    let mut w = world();
    w.registry.register(3, 4);
    w.timer.arm(50, 3);
    let outcome = dispatch(&mut w, 10, 0x77, 3, 10);
    assert_eq!(
        outcome.ops,
        vec![
            FIRST,
            Op::Halt(SystemHalt::UnsupportedTrap {
                cause: Trap::Exception(Exception::Unknown),
                stval: 0x77,
            }),
        ]
    );
    assert_eq!(outcome.fired, None);
    assert_eq!(outcome.cx, None);
    assert_eq!(w.timer.len(), 1);
    assert_eq!(w.registry.queued(3), Some(0));
    assert_eq!(w.cx, registers());
}

#[test]
fn traps_that_the_dispatcher_does_not_handle_halt() {
    let unhandled = [
        (0, Trap::Exception(Exception::InstructionMisaligned)),
        (3, Trap::Exception(Exception::Breakpoint)),
        (6, Trap::Exception(Exception::StoreMisaligned)),
        (INTERRUPT, Trap::Interrupt(Interrupt::UserSoft)),
        (INTERRUPT + 4, Trap::Interrupt(Interrupt::UserTimer)),
        (INTERRUPT + 8, Trap::Interrupt(Interrupt::UserExternal)),
        (INTERRUPT + 2, Trap::Interrupt(Interrupt::Unknown)),
    ];
    for (scause, cause) in unhandled {
        let mut w = world();
        assert!(!needs_trap_context(scause));
        let outcome = dispatch(&mut w, scause, 5, 1, 0);
        assert_eq!(
            outcome.ops,
            vec![FIRST, Op::Halt(SystemHalt::UnsupportedTrap { cause, stval: 5 })]
        );
    }
}

#[test]
fn system_call_is_read_out_and_stepped_over() {
    let mut w = world();
    w.timer.arm(50, 3);
    let outcome = dispatch(&mut w, 8, 0, 3, 10);
    assert_eq!(
        outcome.ops,
        vec![
            FIRST,
            Op::Syscall(SyscallRequest { id: 117, args: [110, 111, 112, 113, 114, 115] }),
            Op::TrapReturn,
        ]
    );
    assert_eq!(outcome.fired, None);
    assert_eq!(outcome.cx, Some(TrapContext { sepc: 0x4004, ..registers() }));
    assert_eq!(w.timer.len(), 1);
}

#[test]
fn the_trap_vector_is_pointed_at_the_kernel_first() {
    for scause in [8, 13, 2, 10, INTERRUPT + 1, INTERRUPT + 9, SUPERVISOR_TIMER, INTERRUPT + 3] {
        let mut w = world();
        let outcome = dispatch(&mut w, scause, 0, 1, 0);
        assert_eq!(outcome.ops[0], Op::StvecWrite { addr: ENTRY });
        assert!(outcome.ops[1..].iter().all(|op| !matches!(op, Op::StvecWrite { .. })));
        let mut hart = HartState {
            sie_stimer: true,
            sie_sext: true,
            sie_ssoft: true,
            sideleg_usoft: true,
            sideleg_uext: true,
            sideleg_utimer: true,
            scounteren_cy: true,
            scounteren_tm: true,
            scounteren_ir: true,
            stvec: 0xffff_f000,
            sip_ssoft: false,
            pending: UserPending { soft: false, timer: false, external: false },
            sstatus_sie: false,
            sstatus_spie: true,
            sstatus_spp_user: true,
        };
        hart.apply_all(&outcome.ops);
        assert_eq!(hart.stvec, ENTRY);
    }
}

#[test]
fn external_interrupt_goes_to_the_controller_of_the_hart() {
    let mut w = world();
    let outcome = dispatch(&mut w, INTERRUPT + 9, 0, 1, 0);
    assert_eq!(outcome.ops, vec![FIRST, Op::HandleExternalInterrupt { hart: 2 }, Op::TrapReturn]);
    assert_eq!(outcome.cx, None);
}

#[test]
fn software_interrupt_is_acknowledged() {
    let mut w = world();
    let outcome = dispatch(&mut w, INTERRUPT + 1, 0, 1, 0);
    assert_eq!(outcome.ops, vec![FIRST, Op::SipClearSsoft, Op::TrapReturn]);
}

#[test]
fn interrupts_need_neither_the_registers_nor_the_running_task() {
    let mut timer = TimerMultiplexer::new();
    for scause in [INTERRUPT + 1, INTERRUPT + 9, SUPERVISOR_TIMER] {
        assert!(!needs_trap_context(scause));
        assert!(!needs_current(scause, &timer));
        let outcome = trap_handler(ENTRY, scause, 0, 2, None, 5, None, &mut timer);
        assert_eq!(outcome.ops.last(), Some(&Op::TrapReturn));
        assert_eq!(outcome.cx, None);
    }
}

#[test]
fn kernel_tick_needs_no_running_task() {
    let mut timer = TimerMultiplexer::new();
    timer.arm(100, KERNEL_PID);
    timer.arm(200, 3);
    assert!(!needs_current(SUPERVISOR_TIMER, &timer));
    let outcome = trap_handler(ENTRY, SUPERVISOR_TIMER, 0, 2, None, 100, None, &mut timer);
    assert_eq!(outcome.fired.unwrap().delivery, TimerDelivery::KernelTick);
    assert!(needs_current(SUPERVISOR_TIMER, &timer));
    assert!(!needs_current(INTERRUPT + 9, &timer));
    assert!(!needs_current(8, &timer));
}

#[test]
fn kernel_tick_rearms_and_yields_once() {
    let mut w = world();
    w.registry.register(3, 4);
    w.timer.arm(100, KERNEL_PID);
    w.timer.arm(250, 3);
    let outcome = dispatch(&mut w, SUPERVISOR_TIMER, 0, 3, 101);
    assert_eq!(
        outcome.fired,
        Some(TimerFired {
            deadline: 100,
            pid: 0,
            reprogram: Some(250),
            delivery: TimerDelivery::KernelTick,
        })
    );
    assert_eq!(
        outcome.ops,
        vec![
            FIRST,
            Op::SetTimer { deadline: 250 },
            Op::SetNextTrigger,
            Op::CpuRun,
            Op::SuspendCurrentAndRunNext,
            Op::TrapReturn,
        ]
    );
    assert_eq!(w.registry.queued(3), Some(0));
    assert_eq!(w.timer.comparator(), Some(250));
}

#[test]
fn kernel_tick_wins_where_the_running_task_has_the_kernel_id() {
    let mut w = world();
    w.timer.arm(100, 0);
    let fired = handle_timer_interrupt(&mut w.timer, Some(0), 100).unwrap();
    assert_eq!(fired.delivery, TimerDelivery::KernelTick);
}

#[test]
fn own_deadline_sets_the_pending_bit_and_queues_nothing() {
    let mut w = world();
    w.registry.register(3, 4);
    w.timer.arm(100, 3);
    let outcome = dispatch(&mut w, SUPERVISOR_TIMER, 0, 3, 100);
    assert_eq!(
        outcome.fired,
        Some(TimerFired {
            deadline: 100,
            pid: 3,
            reprogram: None,
            delivery: TimerDelivery::SelfDelivery,
        })
    );
    assert_eq!(outcome.ops, vec![FIRST, Op::SipSetUtimer, Op::TrapReturn]);
    assert_eq!(w.registry.queued(3), Some(0));
}

#[test]
fn timer_interrupt_without_a_deadline_only_returns() {
    let mut w = world();
    let outcome = dispatch(&mut w, SUPERVISOR_TIMER, 0, 3, 100);
    assert_eq!(outcome.fired, None);
    assert_eq!(outcome.ops, vec![FIRST, Op::TrapReturn]);
    assert_eq!(plan_timer(&None), vec![]);
}

#[test]
fn one_deadline_is_handled_per_interrupt() {
    let mut w = world();
    w.registry.register(7, 4);
    w.registry.register(8, 4);
    w.timer.arm(10, 7);
    w.timer.arm(11, 8);
    let outcome = dispatch(&mut w, SUPERVISOR_TIMER, 0, 3, 20);
    assert_eq!(outcome.fired.unwrap().pid, 7);
    assert_eq!(
        outcome.ops,
        vec![
            FIRST,
            Op::SetTimer { deadline: 11 },
            Op::PushTrapRecord { pid: 7, record: timer_record(20) },
            Op::TrapReturn,
        ]
    );
    assert_eq!(w.registry.queued(7), Some(1));
    assert_eq!(w.registry.queued(8), Some(0));
    assert_eq!(w.timer.len(), 1);
    assert_eq!(w.timer.comparator(), Some(11));
}

#[test]
fn forwarding_to_a_process_without_a_queue_changes_no_queue() {
    let mut w = world();
    w.registry.register(3, 4);
    w.timer.arm(10, 7);
    let outcome = dispatch(&mut w, SUPERVISOR_TIMER, 0, 3, 10);
    assert_eq!(outcome.fired.unwrap().delivery, TimerDelivery::Forwarded(timer_record(10)));
    assert_eq!(outcome.ops.last(), Some(&Op::TrapReturn));
    assert!(w.timer.is_empty());
    assert!(!w.registry.contains(7));
    assert_eq!(w.registry.queued(3), Some(0));
}

#[test]
fn forwarding_to_a_full_queue_keeps_the_queue_and_the_hart_goes_on() {
    let mut w = world();
    w.registry.register(7, 1);
    w.registry.push_trap_record(7, UserTrapRecord { cause: 8, message: 1 }).unwrap();
    w.timer.arm(10, 7);
    let outcome = dispatch(&mut w, SUPERVISOR_TIMER, 0, 3, 10);
    assert_eq!(
        outcome.ops,
        vec![FIRST, Op::PushTrapRecord { pid: 7, record: timer_record(10) }, Op::TrapReturn]
    );
    let restored = w.registry.restore_user_trap_info(7).unwrap();
    assert_eq!(restored.records, vec![UserTrapRecord { cause: 8, message: 1 }]);
}
