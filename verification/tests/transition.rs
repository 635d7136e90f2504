use trap_core::cause::{Exception, Interrupt, Trap};
use trap_core::config::{
    swap_contex_exists, swap_contex_va, PAGE_SIZE, TRAMPOLINE, TRAP_CONTEXT,
};
use trap_core::hart::HartState;
use trap_core::ops::{Op, Resume, SwapContextSlot, SystemHalt};
use trap_core::transition::{
    enable_timer_interrupt, get_swap_cx, init, set_kernel_trap_entry, set_user_trap_entry,
    switch_to_user, trap_from_kernel, trap_return, trap_return1, Trampoline,
};
use trap_core::usertrap::{UserPending, UserTrapRecord, UserTrapRegistry};

const ALLTRAPS: usize = 0x8020_1000;
const RESTORE: usize = 0x8020_1064;
const NONE_PENDING: UserPending = UserPending { soft: false, timer: false, external: false };

fn trampoline() -> Trampoline {
    Trampoline::new(ALLTRAPS, RESTORE).unwrap()
}

fn cleared() -> HartState {
    HartState {
        sie_stimer: false,
        sie_sext: false,
        sie_ssoft: false,
        sideleg_usoft: false,
        sideleg_uext: false,
        sideleg_utimer: false,
        scounteren_cy: false,
        scounteren_tm: false,
        scounteren_ir: false,
        stvec: 0,
        sip_ssoft: true,
        pending: NONE_PENDING,
        sstatus_sie: true,
        sstatus_spie: false,
        sstatus_spp_user: false,
    }
}

#[test]
fn fixed_addresses_are_the_top_pages() {
    assert_eq!(PAGE_SIZE, 4096);
    assert_eq!(TRAMPOLINE, usize::MAX - 4095);
    assert_eq!(TRAP_CONTEXT, usize::MAX - 2 * 4096 + 1);
    assert_eq!(TRAMPOLINE % PAGE_SIZE, 0);
    assert_eq!(TRAP_CONTEXT % PAGE_SIZE, 0);
}

#[test]
fn swap_contexts_lie_below_the_trap_context() {
    assert_eq!(swap_contex_va(0), TRAP_CONTEXT);
    assert_eq!(swap_contex_va(1), TRAP_CONTEXT - 4096);
    assert_eq!(swap_contex_va(5), TRAP_CONTEXT - 5 * 4096);
    let last = TRAP_CONTEXT / PAGE_SIZE;
    assert!(swap_contex_exists(last));
    assert_eq!(swap_contex_va(last), 0);
    assert!(!swap_contex_exists(last + 1));
    assert!(!swap_contex_exists(usize::MAX));
    assert!(swap_contex_exists(0));
}

#[test]
fn init_enables_delegates_and_points_the_trap_vector() {
    let ops = init(0x8020_0400);
    assert_eq!(
        ops,
        vec![
            Op::SieSetStimer,
            Op::SieSetSext,
            Op::SieSetSsoft,
            Op::SidelegSetUsoft,
            Op::SidelegSetUext,
            Op::SidelegSetUtimer,
            Op::ScounterenSetCy,
            Op::ScounterenSetTm,
            Op::ScounterenSetIr,
            Op::StvecWrite { addr: 0x8020_0400 },
        ]
    );
    let mut hart = cleared();
    hart.apply_all(&ops);
    assert_eq!(
        hart,
        HartState {
            sie_stimer: true,
            sie_sext: true,
            sie_ssoft: true,
            sideleg_usoft: true,
            sideleg_uext: true,
            sideleg_utimer: true,
            scounteren_cy: true,
            scounteren_tm: true,
            scounteren_ir: true,
            stvec: 0x8020_0400,
            ..cleared()
        }
    );
}

#[test]
fn trap_entries_and_timer_enable() {
    assert_eq!(set_kernel_trap_entry(0x1234), Op::StvecWrite { addr: 0x1234 });
    assert_eq!(set_user_trap_entry(), Op::StvecWrite { addr: TRAMPOLINE });
    assert_eq!(enable_timer_interrupt(), Op::SieSetStimer);
    let mut hart = cleared();
    hart.apply(&enable_timer_interrupt());
    assert_eq!(hart, HartState { sie_stimer: true, ..cleared() });
    hart.apply(&enable_timer_interrupt());
    assert_eq!(hart, HartState { sie_stimer: true, ..cleared() });
}

#[test]
fn restore_routine_is_as_far_into_the_trampoline_as_behind_the_entry() {
    assert_eq!(trampoline().restore_va(), TRAMPOLINE + 0x64);
    assert_eq!(Trampoline::new(ALLTRAPS, ALLTRAPS).unwrap().restore_va(), TRAMPOLINE);
    assert_eq!(Trampoline::new(0, 4095).unwrap().restore_va(), usize::MAX);
    assert_eq!(
        Trampoline::new(usize::MAX - 10, usize::MAX).unwrap().restore_va(),
        TRAMPOLINE + 10
    );
}

#[test]
fn trampoline_has_its_restore_routine_behind_the_entry_in_one_page() {
    assert!(Trampoline::new(ALLTRAPS, RESTORE).is_some());
    assert!(Trampoline::new(RESTORE, ALLTRAPS).is_none());
    assert!(Trampoline::new(0, 4096).is_none());
    assert!(Trampoline::new(0, 4095).is_some());
    assert!(Trampoline::new(1, 0).is_none());
    assert!(Trampoline::new(0, usize::MAX).is_none());
}

#[test]
fn trap_return_delivers_and_leaves_for_user_mode() {
    let mut registry = UserTrapRegistry::new();
    registry.register(3, 4);
    registry.register(7, 4);
    registry.push_trap_record(3, UserTrapRecord { cause: 4, message: 1000 }).unwrap();
    registry.push_trap_record(3, UserTrapRecord { cause: 0, message: 5 }).unwrap();
    registry.push_trap_record(7, UserTrapRecord { cause: 8, message: 6 }).unwrap();
    let resumed = trap_return(&mut registry, 3, 0x8000_0000_0008_1234, &trampoline());
    assert_eq!(
        resumed.delivered,
        vec![
            UserTrapRecord { cause: 4, message: 1000 },
            UserTrapRecord { cause: 0, message: 5 },
        ]
    );
    let pending = UserPending { soft: true, timer: true, external: false };
    assert_eq!(
        resumed.ops,
        vec![
            Op::SstatusClearSie,
            Op::RaisePending(pending),
            Op::StvecWrite { addr: TRAMPOLINE },
            Op::SstatusSetSpie,
            Op::SstatusSetSppUser,
            Op::Jump(Resume {
                restore_va: TRAMPOLINE + 0x64,
                trap_cx_ptr: TRAP_CONTEXT,
                user_satp: 0x8000_0000_0008_1234,
            }),
        ]
    );
    assert_eq!(registry.queued(3), Some(0));
    assert_eq!(registry.queued(7), Some(1));
    let mut hart = cleared();
    hart.pending.external = true;
    hart.apply_all(&resumed.ops);
    assert_eq!(
        hart,
        HartState {
            sstatus_sie: false,
            sstatus_spie: true,
            sstatus_spp_user: true,
            stvec: TRAMPOLINE,
            pending: UserPending { soft: true, timer: true, external: true },
            ..cleared()
        }
    );
}

#[test]
fn trap_return_of_a_task_without_a_queue_delivers_nothing() {
    let mut registry = UserTrapRegistry::new();
    registry.register(7, 4);
    registry.push_trap_record(7, UserTrapRecord { cause: 8, message: 6 }).unwrap();
    let resumed = trap_return(&mut registry, 3, 9, &trampoline());
    assert_eq!(resumed.delivered, vec![]);
    assert_eq!(resumed.ops[1], Op::RaisePending(NONE_PENDING));
    assert_eq!(resumed.ops.len(), 6);
    assert!(!registry.contains(3));
    assert_eq!(registry.queued(7), Some(1));
}

#[test]
fn trap_return_twice_delivers_once() {
    let mut registry = UserTrapRegistry::new();
    registry.register(3, 4);
    registry.push_trap_record(3, UserTrapRecord { cause: 4, message: 1 }).unwrap();
    assert_eq!(trap_return(&mut registry, 3, 9, &trampoline()).delivered.len(), 1);
    let again = trap_return(&mut registry, 3, 9, &trampoline());
    assert_eq!(again.delivered, vec![]);
    assert_eq!(again.ops[1], Op::RaisePending(NONE_PENDING));
}

#[test]
fn swap_context_slot_names_the_root_table_and_the_address() {
    let satp: usize = 0x8000_1234_5678_9abc;
    assert_eq!(
        get_swap_cx(satp, 2),
        SwapContextSlot { satp, root_ppn: 0x234_5678_9abc, va: TRAP_CONTEXT - 2 * 4096 }
    );
    assert_eq!(get_swap_cx(0x0fff_ffff_ffff, 0).root_ppn, 0x0fff_ffff_ffff);
    assert_eq!(get_swap_cx(0x1000_0000_0000, 0).root_ppn, 0);
    assert_eq!(get_swap_cx(usize::MAX, 0).root_ppn, 0x0fff_ffff_ffff);
    assert_eq!(get_swap_cx(0, 0), SwapContextSlot { satp: 0, root_ppn: 0, va: TRAP_CONTEXT });
}

#[test]
fn switch_to_user_enters_the_given_address_space_in_user_mode() {
    let satp: usize = 0x8000_0000_0008_0000;
    let ops = switch_to_user(satp, 3, &trampoline());
    assert_eq!(
        ops,
        vec![
            Op::StvecWrite { addr: TRAMPOLINE },
            Op::ResolveSwapContext(SwapContextSlot {
                satp,
                root_ppn: 0x8_0000,
                va: TRAP_CONTEXT - 3 * 4096,
            }),
            Op::SstatusSetSppUser,
            Op::Jump(Resume {
                restore_va: TRAMPOLINE + 0x64,
                trap_cx_ptr: TRAP_CONTEXT - 3 * 4096,
                user_satp: satp,
            }),
        ]
    );
    let mut hart = cleared();
    assert!(!hart.sstatus_spp_user);
    hart.apply_all(&ops);
    assert_eq!(hart, HartState { sstatus_spp_user: true, stvec: TRAMPOLINE, ..cleared() });
}

#[test]
fn trap_return1_resumes_slot_one_whatever_it_is_given() {
    let expected = vec![
        Op::StvecWrite { addr: TRAMPOLINE },
        Op::SstatusSetSppUser,
        Op::Jump(Resume {
            restore_va: TRAMPOLINE + 0x64,
            trap_cx_ptr: TRAP_CONTEXT - 4096,
            user_satp: 77,
        }),
    ];
    assert_eq!(trap_return1(1, 77, &trampoline()), expected);
    assert_eq!(trap_return1(5, 77, &trampoline()), expected);
    let mut switched = switch_to_user(77, 1, &trampoline());
    assert!(matches!(switched.remove(1), Op::ResolveSwapContext(_)));
    assert_eq!(switched, expected);
    let mut hart = cleared();
    hart.apply_all(&expected);
    assert_eq!(hart, HartState { sstatus_spp_user: true, stvec: TRAMPOLINE, ..cleared() });
}

#[test]
fn trap_from_kernel_names_cause_value_and_counter() {
    assert_eq!(
        trap_from_kernel(13, 0xdead0000, 0x8020_0000),
        SystemHalt::KernelTrap {
            cause: Trap::Exception(Exception::LoadPageFault),
            stval: 0xdead0000,
            sepc: 0x8020_0000,
        }
    );
    assert_eq!(
        trap_from_kernel(usize::MAX / 2 + 1 + 5, 0, 4),
        SystemHalt::KernelTrap {
            cause: Trap::Interrupt(Interrupt::SupervisorTimer),
            stval: 0,
            sepc: 4,
        }
    );
}

#[test]
fn operations_of_collaborators_leave_the_registers() {
    let mut hart = cleared();
    let ops = vec![
        Op::SetTimer { deadline: 5 },
        Op::SetNextTrigger,
        Op::CpuRun,
        Op::SuspendCurrentAndRunNext,
        Op::ExitCurrentAndRunNext { code: -2 },
        Op::HandleExternalInterrupt { hart: 1 },
        Op::PushTrapRecord { pid: 7, record: UserTrapRecord { cause: 4, message: 1 } },
        Op::TrapReturn,
    ];
    hart.apply_all(&ops);
    assert_eq!(hart, cleared());
    hart.apply(&Op::SipClearSsoft);
    assert_eq!(hart, HartState { sip_ssoft: false, ..cleared() });
    hart.apply(&Op::SipSetUtimer);
    assert!(hart.pending.timer);
    assert!(!hart.pending.soft);
}
