//! What the kernel does on the hart and with its collaborators, one
//! operation at a time, and the ways in which it stops for good.

use crate::cause::{Exception, Trap};
use crate::context::SyscallRequest;
use crate::usertrap::{UserPending, UserTrapRecord};
use vstd::prelude::*;

verus! {

/// Exit code of a task that was terminated for a memory fault.
pub const PAGE_FAULT_EXIT_CODE: i32 = -2;

/// Exit code of a task that was terminated for an illegal instruction.
pub const ILLEGAL_INSTRUCTION_EXIT_CODE: i32 = -3;

/// Why the system cannot go on.
#[derive(Clone, Copy, Debug, PartialEq, Eq, Structural)]
pub enum SystemHalt {
    /// A trap that the dispatcher does not know, with the trap value.
    UnsupportedTrap { cause: Trap, stval: usize },
    /// A trap that was taken while the kernel ran, with the trap value and
    /// the program counter at which it was taken.
    KernelTrap { cause: Trap, stval: usize, sepc: usize },
    /// An allocation that the heap could not serve, by its size and alignment.
    AllocError { size: usize, align: usize },
}

/// A jump through the trampoline into user mode.
#[derive(Clone, Copy, Debug, PartialEq, Eq, Structural)]
pub struct Resume {
    /// The address to jump to: the restore routine in the trampoline page.
    pub restore_va: usize,
    /// First argument register: the address of the trap context to restore.
    pub trap_cx_ptr: usize,
    /// Second argument register: the token of the address space to enter.
    pub user_satp: usize,
}

/// The place of the swap context of an address space: the token of the
/// address space, the page number of its root page table, and the virtual
/// address of the context in it.
#[derive(Clone, Copy, Debug, PartialEq, Eq, Structural)]
pub struct SwapContextSlot {
    pub satp: usize,
    pub root_ppn: u64,
    pub va: usize,
}

/// One operation on the hart's registers or of a collaborator.
#[derive(Clone, Copy, Debug, PartialEq, Eq)]
pub enum Op {
    /// Enable the supervisor timer interrupt.
    SieSetStimer,
    /// Enable the supervisor external interrupt.
    SieSetSext,
    /// Enable the supervisor software interrupt.
    SieSetSsoft,
    /// Delegate the user software interrupt.
    SidelegSetUsoft,
    /// Delegate the user external interrupt.
    SidelegSetUext,
    /// Delegate the user timer interrupt.
    SidelegSetUtimer,
    /// Let user mode read the cycle counter.
    ScounterenSetCy,
    /// Let user mode read the time counter.
    ScounterenSetTm,
    /// Let user mode read the retired-instruction counter.
    ScounterenSetIr,
    /// Point the trap vector at `addr`, in direct mode.
    StvecWrite { addr: usize },
    /// Make the user timer interrupt pending.
    SipSetUtimer,
    /// Clear the pending supervisor software interrupt.
    SipClearSsoft,
    /// Disable interrupts in supervisor mode.
    SstatusClearSie,
    /// Enable interrupts once the hart has returned from the trap.
    SstatusSetSpie,
    /// Return from the trap into user mode.
    SstatusSetSppUser,
    /// Make these delegated interrupts pending for the task that resumes.
    RaisePending(UserPending),
    /// Queue `record` for the process `pid`, and go on whether or not the
    /// queue took it.
    PushTrapRecord { pid: usize, record: UserTrapRecord },
    /// Program the hart's timer comparator.
    SetTimer { deadline: usize },
    /// Run the system call and write its result into the trap context that
    /// the task has then.
    Syscall(SyscallRequest),
    /// Tell the operator of a fault of the running task.
    ReportFault { cause: Exception, stval: usize, sepc: usize },
    /// Terminate the running task with this exit code and run the next.
    ExitCurrentAndRunNext { code: i32 },
    /// Arm the next periodic kernel tick.
    SetNextTrigger,
    /// Run the periodic bookkeeping of the kernel.
    CpuRun,
    /// Give the hart to the next task.
    SuspendCurrentAndRunNext,
    /// Let the interrupt controller handle the external interrupt of `hart`.
    HandleExternalInterrupt { hart: usize },
    /// Find the swap context behind `slot` through the page table; the
    /// system cannot go on where it is not mapped.
    ResolveSwapContext(SwapContextSlot),
    /// Resume the running task through `trap_return`.
    TrapReturn,
    /// Jump into user mode; nothing follows.
    Jump(Resume),
    /// Stop the system with a diagnostic; nothing follows.
    Halt(SystemHalt),
}

} // verus!
