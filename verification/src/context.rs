//! The two register snapshots that cross privilege levels.

use vstd::prelude::*;

verus! {

/// Return address of a context that was never set up.
pub const POISON_RA: usize = 0xDEDEDEDE;

/// Value of each callee-saved register of a context that was never set up.
pub const POISON_S: usize = 0x23232323;

/// Task id of a context that was never set up.
pub const POISON_TID: usize = 0xDADADADA;

/// Stack pointer of a context that was never set up.
pub const POISON_SP: usize = 0xABABABAB;

/// Index of the register that carries the number of a system call (`a7`).
pub const SYSCALL_ID_REGISTER: usize = 17;

/// Index of the register that carries the first argument of a system call
/// and takes its result (`a0`); the other five arguments follow it.
pub const SYSCALL_ARG_REGISTER: usize = 10;

/// Length of the instruction that makes a system call.
pub const ECALL_LENGTH: usize = 4;

/// What a task needs to go on in the kernel: where to return to, the
/// callee-saved registers, its copies of the delegated interrupt registers,
/// its id and its kernel stack pointer.
#[derive(Debug, Clone)]
pub struct TaskContext {
    pub ra: usize,
    pub s: [usize; 12],
    pub uie: usize,
    pub uip: usize,
    pub uepc: usize,
    pub utvec: usize,
    pub utval: usize,
    pub ucause: usize,
    pub tid: usize,
    pub sp: usize,
}

impl TaskContext {
    /// Whether this is the sentinel: the poison pattern in the return
    /// address, the callee-saved registers, the id and the stack pointer,
    /// and zero in the delegated registers.
    pub open spec fn is_sentinel(&self) -> bool {
        &&& self.ra == POISON_RA
        &&& self.s@ == Seq::new(12, |i: int| POISON_S)
        &&& self.uie == 0
        &&& self.uip == 0
        &&& self.uepc == 0
        &&& self.utvec == 0
        &&& self.utval == 0
        &&& self.ucause == 0
        &&& self.tid == POISON_TID
        &&& self.sp == POISON_SP
    }

    /// Whether this is the context from which the task `tid` first runs:
    /// it returns to `trap_return` on the stack `kstack_ptr`, with cleared
    /// callee-saved registers and with `uie` and `uip` as the delegated
    /// enable and pending registers.
    pub open spec fn is_resume_point(
        &self,
        kstack_ptr: usize,
        tid: usize,
        trap_return: usize,
        uie: usize,
        uip: usize,
    ) -> bool {
        &&& self.ra == trap_return
        &&& self.s@ == Seq::new(12, |i: int| 0usize)
        &&& self.uie == uie
        &&& self.uip == uip
        &&& self.uepc == 0
        &&& self.utvec == 0
        &&& self.utval == 0
        &&& self.ucause == 0
        &&& self.tid == tid
        &&& self.sp == kstack_ptr
    }

    /// The sentinel, which stands for "not set up" and is never resumed.
    pub fn zero_init() -> (cx: Self)
        ensures
            cx.is_sentinel(),
    {
        let cx = TaskContext {
            ra: POISON_RA,
            s: [POISON_S;12],
            uie: 0,
            uip: 0,
            uepc: 0,
            utvec: 0,
            utval: 0,
            ucause: 0,
            tid: POISON_TID,
            sp: POISON_SP,
        };
        assert(cx.s@ =~= Seq::new(12, |i: int| POISON_S));
        cx
    }

    /// The context from which the task `tid` first runs: it returns to
    /// `trap_return`, the kernel's trap-return entry, on the kernel stack
    /// `kstack_ptr`. `uie` and `uip` are the delegated enable and pending
    /// registers as the hart holds them now.
    pub fn goto_trap_return(
        kstack_ptr: usize,
        tid: usize,
        trap_return: usize,
        uie: usize,
        uip: usize,
    ) -> (cx: Self)
        ensures
            cx.is_resume_point(kstack_ptr, tid, trap_return, uie, uip),
    {
        let cx = TaskContext {
            ra: trap_return,
            s: [0usize;12],
            uie,
            uip,
            uepc: 0,
            utvec: 0,
            utval: 0,
            ucause: 0,
            tid,
            sp: kstack_ptr,
        };
        assert(cx.s@ =~= Seq::new(12, |i: int| 0usize));
        cx
    }

}

/// The sentinel is no resume point, whatever a resume point is built from:
/// its callee-saved registers hold the poison value, those of a resume
/// point hold zero.
pub proof fn lemma_sentinel_is_no_resume_point(
    sentinel: TaskContext,
    resume: TaskContext,
    kstack_ptr: usize,
    tid: usize,
    trap_return: usize,
    uie: usize,
    uip: usize,
)
    requires
        sentinel.is_sentinel(),
        resume.is_resume_point(kstack_ptr, tid, trap_return, uie, uip),
    ensures
        sentinel != resume,
        !sentinel.is_resume_point(kstack_ptr, tid, trap_return, uie, uip),
        !resume.is_sentinel(),
        trap_return != POISON_RA ==> sentinel.ra != resume.ra,
{
    assert(sentinel.s@[0] == POISON_S);
    assert(resume.s@[0] == 0);
}

/// The sentinel returns to the poison address, and so to no trap-return
/// entry but one that lies at the poison address itself.
pub proof fn lemma_sentinel_returns_to_poison(sentinel: TaskContext, trap_return: usize)
    requires
        sentinel.is_sentinel(),
        trap_return != POISON_RA,
    ensures
        sentinel.ra == POISON_RA,
        sentinel.ra != trap_return,
{
}

/// The user registers of a task as they were when it trapped: the general
/// registers, the status register and the program counter.
#[derive(Debug, Clone, PartialEq, Eq)]
pub struct TrapContext {
    pub x: [usize; 32],
    pub sstatus: usize,
    pub sepc: usize,
}

/// A system call as the user registers hold it.
#[derive(Debug, Clone, Copy, PartialEq, Eq)]
pub struct SyscallRequest {
    pub id: usize,
    pub args: [usize; 6],
}

/// The register image of a system call's result: the two's complement of
/// `result` in a machine word.
pub open spec fn result_image(result: isize) -> usize {
    if result >= 0 {
        result as usize
    } else {
        (result + usize::MAX + 1) as usize
    }
}

impl TrapContext {
    /// The system call that the registers ask for: its number in `a7`, its
    /// six arguments in `a0` to `a5`.
    pub open spec fn syscall_request(&self) -> SyscallRequest {
        SyscallRequest {
            id: self.x[17],
            args: [self.x[10], self.x[11], self.x[12], self.x[13], self.x[14], self.x[15]],
        }
    }

    /// Reads the system call out of the registers and moves the program
    /// counter past the instruction that made it, so that the task goes on
    /// behind it.
    pub fn begin_syscall(&mut self) -> (request: SyscallRequest)
        requires
            old(self).sepc + ECALL_LENGTH <= usize::MAX,
        ensures
            request == old(self).syscall_request(),
            final(self).sepc == old(self).sepc + ECALL_LENGTH,
            final(self).x == old(self).x,
            final(self).sstatus == old(self).sstatus,
    {
        self.sepc = self.sepc + ECALL_LENGTH;
        SyscallRequest {
            id: self.x[SYSCALL_ID_REGISTER],
            args: [
                self.x[SYSCALL_ARG_REGISTER],
                self.x[SYSCALL_ARG_REGISTER + 1],
                self.x[SYSCALL_ARG_REGISTER + 2],
                self.x[SYSCALL_ARG_REGISTER + 3],
                self.x[SYSCALL_ARG_REGISTER + 4],
                self.x[SYSCALL_ARG_REGISTER + 5],
            ],
        }
    }

    /// Writes the result of a system call into `a0`.
    pub fn set_syscall_result(&mut self, result: isize)
        ensures
            final(self).x@ == old(self).x@.update(10, result_image(result)),
            final(self).sstatus == old(self).sstatus,
            final(self).sepc == old(self).sepc,
    {
        let image = #[verifier::truncate] (result as usize);
        proof {
            lemma_result_image(result);
        }
        self.x[SYSCALL_ARG_REGISTER] = image;
    }
}

/// A cast of a signed word to an unsigned one gives its two's complement.
proof fn lemma_result_image(result: isize)
    ensures
        result as usize == result_image(result),
{
    if usize::BITS == 32 {
        assert(result >= 0 ==> result as usize == result) by (bit_vector)
            requires
                usize::BITS == 32,
        ;
        assert(result < 0 ==> result as usize == result + 0x1_0000_0000) by (bit_vector)
            requires
                usize::BITS == 32,
        ;
    } else {
        assert(result >= 0 ==> result as usize == result) by (bit_vector)
            requires
                usize::BITS == 64,
        ;
        assert(result < 0 ==> result as usize == result + 0x1_0000_0000_0000_0000) by (bit_vector)
            requires
                usize::BITS == 64,
        ;
    }
}

} // verus!
