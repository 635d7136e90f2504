//! Classification of the supervisor cause register.

use crate::bits::{bit_is_set, get_bit};
use riscv::register::scause;
use vstd::prelude::*;

verus! {

/// An interrupt, by the code that the cause register holds for it.
#[derive(Clone, Copy, Debug, PartialEq, Eq, Structural)]
pub enum Interrupt {
    UserSoft,
    SupervisorSoft,
    UserTimer,
    SupervisorTimer,
    UserExternal,
    SupervisorExternal,
    Unknown,
}

/// An exception, by the code that the cause register holds for it.
#[derive(Clone, Copy, Debug, PartialEq, Eq, Structural)]
pub enum Exception {
    InstructionMisaligned,
    InstructionFault,
    IllegalInstruction,
    Breakpoint,
    LoadFault,
    StoreMisaligned,
    StoreFault,
    UserEnvCall,
    InstructionPageFault,
    LoadPageFault,
    StorePageFault,
    Unknown,
}

/// The cause of a trap.
#[derive(Clone, Copy, Debug, PartialEq, Eq, Structural)]
pub enum Trap {
    Interrupt(Interrupt),
    Exception(Exception),
}

/// The interrupt that the privileged architecture assigns to `code`.
pub open spec fn interrupt_of_code(code: usize) -> Interrupt {
    if code == 0 {
        Interrupt::UserSoft
    } else if code == 1 {
        Interrupt::SupervisorSoft
    } else if code == 4 {
        Interrupt::UserTimer
    } else if code == 5 {
        Interrupt::SupervisorTimer
    } else if code == 8 {
        Interrupt::UserExternal
    } else if code == 9 {
        Interrupt::SupervisorExternal
    } else {
        Interrupt::Unknown
    }
}

/// The exception that the privileged architecture assigns to `code`.
pub open spec fn exception_of_code(code: usize) -> Exception {
    if code == 0 {
        Exception::InstructionMisaligned
    } else if code == 1 {
        Exception::InstructionFault
    } else if code == 2 {
        Exception::IllegalInstruction
    } else if code == 3 {
        Exception::Breakpoint
    } else if code == 5 {
        Exception::LoadFault
    } else if code == 6 {
        Exception::StoreMisaligned
    } else if code == 7 {
        Exception::StoreFault
    } else if code == 8 {
        Exception::UserEnvCall
    } else if code == 12 {
        Exception::InstructionPageFault
    } else if code == 13 {
        Exception::LoadPageFault
    } else if code == 15 {
        Exception::StorePageFault
    } else {
        Exception::Unknown
    }
}

/// Calls `riscv::register::scause::Interrupt::from`.
///
/// Trusted: the crate maps the codes 0, 1, 4, 5, 8 and 9 to the six known
/// interrupts and every other code to `Unknown`.
#[verifier::external_body]
fn interrupt_from(code: usize) -> (interrupt: Interrupt)
    ensures
        interrupt == interrupt_of_code(code),
{
    match scause::Interrupt::from(code) {
        scause::Interrupt::UserSoft => Interrupt::UserSoft,
        scause::Interrupt::SupervisorSoft => Interrupt::SupervisorSoft,
        scause::Interrupt::UserTimer => Interrupt::UserTimer,
        scause::Interrupt::SupervisorTimer => Interrupt::SupervisorTimer,
        scause::Interrupt::UserExternal => Interrupt::UserExternal,
        scause::Interrupt::SupervisorExternal => Interrupt::SupervisorExternal,
        scause::Interrupt::Unknown => Interrupt::Unknown,
    }
}

/// Calls `riscv::register::scause::Exception::from`.
///
/// Trusted: the crate maps the codes 0 to 3, 5 to 8, 12, 13 and 15 to the
/// eleven known exceptions and every other code to `Unknown`.
#[verifier::external_body]
fn exception_from(code: usize) -> (exception: Exception)
    ensures
        exception == exception_of_code(code),
{
    match scause::Exception::from(code) {
        scause::Exception::InstructionMisaligned => Exception::InstructionMisaligned,
        scause::Exception::InstructionFault => Exception::InstructionFault,
        scause::Exception::IllegalInstruction => Exception::IllegalInstruction,
        scause::Exception::Breakpoint => Exception::Breakpoint,
        scause::Exception::LoadFault => Exception::LoadFault,
        scause::Exception::StoreMisaligned => Exception::StoreMisaligned,
        scause::Exception::StoreFault => Exception::StoreFault,
        scause::Exception::UserEnvCall => Exception::UserEnvCall,
        scause::Exception::InstructionPageFault => Exception::InstructionPageFault,
        scause::Exception::LoadPageFault => Exception::LoadPageFault,
        scause::Exception::StorePageFault => Exception::StorePageFault,
        scause::Exception::Unknown => Exception::Unknown,
    }
}

/// The smallest register value whose top bit, the interrupt flag, is set.
pub open spec fn interrupt_flag() -> int {
    usize::MAX / 2 + 1
}

/// Whether the cause register value `scause` reports an interrupt.
pub open spec fn is_interrupt(scause: usize) -> bool {
    scause >= interrupt_flag()
}

/// The code field of the cause register value `scause`: the value without
/// the interrupt flag.
pub open spec fn code_of(scause: usize) -> usize {
    if is_interrupt(scause) {
        (scause - interrupt_flag()) as usize
    } else {
        scause
    }
}

/// The trap that the cause register value `scause` stands for.
pub open spec fn cause_of(scause: usize) -> Trap {
    if is_interrupt(scause) {
        Trap::Interrupt(interrupt_of_code(code_of(scause)))
    } else {
        Trap::Exception(exception_of_code(code_of(scause)))
    }
}

proof fn lemma_top_bit_32(value: u32)
    by (bit_vector)
    ensures
        (value & (1u32 << 31u32) != 0) <==> value >= 0x8000_0000u32,
{
}

proof fn lemma_top_bit_64(value: u64)
    by (bit_vector)
    ensures
        (value & (1u64 << 63u64) != 0) <==> value >= 0x8000_0000_0000_0000u64,
{
}

/// The top bit of a word is set exactly when the word reaches the interrupt flag.
proof fn lemma_top_bit(value: usize)
    ensures
        bit_is_set(value, (usize::BITS - 1) as usize) <==> is_interrupt(value),
{
    if usize::BITS == 32 {
        lemma_top_bit_32(value as u32);
        assert(value & (1usize << 31usize) == (value as u32 & (1u32 << 31u32)) as usize)
            by (bit_vector)
            requires usize::BITS == 32;
    } else {
        lemma_top_bit_64(value as u64);
        assert(value & (1usize << 63usize) == (value as u64 & (1u64 << 63u64)) as usize)
            by (bit_vector)
            requires usize::BITS == 64;
    }
}

/// Decodes the cause register: the top bit tells interrupts from
/// exceptions, the remaining bits hold the code.
pub fn classify(scause: usize) -> (trap: Trap)
    ensures
        trap == cause_of(scause),
{
    let top: usize = (usize::BITS - 1) as usize;
    proof {
        lemma_top_bit(scause);
    }
    if get_bit(scause, top) {
        Trap::Interrupt(interrupt_from(scause - (usize::MAX / 2 + 1)))
    } else {
        Trap::Exception(exception_from(scause))
    }
}

} // verus!
