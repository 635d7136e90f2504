//! Fixed virtual addresses shared by every address space.

use vstd::prelude::*;

verus! {

/// Size of one page of virtual memory.
pub const PAGE_SIZE: usize = 0x1000;

/// Base of the trampoline page, the topmost page of every address space.
pub const TRAMPOLINE: usize = usize::MAX - PAGE_SIZE + 1;

/// Base of the trap-context page of the running task, just below the trampoline.
pub const TRAP_CONTEXT: usize = TRAMPOLINE - PAGE_SIZE;

/// Whether address space `asid` has a swap-context page: whether the page
/// that [`swap_contex_va`] would name lies in the address space.
pub open spec fn has_swap_context(asid: usize) -> bool {
    asid * PAGE_SIZE <= TRAP_CONTEXT
}

/// The address of the swap-context page of address space `asid`: the pages
/// lie below one another, that of address space 0 on the trap-context page.
pub open spec fn swap_contex_va_spec(asid: usize) -> int {
    TRAP_CONTEXT - asid * PAGE_SIZE
}

/// Tells whether address space `asid` has a swap-context page.
pub fn swap_contex_exists(asid: usize) -> (exists: bool)
    ensures
        exists == has_swap_context(asid),
{
    asid <= TRAP_CONTEXT / PAGE_SIZE
}

/// Virtual address of the swap-context page of address space `asid`.
pub fn swap_contex_va(asid: usize) -> (va: usize)
    requires
        has_swap_context(asid),
    ensures
        va == swap_contex_va_spec(asid),
{
    TRAP_CONTEXT - asid * PAGE_SIZE
}

} // verus!
