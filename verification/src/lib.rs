//! Trap dispatch, privilege transition and virtual timer multiplexing for a
//! multi-hart RISC-V kernel with delegated user-level interrupts.

pub mod bits;
pub mod cause;
pub mod config;
pub mod context;
pub mod hart;
pub mod ops;
pub mod runtime;
pub mod timer;
pub mod transition;
pub mod trap;
pub mod usertrap;
