//! Typed access to RISC-V control/status registers and to the memory-mapped
//! interrupt controllers (CLINT and PLIC) that sit beside them.
//!
//! Nothing in this crate touches hardware. Register types wrap a raw machine
//! word and decode it into named fields; peripheral handles compute the
//! addresses of their sub-registers; operations that change a CSR are returned
//! as values for the caller to perform.

pub mod error;
pub mod aclint;
pub mod bits;
pub mod board;
pub mod clint;
pub mod csr;
pub mod delay;
pub mod field;
pub mod hart;
pub mod index;
pub mod plic;
pub mod register;
