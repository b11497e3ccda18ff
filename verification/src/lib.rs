//! Memory Management Unit driver for an AArch64 core running at EL1.
//!
//! Only the 64 KiB translation granule is supported.
//!
//! The driver programs the memory-attribute, translation-control and
//! translation-table-base registers, switches translation and caching on,
//! and afterwards answers virtual-to-physical queries against the live
//! translation state. All register-field encodings and the enable/translate
//! state machine are verified against a software model of the per-core
//! system registers and the installed translation tables; the privileged
//! instructions that apply the computed values to real hardware live in the
//! unverified application shell.

pub mod address;
pub mod mmu;
pub mod regs;
