//! Application loader and first-entry context builder for a single-core,
//! non-paged multiprogramming kernel.
//!
//! The kernel image carries every application binary, baked in at build
//! time together with an offset table.  At boot, the loader copies each
//! application into its fixed memory slot, zero-filling the remainder of
//! the slot, and builds the initial machine-state record (a trap context)
//! from which the external trap-return mechanism first enters the
//! application in user mode on its own stack.
//!
//! The raw region the kernel writes into, and the metadata table it reads,
//! are modelled as owned values: [`loader::AppMemory`] stands for the
//! application area, [`catalog::ImageCatalog`] for the parsed metadata,
//! and [`stack::StackPool`] for the per-application stack buffers.  The
//! thin boot-side glue that reads the link-embedded table through raw
//! pointers lives outside this crate and hands plain values in.

pub mod catalog;
pub mod config;
pub mod loader;
pub mod stack;
pub mod trap;
