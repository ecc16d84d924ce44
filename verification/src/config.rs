//! Build-time constants: slot geometry, stack sizes, application count.

use vstd::prelude::*;

verus! {

/// Bytes in one memory page; the stack buffers are aligned to this.
pub const PAGE_SIZE: usize = 4096;

/// Greatest number of applications the kernel supports; the memory slots
/// and the stack pairs are reserved for exactly this many.
pub const MAX_APP_NUM: usize = 4;

/// Lowest address of the application area: the base of slot 0.
pub const APP_BASE_ADDRESS: usize = 0x80400000;

/// Bytes reserved for one application: the size of each memory slot.
pub const APP_SIZE_LIMIT: usize = 0x20000;

/// Bytes in the whole application area: one slot per possible application.
pub const APP_AREA_SIZE: usize = MAX_APP_NUM * APP_SIZE_LIMIT;

/// Bytes in each application's kernel-mode stack buffer.
pub const KERNEL_STACK_SIZE: usize = 4096 * 2;

/// Bytes in each application's user-mode stack buffer.
pub const USER_STACK_SIZE: usize = 4096 * 2;

} // verus!
