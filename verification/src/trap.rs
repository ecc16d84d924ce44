//! The trap context: the machine-state record that first enters an
//! application, and the state saved and restored around its later traps.

use vstd::prelude::*;

verus! {

/// Number of general-purpose registers a trap context carries.
pub const NUM_REGS: usize = 32;

/// Bytes a trap context occupies when stored on a kernel stack: the
/// general-purpose registers, the status word and the program counter,
/// one eight-byte machine word each.
pub const TRAP_CONTEXT_SIZE: usize = (32 + 2) * 8;

/// Machine state sufficient to enter (or resume) an application: the 32
/// general-purpose registers, the privilege flag of the status register,
/// and the program counter execution resumes at.
pub struct TrapContext {
    /// General-purpose registers `x0..x31`; `x[2]` is the stack pointer.
    pub x: Vec<usize>,
    /// Previous-privilege flag of the status register: when set, the trap
    /// return drops to unprivileged (user) mode.
    pub spp_user: bool,
    /// Exception program counter: the address the trap return jumps to.
    pub sepc: usize,
}

impl TrapContext {
    /// A context is well formed when it carries exactly the 32 registers.
    pub open spec fn wf(&self) -> bool {
        self.x@.len() == NUM_REGS
    }

    /// The stack pointer, held in register `x2`.
    pub open spec fn sp(&self) -> usize
        recommends
            self.wf(),
    {
        self.x@[2]
    }

    /// Build the context that first enters an application: program counter
    /// at `entry`, stack pointer at `sp`, every other register zero, and
    /// the status flag set so that the trap return lands in user mode.
    pub fn app_init_context(entry: usize, sp: usize) -> (cx: TrapContext)
        ensures
            cx.wf(),
            cx.sepc == entry,
            cx.spp_user,
            cx.sp() == sp,
            forall|k: int| 0 <= k < NUM_REGS && k != 2 ==> cx.x@[k] == 0,
    {
        let mut x: Vec<usize> = Vec::new();
        while x.len() < NUM_REGS
            invariant
                x@.len() <= NUM_REGS,
                forall|k: int| 0 <= k < x@.len() ==> x@[k] == 0,
            decreases NUM_REGS - x@.len(),
        {
            x.push(0);
        }
        x[2] = sp;
        TrapContext { x, spp_user: true, sepc: entry }
    }
}

} // verus!
