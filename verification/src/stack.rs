//! The stack pool: one kernel-mode and one user-mode stack buffer per
//! application id, page aligned, reserved once at kernel initialization.

use vstd::prelude::*;
use crate::config::{KERNEL_STACK_SIZE, MAX_APP_NUM, PAGE_SIZE, USER_STACK_SIZE};
use crate::trap::{TrapContext, TRAP_CONTEXT_SIZE};

verus! {

/// One application's kernel-mode stack: a page-aligned buffer of
/// [`KERNEL_STACK_SIZE`] bytes starting at `base`, growing downward from
/// its top.  `stored` models the trap context occupying the
/// [`TRAP_CONTEXT_SIZE`] bytes directly below the top, once one has been
/// pushed there.
pub struct KernelStack {
    /// Lowest address of the reserved buffer.
    pub base: usize,
    /// The trap context stored at the top of the stack, if any.
    pub stored: Option<TrapContext>,
}

/// One application's user-mode stack: a page-aligned buffer of
/// [`USER_STACK_SIZE`] bytes starting at `base`, growing downward from its
/// top.  The application itself writes here; the kernel only hands out the
/// initial stack pointer.
pub struct UserStack {
    /// Lowest address of the reserved buffer.
    pub base: usize,
}

impl KernelStack {
    /// The buffer is page aligned and its one-past-the-end address still
    /// fits in a machine word; a stored context carries all its registers.
    pub open spec fn wf(&self) -> bool {
        &&& self.base % PAGE_SIZE == 0
        &&& self.base + KERNEL_STACK_SIZE <= usize::MAX
        &&& match self.stored {
            Some(cx) => cx.wf(),
            None => true,
        }
    }

    /// Highest address of the buffer: where the stack begins to grow down.
    pub open spec fn top(&self) -> int {
        self.base + KERNEL_STACK_SIZE
    }

    /// The initial kernel stack pointer: the top of the buffer.
    pub fn get_sp(&self) -> (sp: usize)
        requires
            self.wf(),
        ensures
            sp == self.top(),
    {
        self.base + KERNEL_STACK_SIZE
    }

    /// Store `trap_cx` in the [`TRAP_CONTEXT_SIZE`] bytes directly below
    /// the stack top and return the address it now lives at.
    pub fn push_context(&mut self, trap_cx: TrapContext) -> (cx_ptr: usize)
        requires
            old(self).wf(),
            trap_cx.wf(),
        ensures
            final(self).wf(),
            final(self).base == old(self).base,
            final(self).stored == Some(trap_cx),
            cx_ptr == old(self).top() - TRAP_CONTEXT_SIZE,
    {
        let cx_ptr = self.get_sp() - TRAP_CONTEXT_SIZE;
        self.stored = Some(trap_cx);
        cx_ptr
    }
}

impl UserStack {
    /// The buffer is page aligned and its one-past-the-end address still
    /// fits in a machine word.
    pub open spec fn wf(&self) -> bool {
        &&& self.base % PAGE_SIZE == 0
        &&& self.base + USER_STACK_SIZE <= usize::MAX
    }

    /// Highest address of the buffer: where the stack begins to grow down.
    pub open spec fn top(&self) -> int {
        self.base + USER_STACK_SIZE
    }

    /// The initial user stack pointer: the top of the buffer.
    pub fn get_sp(&self) -> (sp: usize)
        requires
            self.wf(),
        ensures
            sp == self.top(),
    {
        self.base + USER_STACK_SIZE
    }
}

/// The per-application stacks: one kernel and one user stack for each
/// application id in `[0, MAX_APP_NUM)`, built once at kernel
/// initialization in place of link-time static buffers, and handed by
/// reference to whoever drives loading and scheduling.
pub struct StackPool {
    /// Kernel-mode stacks, indexed by application id.
    pub kernel: Vec<KernelStack>,
    /// User-mode stacks, indexed by application id.
    pub user: Vec<UserStack>,
}

impl StackPool {
    /// Both arrays hold exactly one well-formed stack per application id.
    pub open spec fn wf(&self) -> bool {
        &&& self.kernel@.len() == MAX_APP_NUM
        &&& self.user@.len() == MAX_APP_NUM
        &&& forall|i: int| 0 <= i < MAX_APP_NUM ==> (#[trigger] self.kernel@[i]).wf()
        &&& forall|i: int| 0 <= i < MAX_APP_NUM ==> (#[trigger] self.user@[i]).wf()
    }

    /// Reserve the stacks: kernel stacks laid out back to back upward from
    /// `kernel_base`, user stacks from `user_base`, nothing stored on any
    /// of them yet.
    pub fn new(kernel_base: usize, user_base: usize) -> (pool: StackPool)
        requires
            kernel_base % PAGE_SIZE == 0,
            user_base % PAGE_SIZE == 0,
            kernel_base + MAX_APP_NUM * KERNEL_STACK_SIZE <= usize::MAX,
            user_base + MAX_APP_NUM * USER_STACK_SIZE <= usize::MAX,
        ensures
            pool.wf(),
            forall|i: int| 0 <= i < MAX_APP_NUM ==> (#[trigger] pool.kernel@[i]).base
                == kernel_base + i * KERNEL_STACK_SIZE,
            forall|i: int| 0 <= i < MAX_APP_NUM ==> (#[trigger] pool.user@[i]).base
                == user_base + i * USER_STACK_SIZE,
            forall|i: int| 0 <= i < MAX_APP_NUM ==> (#[trigger] pool.kernel@[i]).stored is None,
    {
        let mut kernel: Vec<KernelStack> = Vec::new();
        let mut user: Vec<UserStack> = Vec::new();
        let mut i: usize = 0;
        while i < MAX_APP_NUM
            invariant
                i <= MAX_APP_NUM,
                kernel_base % PAGE_SIZE == 0,
                user_base % PAGE_SIZE == 0,
                kernel_base + MAX_APP_NUM * KERNEL_STACK_SIZE <= usize::MAX,
                user_base + MAX_APP_NUM * USER_STACK_SIZE <= usize::MAX,
                kernel@.len() == i,
                user@.len() == i,
                forall|j: int| 0 <= j < i ==> (#[trigger] kernel@[j]).base
                    == kernel_base + j * KERNEL_STACK_SIZE,
                forall|j: int| 0 <= j < i ==> (#[trigger] user@[j]).base
                    == user_base + j * USER_STACK_SIZE,
                forall|j: int| 0 <= j < i ==> (#[trigger] kernel@[j]).stored is None,
                forall|j: int| 0 <= j < i ==> (#[trigger] kernel@[j]).wf(),
                forall|j: int| 0 <= j < i ==> (#[trigger] user@[j]).wf(),
            decreases MAX_APP_NUM - i,
        {
            kernel.push(KernelStack { base: kernel_base + i * KERNEL_STACK_SIZE, stored: None });
            user.push(UserStack { base: user_base + i * USER_STACK_SIZE });
            i += 1;
        }
        StackPool { kernel, user }
    }
}

} // verus!
