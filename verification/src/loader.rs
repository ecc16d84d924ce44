//! The loader: zeroes and populates each application's fixed memory slot
//! from its image bytes, and builds the first-entry trap context atop the
//! application's kernel stack.

use vstd::prelude::*;
use vstd::slice::slice_subrange;
use crate::catalog::ImageCatalog;
use crate::config::{APP_AREA_SIZE, APP_BASE_ADDRESS, APP_SIZE_LIMIT, MAX_APP_NUM};
use crate::stack::StackPool;
use crate::trap::{TrapContext, TRAP_CONTEXT_SIZE};

verus! {

/// Why loading was refused.  Either condition is fatal at boot: the
/// kernel must not go on to scheduling when an application cannot be
/// placed whole in its slot.
#[derive(Clone, Copy, Debug, PartialEq, Eq, Structural)]
pub enum LoadError {
    /// The catalog holds more applications than there are memory slots.
    TooManyApps,
    /// The named application's image is longer than its slot.
    ImageTooLarge(usize),
}

/// Base address of application `i`'s memory slot.
pub open spec fn slot_base(i: int) -> int {
    APP_BASE_ADDRESS + i * APP_SIZE_LIMIT
}

/// Offset of application `i`'s slot inside the application area.
pub open spec fn slot_off(i: int) -> int {
    i * APP_SIZE_LIMIT
}

/// Byte `off` of slot `i` holds what a correct load leaves there: the
/// application's own byte where `off` is within the image, zero padding
/// beyond it.
pub open spec fn slot_byte_loaded(mem: Seq<u8>, i: int, off: int, img: Seq<u8>) -> bool {
    mem[slot_off(i) + off] == if off < img.len() {
        img[off]
    } else {
        0u8
    }
}

/// Slot `i` holds exactly `img` followed by zero padding.
pub open spec fn slot_holds(mem: Seq<u8>, i: int, img: Seq<u8>) -> bool {
    forall|off: int| 0 <= off < APP_SIZE_LIMIT ==> #[trigger] slot_byte_loaded(mem, i, off, img)
}

/// Every byte of the area outside `[lo, hi)` is the same in `new_mem` as
/// in `old_mem`.
pub open spec fn unchanged_outside(old_mem: Seq<u8>, new_mem: Seq<u8>, lo: int, hi: int) -> bool {
    forall|k: int|
        #![trigger new_mem[k]]
        0 <= k < old_mem.len() && !(lo <= k < hi) ==> new_mem[k] == old_mem[k]
}

/// The fixed application area: an owned, bounds-checked stand-in for the
/// raw byte region `[APP_BASE_ADDRESS, APP_BASE_ADDRESS + APP_AREA_SIZE)`
/// that the kernel loads applications into.  Index `k` of the contents
/// models the byte at address `APP_BASE_ADDRESS + k`.
pub struct AppMemory {
    bytes: Vec<u8>,
    synced: bool,
}

impl AppMemory {
    /// The bytes of the area; index `k` models address
    /// `APP_BASE_ADDRESS + k`.
    pub closed spec fn contents(&self) -> Seq<u8> {
        self.bytes@
    }

    /// Whether instruction fetch is guaranteed to see the current bytes:
    /// set by [`AppMemory::sync_icache`], cleared by every write.
    pub closed spec fn synced(&self) -> bool {
        self.synced
    }

    /// The area spans exactly one slot per possible application.
    pub open spec fn wf(&self) -> bool {
        self.contents().len() == APP_AREA_SIZE
    }

    /// Reserve the area: every byte zero, no synchronization barrier
    /// issued yet.
    pub fn new() -> (m: AppMemory)
        ensures
            m.wf(),
            !m.synced(),
            forall|k: int| 0 <= k < APP_AREA_SIZE ==> m.contents()[k] == 0,
    {
        let mut bytes: Vec<u8> = Vec::new();
        while bytes.len() < APP_AREA_SIZE
            invariant
                bytes@.len() <= APP_AREA_SIZE,
                forall|k: int| 0 <= k < bytes@.len() ==> bytes@[k] == 0,
            decreases APP_AREA_SIZE - bytes@.len(),
        {
            bytes.push(0);
        }
        AppMemory { bytes, synced: false }
    }

    /// Read one byte; index `k` models address `APP_BASE_ADDRESS + k`.
    pub fn byte_at(&self, k: usize) -> (b: u8)
        requires
            self.wf(),
            k < APP_AREA_SIZE,
        ensures
            b == self.contents()[k as int],
    {
        self.bytes[k]
    }

    /// Borrow the whole area's bytes.
    pub fn as_bytes(&self) -> (r: &Vec<u8>)
        ensures
            r@ == self.contents(),
    {
        &self.bytes
    }

    /// Make the freshly written bytes visible to instruction fetch: the
    /// one instruction-memory synchronization barrier a load batch needs
    /// before any loaded code runs.  On real hardware this is a fence of
    /// the instruction cache; here it is the capability the rest of the
    /// logic is written against.
    pub fn sync_icache(&mut self)
        ensures
            final(self).wf() == old(self).wf(),
            final(self).contents() == old(self).contents(),
            final(self).synced(),
    {
        self.synced = true;
    }

    /// Zero application `app_id`'s whole slot, then copy `src` to its
    /// start: the explicit, bounds-checked copy.  An image longer than
    /// the slot is reported as an overflow and writes nothing, rather
    /// than silently running over into the next slot.
    pub fn load_slot(&mut self, app_id: usize, src: &[u8]) -> (r: Result<(), LoadError>)
        requires
            old(self).wf(),
            app_id < MAX_APP_NUM,
        ensures
            final(self).wf(),
            r is Ok <==> src@.len() <= APP_SIZE_LIMIT,
            r is Err ==> r == Err::<(), LoadError>(LoadError::ImageTooLarge(app_id))
                && *final(self) == *old(self),
            r is Ok ==> {
                &&& slot_holds(final(self).contents(), app_id as int, src@)
                &&& unchanged_outside(
                    old(self).contents(),
                    final(self).contents(),
                    slot_off(app_id as int),
                    slot_off(app_id as int) + APP_SIZE_LIMIT,
                )
                &&& !final(self).synced()
            },
    {
        if src.len() > APP_SIZE_LIMIT {
            return Err(LoadError::ImageTooLarge(app_id));
        }
        let ghost orig = self.bytes@;
        let base = app_id * APP_SIZE_LIMIT;
        let mut off: usize = 0;
        while off < APP_SIZE_LIMIT
            invariant
                self.bytes@.len() == APP_AREA_SIZE,
                app_id < MAX_APP_NUM,
                base == slot_off(app_id as int),
                off <= APP_SIZE_LIMIT,
                forall|k: int|
                    #![trigger self.bytes@[k]]
                    base <= k < base + off ==> self.bytes@[k] == 0,
                forall|k: int|
                    #![trigger self.bytes@[k]]
                    0 <= k < APP_AREA_SIZE && !(base <= k < base + off) ==> self.bytes@[k]
                        == orig[k],
                orig.len() == APP_AREA_SIZE,
                self.synced == old(self).synced(),
            decreases APP_SIZE_LIMIT - off,
        {
            self.bytes[base + off] = 0;
            off += 1;
        }
        let mut j: usize = 0;
        while j < src.len()
            invariant
                self.bytes@.len() == APP_AREA_SIZE,
                app_id < MAX_APP_NUM,
                base == slot_off(app_id as int),
                src@.len() <= APP_SIZE_LIMIT,
                j <= src@.len(),
                forall|k: int|
                    #![trigger self.bytes@[k]]
                    base <= k < base + j ==> self.bytes@[k] == src@[k - base],
                forall|k: int|
                    #![trigger self.bytes@[k]]
                    base + j <= k < base + APP_SIZE_LIMIT ==> self.bytes@[k] == 0,
                forall|k: int|
                    #![trigger self.bytes@[k]]
                    0 <= k < APP_AREA_SIZE && !(base <= k < base + APP_SIZE_LIMIT)
                        ==> self.bytes@[k] == orig[k],
                orig.len() == APP_AREA_SIZE,
            decreases src@.len() - j,
        {
            self.bytes[base + j] = src[j];
            j += 1;
        }
        self.synced = false;
        proof {
            assert forall|off2: int| 0 <= off2 < APP_SIZE_LIMIT implies #[trigger] slot_byte_loaded(
                self.bytes@,
                app_id as int,
                off2,
                src@,
            ) by {
                assert(self.bytes@[base + off2] == if off2 < src@.len() {
                    src@[off2]
                } else {
                    0u8
                });
            }
        }
        Ok(())
    }
}

/// Base address of application `app_id`'s memory slot: where its first
/// instruction will sit once loaded, and so its entry point.
pub fn get_base_i(app_id: usize) -> (base: usize)
    requires
        app_id < MAX_APP_NUM,
    ensures
        base == slot_base(app_id as int),
{
    APP_BASE_ADDRESS + app_id * APP_SIZE_LIMIT
}

/// Number of applications the catalog holds, as the task manager reads
/// it to size its bookkeeping.
pub fn get_num_app(cat: &ImageCatalog) -> (n: usize)
    ensures
        n == cat.num_app,
{
    cat.num_app
}

/// What a successful `load_apps` leaves in the application area: every
/// application's slot holds its image bytes followed by zero padding,
/// and every byte past the last used slot is untouched.
pub open spec fn load_post(cat: ImageCatalog, old_mem: Seq<u8>, new_mem: Seq<u8>) -> bool {
    &&& new_mem.len() == old_mem.len()
    &&& forall|i: int|
        0 <= i < cat.num_app ==> #[trigger] slot_holds(new_mem, i, cat.app_image(i))
    &&& forall|k: int|
        #![trigger new_mem[k]]
        cat.num_app * APP_SIZE_LIMIT <= k < new_mem.len() ==> new_mem[k] == old_mem[k]
}

/// Copy every application out of the kernel image into its fixed slot,
/// zero-filling the slot's remainder, then issue the one instruction-memory
/// synchronization barrier for the whole batch.  All capacity checks come
/// before any write: a catalog that does not fit leaves the area exactly
/// as it was, and says which limit broke.
#[verifier::loop_isolation(false)]
pub fn load_apps(cat: &ImageCatalog, mem: &mut AppMemory) -> (r: Result<(), LoadError>)
    requires
        cat.wf(),
        old(mem).wf(),
    ensures
        final(mem).wf(),
        match r {
            Ok(()) => {
                &&& cat.num_app <= MAX_APP_NUM
                &&& forall|i: int| 0 <= i < cat.num_app ==> #[trigger] cat.app_len(i)
                    <= APP_SIZE_LIMIT
                &&& load_post(*cat, old(mem).contents(), final(mem).contents())
                &&& final(mem).synced()
            },
            Err(LoadError::TooManyApps) => cat.num_app > MAX_APP_NUM,
            Err(LoadError::ImageTooLarge(i)) => {
                &&& cat.num_app <= MAX_APP_NUM
                &&& i < cat.num_app
                &&& cat.app_len(i as int) > APP_SIZE_LIMIT
                &&& forall|j: int| 0 <= j < i ==> #[trigger] cat.app_len(j) <= APP_SIZE_LIMIT
            },
        },
        r is Err ==> final(mem).contents() == old(mem).contents() && final(mem).synced() == old(
            mem,
        ).synced(),
{
    let num_app = get_num_app(cat);
    if num_app > MAX_APP_NUM {
        return Err(LoadError::TooManyApps);
    }
    let mut i: usize = 0;
    while i < num_app
        invariant
            i <= num_app,
            forall|j: int| 0 <= j < i ==> #[trigger] cat.app_len(j) <= APP_SIZE_LIMIT,
        decreases num_app - i,
    {
        let len = cat.starts[i + 1] - cat.starts[i];
        if len > APP_SIZE_LIMIT {
            return Err(LoadError::ImageTooLarge(i));
        }
        i += 1;
    }
    let ghost orig = mem.contents();
    let mut i: usize = 0;
    while i < num_app
        invariant
            i <= num_app,
            mem.wf(),
            forall|j: int| 0 <= j < num_app ==> #[trigger] cat.app_len(j) <= APP_SIZE_LIMIT,
            forall|a: int| 0 <= a < i ==> #[trigger] slot_holds(mem.contents(), a, cat.app_image(a)),
            forall|k: int|
                #![trigger mem.contents()[k]]
                i * APP_SIZE_LIMIT <= k < APP_AREA_SIZE ==> mem.contents()[k] == orig[k],
        decreases num_app - i,
    {
        let start = cat.starts[i];
        let end = cat.starts[i + 1];
        proof {
            cat.lemma_starts_monotonic(i + 1, cat.num_app as int);
        }
        let src = slice_subrange(cat.image.as_slice(), start, end);
        let ghost before = mem.contents();
        proof {
            assert(cat.app_len(i as int) <= APP_SIZE_LIMIT);
            assert(src@.len() == cat.app_len(i as int));
        }
        // capacity was checked for every application before the first write
        mem.load_slot(i, src).unwrap();
        proof {
            assert forall|a: int| 0 <= a < i + 1 implies #[trigger] slot_holds(
                mem.contents(),
                a,
                cat.app_image(a),
            ) by {
                if a < i {
                    assert(slot_holds(before, a, cat.app_image(a)));
                    assert forall|off: int| 0 <= off < APP_SIZE_LIMIT implies
                        #[trigger] slot_byte_loaded(mem.contents(), a, off, cat.app_image(a)) by {
                        assert(slot_byte_loaded(before, a, off, cat.app_image(a)));
                        assert(mem.contents()[slot_off(a) + off] == before[slot_off(a) + off]);
                    }
                } else {
                    assert(slot_holds(mem.contents(), i as int, src@));
                    assert(src@ == cat.app_image(i as int));
                }
            }
        }
        i += 1;
    }
    mem.sync_icache();
    Ok(())
}

/// Build application `app_id`'s first-entry trap context — program
/// counter at the slot base, stack pointer at the top of its user stack,
/// user privilege — push it onto its kernel stack, and return the address
/// the trap-return mechanism restores machine state from.
pub fn init_app_cx(pool: &mut StackPool, app_id: usize) -> (cx_ptr: usize)
    requires
        old(pool).wf(),
        app_id < MAX_APP_NUM,
    ensures
        final(pool).wf(),
        cx_ptr == old(pool).kernel@[app_id as int].top() - TRAP_CONTEXT_SIZE,
        final(pool).kernel@[app_id as int].base == old(pool).kernel@[app_id as int].base,
        final(pool).kernel@[app_id as int].stored is Some,
        ({
            let cx = final(pool).kernel@[app_id as int].stored.unwrap();
            &&& cx.wf()
            &&& cx.sepc == slot_base(app_id as int)
            &&& cx.sp() == old(pool).user@[app_id as int].top()
            &&& cx.spp_user
        }),
        forall|j: int|
            0 <= j < MAX_APP_NUM && j != app_id ==> final(pool).kernel@[j] == old(pool).kernel@[j],
        final(pool).user@ == old(pool).user@,
{
    let entry = get_base_i(app_id);
    let user_sp = pool.user[app_id].get_sp();
    let cx = TrapContext::app_init_context(entry, user_sp);
    pool.kernel[app_id].push_context(cx)
}

/// An address lies inside application `i`'s memory slot.
pub open spec fn in_slot(addr: int, i: int) -> bool {
    slot_base(i) <= addr < slot_base(i) + APP_SIZE_LIMIT
}

/// Distinct applications' memory slots are disjoint: no address lies in
/// two of them.
pub proof fn lemma_slots_disjoint(addr: int, i: int, j: int)
    requires
        i != j,
    ensures
        !(in_slot(addr, i) && in_slot(addr, j)),
{
}

/// Loading is idempotent: after a second successful `load_apps` with the
/// same catalog, and no execution in between, the application area's
/// contents are exactly what the first load left.
pub proof fn lemma_load_apps_idempotent(cat: ImageCatalog, m0: Seq<u8>, m1: Seq<u8>, m2: Seq<u8>)
    requires
        cat.num_app <= MAX_APP_NUM,
        m0.len() == APP_AREA_SIZE,
        load_post(cat, m0, m1),
        load_post(cat, m1, m2),
    ensures
        m2 == m1,
{
    assert forall|a: int| 0 <= a < m1.len() implies m2[a] == m1[a] by {
        let n = cat.num_app as int;
        if a < n * APP_SIZE_LIMIT {
            let i = a / (APP_SIZE_LIMIT as int);
            let off = a % (APP_SIZE_LIMIT as int);
            vstd::arithmetic::div_mod::lemma_fundamental_div_mod(a, APP_SIZE_LIMIT as int);
            assert(0 <= off < APP_SIZE_LIMIT);
            assert(0 <= i < n);
            assert(slot_holds(m1, i, cat.app_image(i)));
            assert(slot_holds(m2, i, cat.app_image(i)));
            assert(slot_byte_loaded(m1, i, off, cat.app_image(i)));
            assert(slot_byte_loaded(m2, i, off, cat.app_image(i)));
        }
    }
    assert(m2 =~= m1);
}

/// A load of an empty catalog writes nothing: with no applications, the
/// area's contents stay exactly what they were.
pub proof fn lemma_load_apps_empty(cat: ImageCatalog, m0: Seq<u8>, m1: Seq<u8>)
    requires
        cat.num_app == 0,
        load_post(cat, m0, m1),
    ensures
        m1 == m0,
{
    assert(m1 =~= m0);
}

} // verus!
