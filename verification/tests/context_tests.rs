use app_loader::catalog::ImageCatalog;
use app_loader::config::{KERNEL_STACK_SIZE, USER_STACK_SIZE};
use app_loader::loader::{get_base_i, init_app_cx, load_apps, AppMemory};
use app_loader::stack::{KernelStack, StackPool, UserStack};
use app_loader::trap::{TrapContext, NUM_REGS, TRAP_CONTEXT_SIZE};

const KERNEL_STACKS_BASE: usize = 0x80200000;
const USER_STACKS_BASE: usize = 0x80300000;

#[test]
fn app_init_context_fields() {
    let cx = TrapContext::app_init_context(0x80420000, 0x12340000);
    assert_eq!(cx.x.len(), NUM_REGS);
    assert_eq!(cx.sepc, 0x80420000);
    assert_eq!(cx.x[2], 0x12340000);
    assert!(cx.spp_user);
    for (k, reg) in cx.x.iter().enumerate() {
        if k != 2 {
            assert_eq!(*reg, 0);
        }
    }
}

#[test]
fn stack_tops_grow_downward_from_the_end() {
    let ks = KernelStack { base: 4096 * 10, stored: None };
    assert_eq!(ks.get_sp(), 4096 * 10 + KERNEL_STACK_SIZE);
    let us = UserStack { base: 4096 * 20 };
    assert_eq!(us.get_sp(), 4096 * 20 + USER_STACK_SIZE);
}

#[test]
fn push_context_sits_just_below_the_top() {
    let mut ks = KernelStack { base: 4096 * 10, stored: None };
    let cx = TrapContext::app_init_context(0x80400000, 0x55550000);
    let ptr = ks.push_context(cx);
    assert_eq!(ptr, 4096 * 10 + KERNEL_STACK_SIZE - TRAP_CONTEXT_SIZE);
    let stored = ks.stored.as_ref().unwrap();
    assert_eq!(stored.sepc, 0x80400000);
    assert_eq!(stored.x[2], 0x55550000);
}

#[test]
fn pool_lays_stacks_back_to_back() {
    let pool = StackPool::new(KERNEL_STACKS_BASE, USER_STACKS_BASE);
    for i in 0..4 {
        assert_eq!(pool.kernel[i].base, KERNEL_STACKS_BASE + i * KERNEL_STACK_SIZE);
        assert_eq!(pool.user[i].base, USER_STACKS_BASE + i * USER_STACK_SIZE);
        assert!(pool.kernel[i].stored.is_none());
    }
}

#[test]
fn init_app_cx_builds_the_first_entry_context() {
    let mut pool = StackPool::new(KERNEL_STACKS_BASE, USER_STACKS_BASE);
    let ptr = init_app_cx(&mut pool, 0);
    let top = KERNEL_STACKS_BASE + KERNEL_STACK_SIZE;
    assert_eq!(ptr, top - TRAP_CONTEXT_SIZE);
    let cx = pool.kernel[0].stored.as_ref().unwrap();
    assert_eq!(cx.sepc, get_base_i(0));
    assert_eq!(cx.x[2], USER_STACKS_BASE + USER_STACK_SIZE);
    assert!(cx.spp_user);
    // the other stacks are untouched
    for i in 1..4 {
        assert!(pool.kernel[i].stored.is_none());
    }
}

#[test]
fn concrete_boot_scenario() {
    // four slots of 0x20000 bytes from 0x80400000; application 1 carries
    // 300 content bytes
    let c1: Vec<u8> = (0..300).map(|k| (k % 251 + 1) as u8).collect();
    let mut image: Vec<u8> = vec![0xEE; 17];
    image.extend_from_slice(&c1);
    let table: Vec<usize> = vec![2, 0, 17, 17 + 300];
    let cat = ImageCatalog::new(&table, image).unwrap();

    let mut mem = AppMemory::new();
    assert_eq!(load_apps(&cat, &mut mem), Ok(()));
    assert_eq!(get_base_i(1), 0x80420000);
    let slot1 = 0x80420000 - 0x80400000;
    for k in 0..300 {
        assert_eq!(mem.byte_at(slot1 + k), c1[k]);
    }
    for k in 300..0x20000 {
        assert_eq!(mem.byte_at(slot1 + k), 0);
    }

    let mut pool = StackPool::new(KERNEL_STACKS_BASE, USER_STACKS_BASE);
    let ptr = init_app_cx(&mut pool, 1);
    let base1 = pool.kernel[1].base;
    assert!(base1 <= ptr && ptr < base1 + KERNEL_STACK_SIZE);
    assert_eq!(pool.kernel[1].stored.as_ref().unwrap().sepc, 0x80420000);
}
