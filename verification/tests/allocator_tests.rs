use lib::allocator::{init, BumpAllocator};

#[test]
fn kmalloc_rounds_up_past_the_end() {
    let mut a: BumpAllocator = init(0x100000);
    let p = a.kmalloc(16, 8);
    assert_eq!(p, 0x100008);
    assert_eq!(a.end, 0x100020);
    let q = a.kmalloc(4, 4);
    assert_eq!(q, 0x100024);
    assert_eq!(a.end, 0x10002C);
    // the two blocks do not overlap
    assert!(p + 16 < q);
}

#[test]
fn kmalloc_aligns_an_unaligned_end() {
    let mut a = init(0x1003);
    let p = a.kmalloc(10, 16);
    assert_eq!(p, 0x1010);
    assert_eq!(p % 16, 0);
    assert_eq!(a.end, 0x1010 + 26);
}

#[test]
fn kmalloc_with_alignment_one() {
    let mut a = init(5);
    let p = a.kmalloc(3, 1);
    assert_eq!(p, 6);
    assert_eq!(a.end, 10);
}

#[test]
fn kmalloc_with_odd_alignment_still_moves_forward() {
    // align 3 masks with !2
    let mut a = init(7);
    let p = a.kmalloc(2, 3);
    assert_eq!(p, (7 & !2u32) + 3);
    assert!(p > 7);
    assert_eq!(a.end, p + 5);
}

#[test]
fn kmalloc_zero_size() {
    let mut a = init(0x2000);
    let p = a.kmalloc(0, 4);
    assert_eq!(p, 0x2004);
    assert_eq!(a.end, 0x2008);
}

#[test]
fn kfree_gives_nothing_back() {
    let mut a = init(0x3000);
    let p = a.kmalloc(32, 16);
    let end = a.end;
    a.kfree(p, 32, 16);
    assert_eq!(a.end, end);
}
