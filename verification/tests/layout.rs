use shim_sev::layout::{
    randomize_base, AddressLayout, BRK_OFFSET_MASK, BRK_REGION_START, IMAGE_OFFSET_MASK,
    IMAGE_REGION_START, STACK_OFFSET_MASK, STACK_REGION_START,
};

/// A small deterministic pseudo-random stream for exercising the masking.
fn xorshift(state: &mut u64) -> u64 {
    let mut x = *state;
    x ^= x << 13;
    x ^= x >> 7;
    x ^= x << 17;
    *state = x;
    x
}

#[test]
fn image_base_computed_once() {
    let mut l = AddressLayout::new();
    let first = l.get_image_base(0x1234_5678_9abc_def0);
    let second = l.get_image_base(0xffff_ffff_ffff_ffff);
    let third = l.get_image_base(0);
    assert_eq!(first, second);
    assert_eq!(first, third);
    assert_eq!(
        first,
        IMAGE_REGION_START + (0x1234_5678_9abc_def0u64 & IMAGE_OFFSET_MASK)
    );
}

#[test]
fn brk_base_computed_once() {
    let mut l = AddressLayout::new();
    let first = l.get_brk_base(0xdead_beef_dead_beef);
    let second = l.get_brk_base(1);
    assert_eq!(first, second);
    assert_eq!(
        first,
        BRK_REGION_START + (0xdead_beef_dead_beefu64 & BRK_OFFSET_MASK)
    );
}

#[test]
fn mmap_base_follows_image_base() {
    let mut l = AddressLayout::new();
    let mmap = l.get_mmap_base(0x1111_2222_3333_4444);
    let image = l.get_image_base(0x9999_8888_7777_6666);
    assert_eq!(mmap, image);
    // The second draw was ignored: the image base was already set by the
    // memory-map read.
    assert_eq!(
        image,
        IMAGE_REGION_START + (0x1111_2222_3333_4444u64 & IMAGE_OFFSET_MASK)
    );
    // And the memory-map base itself never moves again.
    assert_eq!(mmap, l.get_mmap_base(42));
}

#[test]
fn mmap_base_after_image_base() {
    let mut l = AddressLayout::new();
    let image = l.get_image_base(7);
    let mmap = l.get_mmap_base(1_000_000);
    assert_eq!(mmap, image);
}

#[test]
fn bases_stay_in_their_regions() {
    let mut state = 0x8a5c_d789_635d_2dffu64;
    for _ in 0..10_000 {
        let r = xorshift(&mut state);
        let image = randomize_base(IMAGE_REGION_START, IMAGE_OFFSET_MASK, r);
        assert!(image >= IMAGE_REGION_START);
        assert!(image <= IMAGE_REGION_START + IMAGE_OFFSET_MASK);
        assert_eq!(image % 4096, 0);
        let brk = randomize_base(BRK_REGION_START, BRK_OFFSET_MASK, r);
        assert!(brk >= BRK_REGION_START);
        assert!(brk <= BRK_REGION_START + BRK_OFFSET_MASK);
        assert_eq!(brk % 4096, 0);
        let stack = randomize_base(STACK_REGION_START, STACK_OFFSET_MASK, r);
        assert!(stack >= STACK_REGION_START);
        assert!(stack <= STACK_REGION_START + STACK_OFFSET_MASK);
        assert_eq!(stack % 4096, 0);
    }
}
