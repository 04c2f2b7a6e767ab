use shim_sev::boot::{advance_stage, crt0setup, execute_payload, init_name, lang_env, BootStage};
use shim_sev::crt0::{
    FinalizedStack, VectorBuilder, AT_CLKTCK, AT_EGID, AT_ENTRY, AT_EUID, AT_EXECFN, AT_FLAGS,
    AT_GID, AT_HWCAP, AT_HWCAP2, AT_NULL, AT_PAGESZ, AT_PHDR, AT_PHENT, AT_PHNUM, AT_PLATFORM,
    AT_RANDOM, AT_SECURE, AT_UID,
};
use shim_sev::elf::{ElfHeader, PayloadImage, ProgramHeader, PF_R, PF_W, PF_X, PT_LOAD};
use shim_sev::layout::{
    AddressLayout, STACK_OFFSET_MASK, STACK_REGION_START, STACK_SIZE,
};
use shim_sev::BootFault;

fn header() -> ElfHeader {
    let mut ident = vec![0x7f, 0x45, 0x4c, 0x46];
    ident.extend_from_slice(&[0u8; 12]);
    ElfHeader {
        ident,
        entry: 0x1234,
        ph_offset: 64,
        ph_entry_size: 56,
        ph_count: 1,
    }
}

/// Read the 64-bit little-endian word at byte offset `off` of the vector.
fn word_at(fs: &FinalizedStack, off: usize) -> u64 {
    let mut v = 0u64;
    for k in 0..8 {
        v |= (fs.bytes[off + k] as u64) << (8 * k);
    }
    v
}

/// Read the zero-terminated string a vector pointer refers to.
fn cstr_at(fs: &FinalizedStack, ptr: u64) -> Vec<u8> {
    let mut off = (ptr - fs.sp) as usize;
    let mut s = Vec::new();
    while fs.bytes[off] != 0 {
        s.push(fs.bytes[off]);
        off += 1;
    }
    s
}

#[test]
fn vector_layout_and_aux_values_are_exact() {
    let h = header();
    let base = 0x7ff0_1000_0000u64;
    let image_base = 0x7f00_2000_0000u64;
    let (entry, fs) = crt0setup(image_base, &h, base, STACK_SIZE, 0x1f8b_fbff, 7, 9).unwrap();
    assert_eq!(entry, image_base + 0x1234);
    assert_eq!(fs.sp % 16, 0);
    assert_eq!(fs.sp + fs.bytes.len() as u64, base + STACK_SIZE);

    // argc and the single argument "/init".
    assert_eq!(word_at(&fs, 0), 1);
    let argv0 = word_at(&fs, 8);
    assert_eq!(cstr_at(&fs, argv0), init_name());
    assert_eq!(word_at(&fs, 16), 0);

    // Four environment strings, the first one "LANG=C".
    let env0 = word_at(&fs, 24);
    assert_eq!(cstr_at(&fs, env0), lang_env());
    for k in 0..4 {
        assert_ne!(word_at(&fs, 24 + 8 * k), 0);
    }
    assert_eq!(word_at(&fs, 56), 0);

    // The auxiliary entries, in their fixed order, with exact values.
    let aux0 = 64usize;
    let expected_keys = [
        AT_EXECFN, AT_PLATFORM, AT_UID, AT_EUID, AT_GID, AT_EGID, AT_PAGESZ, AT_SECURE,
        AT_CLKTCK, AT_FLAGS, AT_PHDR, AT_PHENT, AT_PHNUM, AT_HWCAP, AT_HWCAP2, AT_RANDOM,
        AT_ENTRY,
    ];
    for (i, key) in expected_keys.iter().enumerate() {
        assert_eq!(word_at(&fs, aux0 + 16 * i), *key);
    }
    let val = |i: usize| word_at(&fs, aux0 + 16 * i + 8);
    assert_eq!(cstr_at(&fs, val(0)), init_name());
    assert_eq!(cstr_at(&fs, val(1)), b"x86_64".to_vec());
    assert_eq!(val(2), 1000);
    assert_eq!(val(3), 1000);
    assert_eq!(val(4), 1000);
    assert_eq!(val(5), 1000);
    assert_eq!(val(6), 4096);
    assert_eq!(val(7), 0);
    assert_eq!(val(8), 100);
    assert_eq!(val(9), 0);
    assert_eq!(val(10), image_base + 64);
    assert_eq!(val(11), 56);
    assert_eq!(val(12), 1);
    assert_eq!(val(13), 0x1f8b_fbff);
    assert_eq!(val(14), 0);
    // The sixteen random bytes are the two halves, little-endian.
    let rand_ptr = val(15);
    let roff = (rand_ptr - fs.sp) as usize;
    let mut lo = 0u64;
    let mut hi = 0u64;
    for k in 0..8 {
        lo |= (fs.bytes[roff + k] as u64) << (8 * k);
        hi |= (fs.bytes[roff + 8 + k] as u64) << (8 * k);
    }
    assert_eq!(lo, 7);
    assert_eq!(hi, 9);
    assert_eq!(val(16), entry);
    // Terminal pair.
    assert_eq!(word_at(&fs, aux0 + 16 * 17), AT_NULL);
    assert_eq!(word_at(&fs, aux0 + 16 * 17 + 8), 0);
}

#[test]
fn building_twice_is_byte_identical() {
    let h = header();
    let base = 0x7ff0_1000_0000u64;
    let (e1, f1) = crt0setup(0x7f00_2000_0000, &h, base, STACK_SIZE, 3, 4, 5).unwrap();
    let (e2, f2) = crt0setup(0x7f00_2000_0000, &h, base, STACK_SIZE, 3, 4, 5).unwrap();
    assert_eq!(e1, e2);
    assert_eq!(f1.sp, f2.sp);
    assert_eq!(f1.bytes, f2.bytes);
}

#[test]
fn entry_and_phdr_pointer_are_base_plus_offsets() {
    let h = header();
    let b = 0x7f00_4000_0000u64;
    let (entry, fs) = crt0setup(b, &h, 0x7ff0_0000_0000, STACK_SIZE, 0, 0, 0).unwrap();
    assert_eq!(entry, b + h.entry);
    assert_eq!(word_at(&fs, 64 + 16 * 10 + 8), b + h.ph_offset);
}

#[test]
fn too_small_stack_is_fatal() {
    let h = header();
    let r = crt0setup(0x7f00_0000_0000, &h, 0x7ff0_0000_0000, 64, 0, 0, 0);
    assert!(matches!(r, Err(BootFault::StackExhausted)));
}

#[test]
fn overflowing_entry_address_is_fatal() {
    let mut h = header();
    h.entry = u64::MAX;
    let r = crt0setup(0x7f00_0000_0000, &h, 0x7ff0_0000_0000, STACK_SIZE, 0, 0, 0);
    assert!(matches!(r, Err(BootFault::AddressOverflow)));
}

#[test]
fn builder_accepts_staged_content() {
    let mut b = VectorBuilder::new();
    b.push_arg(init_name());
    b.push_env(lang_env());
    let fs = b.finalize(0x7ff0_0000_0000, 4096).unwrap();
    assert_eq!(word_at(&fs, 0), 1);
    assert_eq!(fs.sp % 16, 0);
}

fn image() -> PayloadImage {
    PayloadImage {
        header: header(),
        phdrs: vec![ProgramHeader {
            p_type: PT_LOAD,
            p_flags: PF_R | PF_X,
            p_offset: 0x1000,
            p_vaddr: 0x1000,
            p_paddr: 0x1000,
            p_filesz: 0x2000,
            p_memsz: 0x2000,
            p_align: 4096,
        }],
        phys_base: 0x80_0000,
    }
}

#[test]
fn boot_plan_ties_everything_together() {
    let img = image();
    let mut layout = AddressLayout::new();
    let plan = execute_payload(&img, &mut layout, 0xabcd_ef01_2345_6789, 0x42, 0xbfeb_fbff, 1, 2)
        .unwrap();
    let ib = layout.get_image_base(0);
    assert_eq!(plan.image_base, ib);
    assert_eq!(plan.handle.entry, ib + img.header.entry);
    assert_eq!(plan.handle.stack_pointer, plan.stack_contents.sp);
    assert_eq!(plan.stack.base, STACK_REGION_START + (0x42u64 & STACK_OFFSET_MASK));
    assert_eq!(plan.stack.size, STACK_SIZE);
    assert_eq!(plan.segments.len(), 1);
    assert_eq!(plan.segments[0].src_phys, 0x80_0000 + 0x1000);
    assert_eq!(plan.segments[0].dst_virt, ib + 0x1000);
    // The vector sits at the top of the requested stack region.
    assert_eq!(
        plan.stack_contents.sp + plan.stack_contents.bytes.len() as u64,
        plan.stack.base + plan.stack.size
    );
}

#[test]
fn boot_uses_cached_image_base() {
    let img = image();
    let mut layout = AddressLayout::new();
    let first = layout.get_image_base(0x1357_9bdf_0246_8ace);
    let plan = execute_payload(&img, &mut layout, 0xffff_ffff_ffff_ffff, 0, 0, 0, 0).unwrap();
    assert_eq!(plan.image_base, first);
}

#[test]
fn malformed_image_aborts_boot() {
    let mut img = image();
    img.header.ident[0] = 0;
    let mut layout = AddressLayout::new();
    let r = execute_payload(&img, &mut layout, 0, 0, 0, 0, 0);
    assert!(matches!(r, Err(BootFault::InvalidMagic)));
}

#[test]
fn writable_and_executable_segments_in_one_boot() {
    let mut img = image();
    img.header.ph_count = 2;
    img.phdrs.push(ProgramHeader {
        p_type: PT_LOAD,
        p_flags: PF_R | PF_W,
        p_offset: 0x3000,
        p_vaddr: 0x4000,
        p_paddr: 0x3000,
        p_filesz: 0x1000,
        p_memsz: 0x1000,
        p_align: 4096,
    });
    let mut layout = AddressLayout::new();
    let plan = execute_payload(&img, &mut layout, 1, 2, 3, 4, 5).unwrap();
    assert_eq!(plan.segments.len(), 2);
    assert_eq!(plan.segments[0].flags, 1 | 4);
    assert_eq!(plan.segments[1].flags, 1 | 2 | 4 | (1u64 << 63));
}

#[test]
fn boot_stages_advance_in_order() {
    let mut s = BootStage::Uninitialized;
    let expected = [
        BootStage::AddressSpaceRandomized,
        BootStage::ImageMapped,
        BootStage::StackBuilt,
        BootStage::PayloadReadyFlagSet,
        BootStage::Transitioned,
    ];
    for e in expected {
        s = advance_stage(s);
        assert_eq!(s, e);
    }
}
