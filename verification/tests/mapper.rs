use shim_sev::elf::{ElfHeader, PayloadImage, ProgramHeader, PF_R, PF_W, PF_X, PT_LOAD};
use shim_sev::mapper::{
    map_elf, FLAG_NO_EXECUTE, FLAG_PRESENT, FLAG_USER_ACCESSIBLE, FLAG_WRITABLE,
};
use shim_sev::BootFault;

fn header(magic_first: u8, ph_count: u16) -> ElfHeader {
    let mut ident = vec![magic_first, 0x45, 0x4c, 0x46];
    ident.extend_from_slice(&[0u8; 12]);
    ElfHeader {
        ident,
        entry: 0x1000,
        ph_offset: 64,
        ph_entry_size: 56,
        ph_count,
    }
}

fn phdr(p_type: u32, p_flags: u32, p_paddr: u64, p_vaddr: u64, p_memsz: u64, p_align: u64) -> ProgramHeader {
    ProgramHeader {
        p_type,
        p_flags,
        p_offset: p_paddr,
        p_vaddr,
        p_paddr,
        p_filesz: p_memsz,
        p_memsz,
        p_align,
    }
}

#[test]
fn two_segments_get_exact_flags() {
    // One executable, non-writable segment and one writable, non-executable
    // segment: exactly two mapping requests, flags {PRESENT, USER} and
    // {PRESENT, USER, WRITABLE, NO_EXECUTE}.
    let image = PayloadImage {
        header: header(0x7f, 2),
        phdrs: vec![
            phdr(PT_LOAD, PF_R | PF_X, 0x1000, 0x1000, 0x2000, 4096),
            phdr(PT_LOAD, PF_R | PF_W, 0x3000, 0x4000, 0x1800, 4096),
        ],
        phys_base: 0x10_0000,
    };
    let segs = map_elf(&image, 0x7f00_0000_0000).unwrap();
    assert_eq!(segs.len(), 2);
    assert_eq!(segs[0].flags, FLAG_PRESENT | FLAG_USER_ACCESSIBLE);
    assert_eq!(segs[0].src_phys, 0x10_1000);
    assert_eq!(segs[0].dst_virt, 0x7f00_0000_1000);
    assert_eq!(segs[0].len, 0x2000);
    assert_eq!(
        segs[1].flags,
        FLAG_PRESENT | FLAG_USER_ACCESSIBLE | FLAG_WRITABLE | FLAG_NO_EXECUTE
    );
    assert_eq!(segs[1].src_phys, 0x10_3000);
    assert_eq!(segs[1].dst_virt, 0x7f00_0000_4000);
    // No writable request lacks the no-execute bit.
    for s in &segs {
        if s.flags & FLAG_WRITABLE != 0 {
            assert!(s.flags & FLAG_NO_EXECUTE != 0);
        }
    }
}

#[test]
fn permission_flags_follow_segment_flags() {
    for flags in 0u32..8 {
        let image = PayloadImage {
            header: header(0x7f, 1),
            phdrs: vec![phdr(PT_LOAD, flags, 0, 0, 0x1000, 4096)],
            phys_base: 0,
        };
        let segs = map_elf(&image, 0x7f00_0000_0000).unwrap();
        assert_eq!(segs.len(), 1);
        let f = segs[0].flags;
        assert!(f & FLAG_PRESENT != 0);
        assert!(f & FLAG_USER_ACCESSIBLE != 0);
        assert_eq!(f & FLAG_WRITABLE != 0, flags & PF_W != 0);
        assert_eq!(f & FLAG_NO_EXECUTE == 0, flags & PF_X != 0);
    }
}

#[test]
fn corrupted_magic_aborts_before_any_mapping() {
    let image = PayloadImage {
        header: header(0x00, 1),
        phdrs: vec![phdr(PT_LOAD, PF_R | PF_X, 0x1000, 0x1000, 0x2000, 4096)],
        phys_base: 0x10_0000,
    };
    let mut mapping_calls = 0u32;
    match map_elf(&image, 0x7f00_0000_0000) {
        Ok(segs) => {
            mapping_calls += segs.len() as u32;
        }
        Err(fault) => {
            assert_eq!(fault, BootFault::InvalidMagic);
        }
    }
    assert_eq!(mapping_calls, 0);
}

#[test]
fn non_loadable_and_empty_segments_are_skipped() {
    let image = PayloadImage {
        header: header(0x7f, 3),
        phdrs: vec![
            phdr(2, PF_R, 0x1000, 0x1000, 0x100, 8),          // not LOAD
            phdr(PT_LOAD, PF_R, 0x2000, 0x2000, 0, 4096),     // empty
            phdr(PT_LOAD, PF_R | PF_X, 0x5000, 0x5000, 0x1000, 4096),
        ],
        phys_base: 0,
    };
    let segs = map_elf(&image, 0x7f00_0000_0000).unwrap();
    assert_eq!(segs.len(), 1);
    assert_eq!(segs[0].src_phys, 0x5000);
}

#[test]
fn misaligned_segment_is_fatal() {
    let image = PayloadImage {
        header: header(0x7f, 1),
        phdrs: vec![phdr(PT_LOAD, PF_R, 0x1000, 0x1000, 0x1000, 8192)],
        phys_base: 0,
    };
    assert_eq!(
        map_elf(&image, 0x7f00_0000_0000),
        Err(BootFault::MisalignedSegment)
    );
}

#[test]
fn overflowing_source_address_is_fatal() {
    let image = PayloadImage {
        header: header(0x7f, 1),
        phdrs: vec![phdr(PT_LOAD, PF_R, 0x2000, 0x1000, 0x1000, 4096)],
        phys_base: u64::MAX - 0x1000,
    };
    assert_eq!(
        map_elf(&image, 0x7f00_0000_0000),
        Err(BootFault::AddressOverflow)
    );
}
