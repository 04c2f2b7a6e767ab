use shim_sev::elf::{parse_image, PF_R, PF_W, PF_X, PT_LOAD};
use shim_sev::mapper::map_elf;
use shim_sev::BootFault;

fn put16(b: &mut [u8], off: usize, v: u16) {
    b[off..off + 2].copy_from_slice(&v.to_le_bytes());
}

fn put64(b: &mut [u8], off: usize, v: u64) {
    b[off..off + 8].copy_from_slice(&v.to_le_bytes());
}

fn put32(b: &mut [u8], off: usize, v: u32) {
    b[off..off + 4].copy_from_slice(&v.to_le_bytes());
}

/// A minimal image: 64-byte header, then `phdrs` 56-byte table entries.
fn image_bytes(phdrs: &[(u32, u32, u64, u64, u64, u64)]) -> Vec<u8> {
    let mut b = vec![0u8; 64 + 56 * phdrs.len()];
    b[0] = 0x7f;
    b[1] = 0x45;
    b[2] = 0x4c;
    b[3] = 0x46;
    put64(&mut b, 24, 0x1234);          // entry offset
    put64(&mut b, 32, 64);              // table offset
    put16(&mut b, 54, 56);              // entry size
    put16(&mut b, 56, phdrs.len() as u16);
    for (i, &(p_type, p_flags, p_paddr, p_vaddr, p_memsz, p_align)) in phdrs.iter().enumerate() {
        let off = 64 + 56 * i;
        put32(&mut b, off, p_type);
        put32(&mut b, off + 4, p_flags);
        put64(&mut b, off + 8, p_paddr);    // file offset
        put64(&mut b, off + 16, p_vaddr);
        put64(&mut b, off + 24, p_paddr);
        put64(&mut b, off + 32, p_memsz);   // file size
        put64(&mut b, off + 40, p_memsz);
        put64(&mut b, off + 48, p_align);
    }
    b
}

#[test]
fn parse_reads_header_and_table() {
    let bytes = image_bytes(&[
        (PT_LOAD, PF_R | PF_X, 0x1000, 0x1000, 0x2000, 4096),
        (PT_LOAD, PF_R | PF_W, 0x3000, 0x4000, 0x1800, 4096),
    ]);
    let img = parse_image(&bytes, 0x40_0000).unwrap();
    assert_eq!(&img.header.ident[..4], &[0x7f, 0x45, 0x4c, 0x46]);
    assert_eq!(img.header.entry, 0x1234);
    assert_eq!(img.header.ph_offset, 64);
    assert_eq!(img.header.ph_entry_size, 56);
    assert_eq!(img.header.ph_count, 2);
    assert_eq!(img.phys_base, 0x40_0000);
    assert_eq!(img.phdrs.len(), 2);
    assert_eq!(img.phdrs[0].p_type, PT_LOAD);
    assert_eq!(img.phdrs[0].p_flags, PF_R | PF_X);
    assert_eq!(img.phdrs[0].p_vaddr, 0x1000);
    assert_eq!(img.phdrs[1].p_flags, PF_R | PF_W);
    assert_eq!(img.phdrs[1].p_memsz, 0x1800);
    assert_eq!(img.phdrs[1].p_align, 4096);
}

#[test]
fn parse_then_map_yields_the_segment_requests() {
    let bytes = image_bytes(&[(PT_LOAD, PF_R | PF_X, 0x1000, 0x1000, 0x2000, 4096)]);
    let img = parse_image(&bytes, 0x40_0000).unwrap();
    let segs = map_elf(&img, 0x7f00_0000_0000).unwrap();
    assert_eq!(segs.len(), 1);
    assert_eq!(segs[0].src_phys, 0x40_1000);
    assert_eq!(segs[0].dst_virt, 0x7f00_0000_1000);
    assert_eq!(segs[0].len, 0x2000);
}

#[test]
fn corrupted_magic_is_rejected() {
    let mut bytes = image_bytes(&[(PT_LOAD, PF_R, 0, 0, 0x1000, 4096)]);
    bytes[1] = 0;
    assert!(matches!(parse_image(&bytes, 0), Err(BootFault::InvalidMagic)));
}

#[test]
fn truncated_header_is_rejected() {
    let bytes = vec![0x7f, 0x45, 0x4c, 0x46, 0, 0];
    assert!(matches!(parse_image(&bytes, 0), Err(BootFault::InvalidGeometry)));
}

#[test]
fn table_beyond_image_end_is_rejected() {
    let mut bytes = image_bytes(&[(PT_LOAD, PF_R, 0, 0, 0x1000, 4096)]);
    put16(&mut bytes, 56, 3);  // claims three entries, only one present
    assert!(matches!(parse_image(&bytes, 0), Err(BootFault::InvalidGeometry)));
}

#[test]
fn undersized_table_entries_are_rejected() {
    let mut bytes = image_bytes(&[(PT_LOAD, PF_R, 0, 0, 0x1000, 4096)]);
    put16(&mut bytes, 54, 40);
    assert!(matches!(parse_image(&bytes, 0), Err(BootFault::InvalidGeometry)));
}
