//! Model of the payload's executable image.
//!
//! The image lives in the enclave's static memory layout; the kernel hands
//! its header fields, program-header table and physical placement to this
//! crate as plain values.

use vstd::prelude::*;

use crate::BootFault;

verus! {

/// Program-header type tag of a loadable segment.
pub const PT_LOAD: u32 = 1;

/// Segment flag: executable.
pub const PF_X: u32 = 1;

/// Segment flag: writable.
pub const PF_W: u32 = 2;

/// Segment flag: readable.
pub const PF_R: u32 = 4;

/// The executable image's header: identification bytes and the geometry of
/// the program-header table.
pub struct ElfHeader {
    /// The identification bytes (sixteen in a well-formed image); the first
    /// four must be the magic.
    pub ident: Vec<u8>,
    /// Entry point, as an offset from the chosen image base.
    pub entry: u64,
    /// Offset of the program-header table within the image.
    pub ph_offset: u64,
    /// Size of one program-header table entry.
    pub ph_entry_size: u16,
    /// Number of program-header table entries.
    pub ph_count: u16,
}

impl ElfHeader {
    /// The identification bytes begin with the executable magic.
    pub open spec fn magic_valid(self) -> bool {
        &&& self.ident@.len() >= 4
        &&& self.ident@[0] == 0x7fu8
        &&& self.ident@[1] == 0x45u8
        &&& self.ident@[2] == 0x4cu8
        &&& self.ident@[3] == 0x46u8
    }

    /// Validate the magic bytes.
    pub fn check_magic(&self) -> (ok: bool)
        ensures
            ok == self.magic_valid(),
    {
        self.ident.len() >= 4 && self.ident[0] == 0x7f && self.ident[1] == 0x45
            && self.ident[2] == 0x4c && self.ident[3] == 0x46
    }
}

/// One entry of the program-header table.
#[derive(Clone, Copy, PartialEq, Eq, Structural, Debug)]
pub struct ProgramHeader {
    /// Segment type tag; only `PT_LOAD` segments are mapped.
    pub p_type: u32,
    /// Readable/writable/executable flags (`PF_R`, `PF_W`, `PF_X`).
    pub p_flags: u32,
    /// Offset of the segment within the image file.
    pub p_offset: u64,
    /// Destination virtual address, as an offset from the image base.
    pub p_vaddr: u64,
    /// Physical offset of the segment within the placed image.
    pub p_paddr: u64,
    /// Size of the segment in the image.
    pub p_filesz: u64,
    /// Size of the segment in memory; zero-size segments are not mapped.
    pub p_memsz: u64,
    /// Required alignment; must equal the hardware page size to be mappable.
    pub p_align: u64,
}

/// The payload image: header, program-header table, and the physical base
/// address of its placement (already adjusted for the active memory
/// encryption mode by the address-translation layer).
pub struct PayloadImage {
    /// The image's header.
    pub header: ElfHeader,
    /// The program-header table.
    pub phdrs: Vec<ProgramHeader>,
    /// Physical base the image was placed at.
    pub phys_base: u64,
}

impl PayloadImage {
    /// The program-header table carries exactly as many entries as the
    /// header announces.
    pub open spec fn wf(self) -> bool {
        self.phdrs@.len() == self.header.ph_count as int
    }
}

/// The 16-bit little-endian value at byte offset `off`.
pub open spec fn le16_at(b: Seq<u8>, off: int) -> u16 {
    (b[off + 0] * 0x1 + b[off + 1] * 0x100) as u16
}

/// Read the 16-bit little-endian value at byte offset `off`.
pub fn read_le16(b: &Vec<u8>, off: usize) -> (r: u16)
    requires
        off + 2 <= b.len(),
    ensures
        r == le16_at(b@, off as int),
{
    ((b[off + 0] as u64) * 0x1 + (b[off + 1] as u64) * 0x100) as u16
}

/// The 32-bit little-endian value at byte offset `off`.
pub open spec fn le32_at(b: Seq<u8>, off: int) -> u32 {
    (b[off + 0] * 0x1 + b[off + 1] * 0x100 + b[off + 2] * 0x10000 + b[off + 3] * 0x1000000) as u32
}

/// Read the 32-bit little-endian value at byte offset `off`.
pub fn read_le32(b: &Vec<u8>, off: usize) -> (r: u32)
    requires
        off + 4 <= b.len(),
    ensures
        r == le32_at(b@, off as int),
{
    ((b[off + 0] as u64) * 0x1 + (b[off + 1] as u64) * 0x100 + (b[off + 2] as u64) * 0x10000 + (
    b[off + 3] as u64) * 0x1000000) as u32
}

/// The 64-bit little-endian value at byte offset `off`.
pub open spec fn le64_at(b: Seq<u8>, off: int) -> u64 {
    (b[off + 0] * 0x1 + b[off + 1] * 0x100 + b[off + 2] * 0x10000 + b[off + 3] * 0x1000000 + b[off
        + 4] * 0x100000000 + b[off + 5] * 0x10000000000 + b[off + 6] * 0x1000000000000 + b[off + 7]
        * 0x100000000000000) as u64
}

/// Read the 64-bit little-endian value at byte offset `off`.
pub fn read_le64(b: &Vec<u8>, off: usize) -> (r: u64)
    requires
        off + 8 <= b.len(),
    ensures
        r == le64_at(b@, off as int),
{
    (b[off + 0] as u64) * 0x1 + (b[off + 1] as u64) * 0x100 + (b[off + 2] as u64) * 0x10000 + (b[
    off + 3] as u64) * 0x1000000 + (b[off + 4] as u64) * 0x100000000 + (b[off + 5] as u64)
        * 0x10000000000 + (b[off + 6] as u64) * 0x1000000000000 + (b[off + 7] as u64)
        * 0x100000000000000
}

/// The image bytes begin with the executable magic.
pub open spec fn magic_at(b: Seq<u8>) -> bool {
    &&& b.len() >= 4
    &&& b[0] == 0x7fu8
    &&& b[1] == 0x45u8
    &&& b[2] == 0x4cu8
    &&& b[3] == 0x46u8
}

/// The program-header geometry the header announces is possible: the header
/// itself is complete, each table entry is at least as large as the fields
/// read from it, and the whole table lies within the image.
pub open spec fn geometry_ok(b: Seq<u8>) -> bool {
    &&& b.len() >= 64
    &&& le16_at(b, 54) >= 56
    &&& le64_at(b, 32) + le16_at(b, 56) * le16_at(b, 54) <= b.len()
}

/// The program-header table entry at byte offset `off` of the image.
pub open spec fn phdr_at(b: Seq<u8>, off: int) -> ProgramHeader {
    ProgramHeader {
        p_type: le32_at(b, off),
        p_flags: le32_at(b, off + 4),
        p_offset: le64_at(b, off + 8),
        p_vaddr: le64_at(b, off + 16),
        p_paddr: le64_at(b, off + 24),
        p_filesz: le64_at(b, off + 32),
        p_memsz: le64_at(b, off + 40),
        p_align: le64_at(b, off + 48),
    }
}

/// Decode the payload image from its raw bytes: the identification bytes,
/// the table geometry, the entry offset and every program-header entry.
///
/// Succeeds exactly when the magic bytes are present and the announced
/// program-header table lies within the image.
#[verifier::loop_isolation(false)]
#[verifier::rlimit(60)]
pub fn parse_image(bytes: &Vec<u8>, phys_base: u64) -> (r: Result<PayloadImage, BootFault>)
    ensures
        r is Ok <==> magic_at(bytes@) && geometry_ok(bytes@),
        r == Err::<PayloadImage, BootFault>(BootFault::InvalidMagic) <==> !magic_at(bytes@),
        r == Err::<PayloadImage, BootFault>(BootFault::InvalidGeometry) <==> magic_at(bytes@)
            && !geometry_ok(bytes@),
        r matches Ok(img) ==> {
            &&& img.header.ident@ == bytes@.subrange(0, 16)
            &&& img.header.entry == le64_at(bytes@, 24)
            &&& img.header.ph_offset == le64_at(bytes@, 32)
            &&& img.header.ph_entry_size == le16_at(bytes@, 54)
            &&& img.header.ph_count == le16_at(bytes@, 56)
            &&& img.phys_base == phys_base
            &&& img.wf()
            &&& forall|i: int|
                0 <= i < img.phdrs@.len() ==> #[trigger] img.phdrs@[i] == phdr_at(
                    bytes@,
                    le64_at(bytes@, 32) + i * le16_at(bytes@, 54),
                )
        },
{
    if bytes.len() < 4 || !(bytes[0] == 0x7f && bytes[1] == 0x45 && bytes[2] == 0x4c && bytes[3]
        == 0x46) {
        return Err(BootFault::InvalidMagic);
    }
    if bytes.len() < 64 {
        return Err(BootFault::InvalidGeometry);
    }
    let entry = read_le64(bytes, 24);
    let ph_offset = read_le64(bytes, 32);
    let ph_entry_size = read_le16(bytes, 54);
    let ph_count = read_le16(bytes, 56);
    if ph_entry_size < 56 {
        return Err(BootFault::InvalidGeometry);
    }
    proof {
        vstd::arithmetic::mul::lemma_mul_upper_bound(
            ph_count as int,
            0xffff,
            ph_entry_size as int,
            0xffff,
        );
    }
    let table_len = (ph_count as u64) * (ph_entry_size as u64);
    let table_end = match ph_offset.checked_add(table_len) {
        Some(e) => e,
        None => {
            return Err(BootFault::InvalidGeometry);
        },
    };
    let len64 = bytes.len() as u64;
    if table_end > len64 {
        return Err(BootFault::InvalidGeometry);
    }
    let mut ident: Vec<u8> = Vec::new();
    let mut k: usize = 0;
    proof {
        assert(ident@ =~= bytes@.subrange(0, 0));
    }
    while k < 16
        invariant
            0 <= k <= 16,
            ident@ == bytes@.subrange(0, k as int),
        decreases 16 - k,
    {
        ident.push(bytes[k]);
        k = k + 1;
        proof {
            assert(ident@ =~= bytes@.subrange(0, k as int));
        }
    }
    let n = ph_count as usize;
    let mut phdrs: Vec<ProgramHeader> = Vec::new();
    let mut i: usize = 0;
    while i < n
        invariant
            0 <= i <= n,
            phdrs@.len() == i,
            forall|j: int|
                0 <= j < i ==> #[trigger] phdrs@[j] == phdr_at(
                    bytes@,
                    ph_offset + j * ph_entry_size,
                ),
        decreases n - i,
    {
        proof {
            vstd::arithmetic::mul::lemma_mul_inequality(i as int, n as int, ph_entry_size as int);
            vstd::arithmetic::mul::lemma_mul_inequality(
                i + 1,
                n as int,
                ph_entry_size as int,
            );
            assert((i + 1) * (ph_entry_size as int) == i * (ph_entry_size as int)
                + ph_entry_size) by (nonlinear_arith);
        }
        let off64 = ph_offset + (i as u64) * (ph_entry_size as u64);
        let off = off64 as usize;
        let ph = ProgramHeader {
            p_type: read_le32(bytes, off),
            p_flags: read_le32(bytes, off + 4),
            p_offset: read_le64(bytes, off + 8),
            p_vaddr: read_le64(bytes, off + 16),
            p_paddr: read_le64(bytes, off + 24),
            p_filesz: read_le64(bytes, off + 32),
            p_memsz: read_le64(bytes, off + 40),
            p_align: read_le64(bytes, off + 48),
        };
        phdrs.push(ph);
        i = i + 1;
    }
    let header = ElfHeader { ident, entry, ph_offset, ph_entry_size, ph_count };
    Ok(PayloadImage { header, phdrs, phys_base })
}

} // verus!
