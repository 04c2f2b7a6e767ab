//! Binary mapper: turns the image's loadable segments into page-mapping
//! requests at the randomized image base.
//!
//! Each loadable segment yields one request `(source physical, destination
//! virtual, length, permission flags)`; the kernel's allocator performs the
//! requests.  Permissions follow the segment flags exactly: always present
//! and user-accessible, writable iff the segment is writable, no-execute
//! iff the segment is not executable.

use vstd::prelude::*;

use crate::BootFault;
use crate::elf::{PayloadImage, ProgramHeader, PF_W, PF_X, PT_LOAD};

verus! {

/// Hardware page size; the only alignment the mapping primitive accepts.
pub const PAGE_SIZE: u64 = 4096;

/// Page-table flag: the mapping is present.
pub const FLAG_PRESENT: u64 = 1;

/// Page-table flag: the mapping is writable.
pub const FLAG_WRITABLE: u64 = 2;

/// Page-table flag: the mapping is reachable from unprivileged code.
pub const FLAG_USER_ACCESSIBLE: u64 = 4;

/// Page-table flag: instruction fetch from the mapping faults.
pub const FLAG_NO_EXECUTE: u64 = 0x8000_0000_0000_0000;

/// The distinct flag set handed to the allocator for its copy-on-demand
/// fallback behaviour: present, writable and user-accessible.
pub const FALLBACK_FLAGS: u64 = 7;

/// One page-mapping request, consumed once by the allocator.
#[derive(Clone, Copy, PartialEq, Eq, Structural, Debug)]
pub struct MappedSegment {
    /// Source physical address of the segment's bytes.
    pub src_phys: u64,
    /// Destination virtual address.
    pub dst_virt: u64,
    /// Length of the mapping in bytes.
    pub len: u64,
    /// Page-table permission flags.
    pub flags: u64,
}

/// Page-table flags derived from a segment's flags: present and
/// user-accessible always, writable iff the segment is writable, no-execute
/// iff the segment is not executable.
pub open spec fn segment_flags(p_flags: u32) -> u64 {
    (FLAG_PRESENT | FLAG_USER_ACCESSIBLE) | (if p_flags & PF_W != 0 {
        FLAG_WRITABLE
    } else {
        0
    }) | (if p_flags & PF_X == 0 {
        FLAG_NO_EXECUTE
    } else {
        0
    })
}

/// The permission model of every mapped segment: the derived flags carry
/// present and user-accessible always, the writable bit exactly when the
/// segment is writable, and the no-execute bit exactly when the segment is
/// not executable.
pub proof fn lemma_segment_flags_model(p_flags: u32)
    ensures
        segment_flags(p_flags) & FLAG_PRESENT == FLAG_PRESENT,
        segment_flags(p_flags) & FLAG_USER_ACCESSIBLE == FLAG_USER_ACCESSIBLE,
        (segment_flags(p_flags) & FLAG_WRITABLE == FLAG_WRITABLE) <==> (p_flags & PF_W != 0),
        (segment_flags(p_flags) & FLAG_NO_EXECUTE == 0) <==> (p_flags & PF_X != 0),
{
    let f = segment_flags(p_flags);
    assert(((1u64 | 4) | (if p_flags & 2u32 != 0 {
        2u64
    } else {
        0u64
    }) | (if p_flags & 1u32 == 0 {
        0x8000_0000_0000_0000u64
    } else {
        0u64
    })) & 1 == 1) by (bit_vector);
    assert(((1u64 | 4) | (if p_flags & 2u32 != 0 {
        2u64
    } else {
        0u64
    }) | (if p_flags & 1u32 == 0 {
        0x8000_0000_0000_0000u64
    } else {
        0u64
    })) & 4 == 4) by (bit_vector);
    assert((((1u64 | 4) | (if p_flags & 2u32 != 0 {
        2u64
    } else {
        0u64
    }) | (if p_flags & 1u32 == 0 {
        0x8000_0000_0000_0000u64
    } else {
        0u64
    })) & 2 == 2) <==> (p_flags & 2u32 != 0)) by (bit_vector);
    assert((((1u64 | 4) | (if p_flags & 2u32 != 0 {
        2u64
    } else {
        0u64
    }) | (if p_flags & 1u32 == 0 {
        0x8000_0000_0000_0000u64
    } else {
        0u64
    })) & 0x8000_0000_0000_0000 == 0) <==> (p_flags & 1u32 != 0)) by (bit_vector);
}

/// Derive the page-table flags for one segment.
pub fn page_flags_for(p_flags: u32) -> (f: u64)
    ensures
        f == segment_flags(p_flags),
{
    let w: u64 = if p_flags & PF_W != 0 {
        FLAG_WRITABLE
    } else {
        0
    };
    let x: u64 = if p_flags & PF_X == 0 {
        FLAG_NO_EXECUTE
    } else {
        0
    };
    (FLAG_PRESENT | FLAG_USER_ACCESSIBLE) | w | x
}

/// A segment is mapped exactly when it is loadable and occupies memory.
pub open spec fn loadable(ph: ProgramHeader) -> bool {
    ph.p_type == PT_LOAD && ph.p_memsz > 0
}

/// The segment's required alignment is the hardware page size.
pub open spec fn segment_aligned(ph: ProgramHeader) -> bool {
    ph.p_align == PAGE_SIZE
}

/// Source and destination addresses of the segment stay inside the 64-bit
/// address space.
pub open spec fn segment_fits(ph: ProgramHeader, phys_base: u64, dest_base: u64) -> bool {
    phys_base + ph.p_paddr <= u64::MAX && dest_base + ph.p_vaddr <= u64::MAX
}

/// The mapping request of one loadable segment.
pub open spec fn segment_of(ph: ProgramHeader, phys_base: u64, dest_base: u64) -> MappedSegment {
    MappedSegment {
        src_phys: (phys_base + ph.p_paddr) as u64,
        dst_virt: (dest_base + ph.p_vaddr) as u64,
        len: ph.p_memsz,
        flags: segment_flags(ph.p_flags),
    }
}

/// The mapping requests of all loadable segments of a table, in table order.
pub open spec fn segments_of(phs: Seq<ProgramHeader>, phys_base: u64, dest_base: u64) -> Seq<
    MappedSegment,
>
    decreases phs.len(),
{
    if phs.len() == 0 {
        Seq::empty()
    } else {
        segments_of(phs.drop_last(), phys_base, dest_base) + (if loadable(phs.last()) {
            seq![segment_of(phs.last(), phys_base, dest_base)]
        } else {
            Seq::empty()
        })
    }
}

/// Every loadable segment of the image is page-aligned and its addresses
/// fit; only then can the whole image be mapped.
pub open spec fn image_mappable(image: PayloadImage, dest_base: u64) -> bool {
    forall|i: int|
        0 <= i < image.phdrs@.len() && loadable(#[trigger] image.phdrs@[i]) ==> segment_aligned(
            image.phdrs@[i],
        ) && segment_fits(image.phdrs@[i], image.phys_base, dest_base)
}

/// Validate the image and compute the mapping request of every loadable
/// segment at the given destination base.
///
/// Succeeds exactly when the magic bytes are valid and every loadable
/// segment is page-aligned with in-range addresses; a magic failure is
/// reported before any request is computed.
pub fn map_elf(image: &PayloadImage, dest_base: u64) -> (r: Result<Vec<MappedSegment>, BootFault>)
    requires
        image.wf(),
    ensures
        r is Ok <==> image.header.magic_valid() && image_mappable(*image, dest_base),
        r matches Ok(segs) ==> segs@ == segments_of(image.phdrs@, image.phys_base, dest_base),
        r == Err::<Vec<MappedSegment>, BootFault>(BootFault::InvalidMagic)
            <==> !image.header.magic_valid(),
        r == Err::<Vec<MappedSegment>, BootFault>(BootFault::MisalignedSegment) ==> exists|i: int|
            0 <= i < image.phdrs@.len() && loadable(#[trigger] image.phdrs@[i])
                && !segment_aligned(image.phdrs@[i]),
        r == Err::<Vec<MappedSegment>, BootFault>(BootFault::AddressOverflow) ==> exists|i: int|
            0 <= i < image.phdrs@.len() && loadable(#[trigger] image.phdrs@[i]) && !segment_fits(
                image.phdrs@[i],
                image.phys_base,
                dest_base,
            ),
        r is Err ==> r.unwrap_err() == BootFault::InvalidMagic || r.unwrap_err()
            == BootFault::MisalignedSegment || r.unwrap_err() == BootFault::AddressOverflow,
{
    if !image.header.check_magic() {
        return Err(BootFault::InvalidMagic);
    }
    let mut segs: Vec<MappedSegment> = Vec::new();
    let n = image.phdrs.len();
    let mut i: usize = 0;
    while i < n
        invariant
            image.wf(),
            n == image.phdrs@.len(),
            0 <= i <= n,
            image.header.magic_valid(),
            segs@ == segments_of(image.phdrs@.take(i as int), image.phys_base, dest_base),
            forall|j: int|
                0 <= j < i && loadable(#[trigger] image.phdrs@[j]) ==> segment_aligned(
                    image.phdrs@[j],
                ) && segment_fits(image.phdrs@[j], image.phys_base, dest_base),
        decreases n - i,
    {
        let ph = image.phdrs[i];
        if ph.p_type == PT_LOAD && ph.p_memsz > 0 {
            if ph.p_align != PAGE_SIZE {
                assert(!image_mappable(*image, dest_base));
                return Err(BootFault::MisalignedSegment);
            }
            let src_phys = match image.phys_base.checked_add(ph.p_paddr) {
                Some(a) => a,
                None => {
                    assert(!image_mappable(*image, dest_base));
                    return Err(BootFault::AddressOverflow);
                },
            };
            let dst_virt = match dest_base.checked_add(ph.p_vaddr) {
                Some(a) => a,
                None => {
                    assert(!image_mappable(*image, dest_base));
                    return Err(BootFault::AddressOverflow);
                },
            };
            let flags = page_flags_for(ph.p_flags);
            segs.push(MappedSegment { src_phys, dst_virt, len: ph.p_memsz, flags });
        }
        proof {
            assert(image.phdrs@.take(i + 1).drop_last() =~= image.phdrs@.take(i as int));
            assert(image.phdrs@.take(i + 1).last() == image.phdrs@[i as int]);
        }
        i = i + 1;
    }
    proof {
        assert(image.phdrs@.take(n as int) =~= image.phdrs@);
    }
    Ok(segs)
}

} // verus!
