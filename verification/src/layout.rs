//! Address space layout randomization.
//!
//! Three virtual base addresses (image base, heap-break base, memory-map
//! base) are each derived lazily, exactly once, as
//! `region_start + (random & mask)` and then held for the process lifetime.
//! The memory-map base starts out coincident with the image base.

use vstd::prelude::*;

verus! {

/// Start of the fixed region into which the payload image is randomized.
pub const IMAGE_REGION_START: u64 = 0x7f00_0000_0000;

/// Mask bounding the random offset of the image base; page-granular.
pub const IMAGE_OFFSET_MASK: u64 = 0x7f_ffff_f000;

/// Start of the fixed region into which the heap break is randomized.
pub const BRK_REGION_START: u64 = 0x5555_0000_0000;

/// Mask bounding the random offset of the heap-break base; page-granular.
pub const BRK_OFFSET_MASK: u64 = 0xffff_f000;

/// Start of the fixed region into which the stack top is randomized.
pub const STACK_REGION_START: u64 = 0x7ff0_0000_0000;

/// Mask bounding the random offset of the stack top; page-granular.
pub const STACK_OFFSET_MASK: u64 = 0xffff_f000;

/// Size of the payload's initial stack region.
pub const STACK_SIZE: u64 = 2 * 1024 * 1024;

/// A randomized base: the region start plus the masked random offset.
pub open spec fn randomized_base(region_start: u64, mask: u64, r: u64) -> int {
    region_start + (r & mask)
}

proof fn lemma_and_mask_le(r: u64, m: u64)
    ensures
        (r & m) <= m,
{
    assert((r & m) <= m) by (bit_vector);
}

/// Every randomized base falls within its designated fixed region: it is at
/// least the region start and at most the region start plus the mask.
pub proof fn lemma_randomized_base_in_region(region_start: u64, mask: u64, r: u64)
    ensures
        region_start <= randomized_base(region_start, mask, r),
        randomized_base(region_start, mask, r) <= region_start + mask,
{
    lemma_and_mask_le(r, mask);
}

/// A randomized base keeps the granularity of its mask: an offset mask whose
/// low twelve bits are clear and a page-aligned region start yield a
/// page-aligned (hence sixteen-byte-aligned) base.
pub proof fn lemma_randomized_base_aligned(region_start: u64, mask: u64, r: u64)
    requires
        region_start % 4096 == 0,
        mask % 4096 == 0,
    ensures
        randomized_base(region_start, mask, r) % 4096 == 0,
        randomized_base(region_start, mask, r) % 16 == 0,
{
    assert(mask % 4096 == 0 ==> (r & mask) % 4096 == 0) by (bit_vector);
    assert(mask % 4096 == 0 ==> (r & mask) % 16 == 0) by (bit_vector);
}

/// Draw a base address from the given fixed region: the region start plus
/// the random value masked to the allowed offset range.
pub fn randomize_base(region_start: u64, mask: u64, r: u64) -> (b: u64)
    requires
        region_start + mask <= u64::MAX,
    ensures
        b == randomized_base(region_start, mask, r),
        region_start <= b <= region_start + mask,
{
    proof {
        lemma_and_mask_le(r, mask);
    }
    region_start + (r & mask)
}

/// The three lazily randomized bases of the payload's address space.
///
/// Each base is a write-once cell: `None` until its first read draws it from
/// the random source, the same value on every later read.
pub struct AddressLayout {
    /// Virtual address the payload image is mapped at.
    pub image_base: Option<u64>,
    /// First heap-break address handed to the payload.
    pub brk_base: Option<u64>,
    /// First memory-map address handed to the payload.
    pub mmap_base: Option<u64>,
}

impl AddressLayout {
    /// Each initialized base lies inside its fixed region.  The memory-map
    /// base starts coincident with the image base, so it obeys the image
    /// region's bounds.
    pub open spec fn wf(self) -> bool {
        &&& (self.image_base is Some ==> IMAGE_REGION_START <= self.image_base.unwrap()
            <= IMAGE_REGION_START + IMAGE_OFFSET_MASK)
        &&& (self.brk_base is Some ==> BRK_REGION_START <= self.brk_base.unwrap()
            <= BRK_REGION_START + BRK_OFFSET_MASK)
        &&& (self.mmap_base is Some ==> IMAGE_REGION_START <= self.mmap_base.unwrap()
            <= IMAGE_REGION_START + IMAGE_OFFSET_MASK)
    }

    /// A layout with no base drawn yet.
    pub fn new() -> (l: AddressLayout)
        ensures
            l.image_base is None,
            l.brk_base is None,
            l.mmap_base is None,
            l.wf(),
    {
        AddressLayout { image_base: None, brk_base: None, mmap_base: None }
    }

    /// Return the image base, drawing it from `r` on the first read.  Later
    /// reads ignore `r` and return the stored value unchanged.
    pub fn get_image_base(&mut self, r: u64) -> (b: u64)
        requires
            old(self).wf(),
        ensures
            final(self).wf(),
            final(self).image_base == Some(b),
            final(self).brk_base == old(self).brk_base,
            final(self).mmap_base == old(self).mmap_base,
            old(self).image_base is Some ==> *final(self) == *old(self)
                && b == old(self).image_base.unwrap(),
            old(self).image_base is None ==> b == randomized_base(
                IMAGE_REGION_START,
                IMAGE_OFFSET_MASK,
                r,
            ),
    {
        match self.image_base {
            Some(b) => b,
            None => {
                let b = randomize_base(IMAGE_REGION_START, IMAGE_OFFSET_MASK, r);
                self.image_base = Some(b);
                b
            },
        }
    }

    /// Return the heap-break base, drawing it from `r` on the first read.
    pub fn get_brk_base(&mut self, r: u64) -> (b: u64)
        requires
            old(self).wf(),
        ensures
            final(self).wf(),
            final(self).brk_base == Some(b),
            final(self).image_base == old(self).image_base,
            final(self).mmap_base == old(self).mmap_base,
            old(self).brk_base is Some ==> *final(self) == *old(self)
                && b == old(self).brk_base.unwrap(),
            old(self).brk_base is None ==> b == randomized_base(
                BRK_REGION_START,
                BRK_OFFSET_MASK,
                r,
            ),
    {
        match self.brk_base {
            Some(b) => b,
            None => {
                let b = randomize_base(BRK_REGION_START, BRK_OFFSET_MASK, r);
                self.brk_base = Some(b);
                b
            },
        }
    }

    /// Return the memory-map base.  On the first read it is set to the image
    /// base as of that moment, establishing the image base first if that too
    /// is still unset (using `r_image` for the draw).  Later reads return the
    /// stored value unchanged.
    pub fn get_mmap_base(&mut self, r_image: u64) -> (b: u64)
        requires
            old(self).wf(),
        ensures
            final(self).wf(),
            final(self).mmap_base == Some(b),
            final(self).brk_base == old(self).brk_base,
            old(self).mmap_base is Some ==> *final(self) == *old(self)
                && b == old(self).mmap_base.unwrap(),
            old(self).mmap_base is None ==> {
                &&& final(self).image_base == Some(b)
                &&& b == final(self).image_base.unwrap()
                &&& (old(self).image_base is Some ==> b == old(self).image_base.unwrap())
                &&& (old(self).image_base is None ==> b == randomized_base(
                    IMAGE_REGION_START,
                    IMAGE_OFFSET_MASK,
                    r_image,
                ))
            },
    {
        match self.mmap_base {
            Some(b) => b,
            None => {
                let b = self.get_image_base(r_image);
                self.mmap_base = Some(b);
                b
            },
        }
    }
}

} // verus!
