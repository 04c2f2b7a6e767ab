//! The boot sequence: image mapping, stack construction and the execution
//! handle, computed in one pass.
//!
//! `execute_payload` decides everything the boot does — the randomized
//! layout, the mapping request of every loadable segment, the guarded-stack
//! request and the byte-exact startup vector — and returns it as a plan.
//! The kernel around this crate performs the plan: it maps the segments,
//! allocates the guarded stack, writes the vector, publishes the
//! payload-ready signal and makes the irreversible privilege transition.

use vstd::prelude::*;

use crate::BootFault;
use crate::crt0::{
    le64, start_off, sv_bytes, used_len, AuxEntry, AuxValue, FinalizedStack, VectorBuilder,
    AT_CLKTCK, AT_EGID, AT_ENTRY, AT_EUID, AT_EXECFN, AT_FLAGS, AT_GID, AT_HWCAP, AT_HWCAP2,
    AT_PAGESZ, AT_PHDR, AT_PHENT, AT_PHNUM, AT_PLATFORM, AT_RANDOM, AT_SECURE, AT_UID,
};
use crate::elf::{ElfHeader, PayloadImage};
use crate::layout::{
    randomized_base, AddressLayout, IMAGE_OFFSET_MASK, IMAGE_REGION_START, STACK_OFFSET_MASK,
    STACK_REGION_START, STACK_SIZE,
};
use crate::mapper::{image_mappable, map_elf, segments_of, MappedSegment, FLAG_USER_ACCESSIBLE};

verus! {

/// The bytes of the fixed profile string at this position.
pub open spec fn spec_init_name() -> Seq<u8> {
    seq![0x2fu8, 0x69u8, 0x6eu8, 0x69u8, 0x74u8]
}

/// The fixed profile string, as bytes.
pub fn init_name() -> (r: Vec<u8>)
    ensures
        r@ == spec_init_name(),
{
    let mut v: Vec<u8> = Vec::new();
    v.push(0x2f);
    v.push(0x69);
    v.push(0x6e);
    v.push(0x69);
    v.push(0x74);
    proof {
        assert(v@ =~= spec_init_name());
    }
    v
}

/// The bytes of the fixed profile string at this position.
pub open spec fn spec_lang_env() -> Seq<u8> {
    seq![0x4cu8, 0x41u8, 0x4eu8, 0x47u8, 0x3du8, 0x43u8]
}

/// The fixed profile string, as bytes.
pub fn lang_env() -> (r: Vec<u8>)
    ensures
        r@ == spec_lang_env(),
{
    let mut v: Vec<u8> = Vec::new();
    v.push(0x4c);
    v.push(0x41);
    v.push(0x4e);
    v.push(0x47);
    v.push(0x3d);
    v.push(0x43);
    proof {
        assert(v@ =~= spec_lang_env());
    }
    v
}

/// The bytes of the fixed profile string at this position.
pub open spec fn spec_stdio_env() -> Seq<u8> {
    seq![0x45u8, 0x4eu8, 0x41u8, 0x52u8, 0x58u8, 0x5fu8, 0x53u8, 0x54u8, 0x44u8, 0x49u8, 0x4fu8, 0x5fu8, 0x46u8, 0x44u8, 0x53u8, 0x3du8, 0x30u8, 0x2cu8, 0x31u8, 0x2cu8, 0x32u8]
}

/// The fixed profile string, as bytes.
pub fn stdio_env() -> (r: Vec<u8>)
    ensures
        r@ == spec_stdio_env(),
{
    let mut v: Vec<u8> = Vec::new();
    v.push(0x45);
    v.push(0x4e);
    v.push(0x41);
    v.push(0x52);
    v.push(0x58);
    v.push(0x5f);
    v.push(0x53);
    v.push(0x54);
    v.push(0x44);
    v.push(0x49);
    v.push(0x4f);
    v.push(0x5f);
    v.push(0x46);
    v.push(0x44);
    v.push(0x53);
    v.push(0x3d);
    v.push(0x30);
    v.push(0x2c);
    v.push(0x31);
    v.push(0x2c);
    v.push(0x32);
    proof {
        assert(v@ =~= spec_stdio_env());
    }
    v
}

/// The bytes of the fixed profile string at this position.
pub open spec fn spec_module_env() -> Seq<u8> {
    seq![0x45u8, 0x4eu8, 0x41u8, 0x52u8, 0x58u8, 0x5fu8, 0x4du8, 0x4fu8, 0x44u8, 0x55u8, 0x4cu8, 0x45u8, 0x5fu8, 0x46u8, 0x44u8, 0x3du8, 0x33u8]
}

/// The fixed profile string, as bytes.
pub fn module_env() -> (r: Vec<u8>)
    ensures
        r@ == spec_module_env(),
{
    let mut v: Vec<u8> = Vec::new();
    v.push(0x45);
    v.push(0x4e);
    v.push(0x41);
    v.push(0x52);
    v.push(0x58);
    v.push(0x5f);
    v.push(0x4d);
    v.push(0x4f);
    v.push(0x44);
    v.push(0x55);
    v.push(0x4c);
    v.push(0x45);
    v.push(0x5f);
    v.push(0x46);
    v.push(0x44);
    v.push(0x3d);
    v.push(0x33);
    proof {
        assert(v@ =~= spec_module_env());
    }
    v
}

/// The bytes of the fixed profile string at this position.
pub open spec fn spec_log_env() -> Seq<u8> {
    seq![0x52u8, 0x55u8, 0x53u8, 0x54u8, 0x5fu8, 0x4cu8, 0x4fu8, 0x47u8, 0x3du8, 0x65u8, 0x6eu8, 0x61u8, 0x72u8, 0x78u8, 0x3du8, 0x64u8, 0x65u8, 0x62u8, 0x75u8, 0x67u8, 0x2cu8, 0x77u8, 0x61u8, 0x73u8, 0x6du8, 0x6cu8, 0x64u8, 0x72u8, 0x3du8, 0x64u8, 0x65u8, 0x62u8, 0x75u8, 0x67u8]
}

/// The fixed profile string, as bytes.
pub fn log_env() -> (r: Vec<u8>)
    ensures
        r@ == spec_log_env(),
{
    let mut v: Vec<u8> = Vec::new();
    v.push(0x52);
    v.push(0x55);
    v.push(0x53);
    v.push(0x54);
    v.push(0x5f);
    v.push(0x4c);
    v.push(0x4f);
    v.push(0x47);
    v.push(0x3d);
    v.push(0x65);
    v.push(0x6e);
    v.push(0x61);
    v.push(0x72);
    v.push(0x78);
    v.push(0x3d);
    v.push(0x64);
    v.push(0x65);
    v.push(0x62);
    v.push(0x75);
    v.push(0x67);
    v.push(0x2c);
    v.push(0x77);
    v.push(0x61);
    v.push(0x73);
    v.push(0x6d);
    v.push(0x6c);
    v.push(0x64);
    v.push(0x72);
    v.push(0x3d);
    v.push(0x64);
    v.push(0x65);
    v.push(0x62);
    v.push(0x75);
    v.push(0x67);
    proof {
        assert(v@ =~= spec_log_env());
    }
    v
}

/// The bytes of the fixed profile string at this position.
pub open spec fn spec_platform_name() -> Seq<u8> {
    seq![0x78u8, 0x38u8, 0x36u8, 0x5fu8, 0x36u8, 0x34u8]
}

/// The fixed profile string, as bytes.
pub fn platform_name() -> (r: Vec<u8>)
    ensures
        r@ == spec_platform_name(),
{
    let mut v: Vec<u8> = Vec::new();
    v.push(0x78);
    v.push(0x38);
    v.push(0x36);
    v.push(0x5f);
    v.push(0x36);
    v.push(0x34);
    proof {
        assert(v@ =~= spec_platform_name());
    }
    v
}

/// The argument strings of this boot profile: the program name alone.
pub open spec fn boot_args() -> Seq<Seq<u8>> {
    seq![spec_init_name()]
}

/// The environment strings of this boot profile, fixed at build time and
/// never sourced from host-controlled input.
pub open spec fn boot_envs() -> Seq<Seq<u8>> {
    seq![spec_lang_env(), spec_stdio_env(), spec_module_env(), spec_log_env()]
}

/// The auxiliary entries of this boot profile, in their fixed order, with
/// the page size, clock tick and identity values this profile hardcodes.
pub open spec fn boot_aux(
    phdr: u64,
    phent: u64,
    phnum: u64,
    hwcap: u64,
    rand_lo: u64,
    rand_hi: u64,
    entry: u64,
) -> Seq<(u64, AuxValue)> {
    seq![
        (AT_EXECFN, AuxValue::Blob(spec_init_name() + seq![0u8])),
        (AT_PLATFORM, AuxValue::Blob(spec_platform_name() + seq![0u8])),
        (AT_UID, AuxValue::Word(1000)),
        (AT_EUID, AuxValue::Word(1000)),
        (AT_GID, AuxValue::Word(1000)),
        (AT_EGID, AuxValue::Word(1000)),
        (AT_PAGESZ, AuxValue::Word(4096)),
        (AT_SECURE, AuxValue::Word(0)),
        (AT_CLKTCK, AuxValue::Word(100)),
        (AT_FLAGS, AuxValue::Word(0)),
        (AT_PHDR, AuxValue::Word(phdr)),
        (AT_PHENT, AuxValue::Word(phent)),
        (AT_PHNUM, AuxValue::Word(phnum)),
        (AT_HWCAP, AuxValue::Word(hwcap)),
        (AT_HWCAP2, AuxValue::Word(0)),
        (AT_RANDOM, AuxValue::Blob(le64(rand_lo) + le64(rand_hi))),
        (AT_ENTRY, AuxValue::Word(entry)),
    ]
}

/// Build the startup vector of this boot profile into the stack region
/// `[stack_base, stack_base + stack_size)` and compute the entry address.
///
/// Returns the entry address `image_base + header.entry` and the finalized
/// vector; fails exactly when an address computation overflows or the
/// vector does not fit the region.
/// Assemble the builder of this boot profile's startup vector.
#[verifier::rlimit(100)]
fn boot_vector_builder(
    ph_header: u64,
    ph_entry_size: u64,
    ph_count: u64,
    hwcap: u64,
    rand_lo: u64,
    rand_hi: u64,
    entry: u64,
) -> (b: VectorBuilder)
    ensures
        b.args_view() == boot_args(),
        b.envs_view() == boot_envs(),
        b.aux_view() == boot_aux(
            ph_header,
            ph_entry_size,
            ph_count,
            hwcap,
            rand_lo,
            rand_hi,
            entry,
        ),
{
    let mut b = VectorBuilder::new();
    b.push_arg(init_name());
    b.push_env(lang_env());
    b.push_env(stdio_env());
    b.push_env(module_env());
    b.push_env(log_env());
    b.push_aux(AuxEntry::ExecFilename(init_name()));
    b.push_aux(AuxEntry::Platform(platform_name()));
    b.push_aux(AuxEntry::Uid(1000));
    b.push_aux(AuxEntry::EUid(1000));
    b.push_aux(AuxEntry::Gid(1000));
    b.push_aux(AuxEntry::EGid(1000));
    b.push_aux(AuxEntry::PageSize(4096));
    b.push_aux(AuxEntry::Secure(false));
    b.push_aux(AuxEntry::ClockTick(100));
    b.push_aux(AuxEntry::Flags(0));
    b.push_aux(AuxEntry::PHdr(ph_header));
    b.push_aux(AuxEntry::PHent(ph_entry_size));
    b.push_aux(AuxEntry::PHnum(ph_count));
    b.push_aux(AuxEntry::HwCap(hwcap));
    b.push_aux(AuxEntry::HwCap2(0));
    b.push_aux(AuxEntry::Random(rand_lo, rand_hi));
    b.push_aux(AuxEntry::Entry(entry));
    proof {
        assert(b.args_view() =~= boot_args());
        assert(b.envs_view() =~= boot_envs());
        assert(b.aux_view() =~= boot_aux(
            ph_header,
            ph_entry_size,
            ph_count,
            hwcap,
            rand_lo,
            rand_hi,
            entry,
        ));
    }
    b
}

#[verifier::rlimit(60)]
pub fn crt0setup(
    image_base: u64,
    header: &ElfHeader,
    stack_base: u64,
    stack_size: u64,
    hwcap: u64,
    rand_lo: u64,
    rand_hi: u64,
) -> (r: Result<(u64, FinalizedStack), BootFault>)
    requires
        stack_base % 16 == 0,
        stack_base + stack_size <= u64::MAX,
    ensures
        r is Ok <==> {
            &&& image_base + header.ph_offset <= u64::MAX
            &&& image_base + header.entry <= u64::MAX
            &&& used_len(
                boot_args(),
                boot_envs(),
                boot_aux(
                    (image_base + header.ph_offset) as u64,
                    header.ph_entry_size as u64,
                    header.ph_count as u64,
                    hwcap,
                    rand_lo,
                    rand_hi,
                    (image_base + header.entry) as u64,
                ),
            ) <= stack_size
        },
        r matches Ok((entry, fs)) ==> {
            let aux = boot_aux(
                (image_base + header.ph_offset) as u64,
                header.ph_entry_size as u64,
                header.ph_count as u64,
                hwcap,
                rand_lo,
                rand_hi,
                (image_base + header.entry) as u64,
            );
            &&& entry == image_base + header.entry
            &&& fs.sp == stack_base + start_off(boot_args(), boot_envs(), aux, stack_size)
            &&& fs.bytes@ == sv_bytes(boot_args(), boot_envs(), aux, stack_base, stack_size)
            &&& fs.sp % 16 == 0
            &&& stack_base <= fs.sp
            &&& fs.sp + fs.bytes@.len() == stack_base + stack_size
        },
        r == Err::<(u64, FinalizedStack), BootFault>(BootFault::AddressOverflow) <==> image_base
            + header.ph_offset > u64::MAX || image_base + header.entry > u64::MAX,
        r is Err ==> r == Err::<(u64, FinalizedStack), BootFault>(BootFault::AddressOverflow)
            || r == Err::<(u64, FinalizedStack), BootFault>(BootFault::StackExhausted),
{
    let ph_header = match image_base.checked_add(header.ph_offset) {
        Some(a) => a,
        None => {
            return Err(BootFault::AddressOverflow);
        },
    };
    let entry = match image_base.checked_add(header.entry) {
        Some(a) => a,
        None => {
            return Err(BootFault::AddressOverflow);
        },
    };
    let b = boot_vector_builder(
        ph_header,
        header.ph_entry_size as u64,
        header.ph_count as u64,
        hwcap,
        rand_lo,
        rand_hi,
        entry,
    );
    match b.finalize(stack_base, stack_size) {
        Ok(fs) => Ok((entry, fs)),
        Err(e) => Err(e),
    }
}

/// One guarded-stack request: a faulting guard region immediately below
/// `base`, then `size` mapped, writable bytes at `[base, base + size)`,
/// with the given extra permission flags.
pub struct StackRequest {
    /// Lowest address of the mapped stack region.
    pub base: u64,
    /// Size of the mapped stack region in bytes.
    pub size: u64,
    /// Extra permission flags of the mapped region.
    pub flags: u64,
}

/// The pair consumed exactly once by the privilege transition.
pub struct ExecutionHandle {
    /// Virtual address unprivileged execution starts at.
    pub entry: u64,
    /// Initial stack pointer of the payload.
    pub stack_pointer: u64,
}

/// Everything one boot pass decides, to be performed in order: map the
/// segments, allocate the guarded stack, write the vector bytes at the
/// stack pointer, publish the payload-ready signal, transition.
pub struct BootPlan {
    /// The randomized image base the segments are mapped at.
    pub image_base: u64,
    /// One mapping request per loadable segment, in table order.
    pub segments: Vec<MappedSegment>,
    /// The guarded-stack request.
    pub stack: StackRequest,
    /// The startup vector: stack bytes from the stack pointer to the top.
    pub stack_contents: FinalizedStack,
    /// Entry address and initial stack pointer.
    pub handle: ExecutionHandle,
}

/// The stages of one boot pass, in order.  Boot is a single pass: no
/// transition is reversible and no stage is revisited.
#[derive(Clone, Copy, PartialEq, Eq, Structural, Debug)]
pub enum BootStage {
    /// Nothing decided yet.
    Uninitialized,
    /// The randomized bases are established.
    AddressSpaceRandomized,
    /// The image's segments are mapped.
    ImageMapped,
    /// The guarded stack carries the startup vector.
    StackBuilt,
    /// The payload-ready signal is published.
    PayloadReadyFlagSet,
    /// Unprivileged execution has begun; terminal.
    Transitioned,
}

/// Position of a stage in the single boot pass.
pub open spec fn stage_index(s: BootStage) -> int {
    match s {
        BootStage::Uninitialized => 0,
        BootStage::AddressSpaceRandomized => 1,
        BootStage::ImageMapped => 2,
        BootStage::StackBuilt => 3,
        BootStage::PayloadReadyFlagSet => 4,
        BootStage::Transitioned => 5,
    }
}

/// Step to the next stage.  Every step moves strictly forward, so no stage
/// is ever revisited; the terminal stage admits no step.
pub fn advance_stage(s: BootStage) -> (n: BootStage)
    requires
        s != BootStage::Transitioned,
    ensures
        stage_index(n) == stage_index(s) + 1,
{
    match s {
        BootStage::Uninitialized => BootStage::AddressSpaceRandomized,
        BootStage::AddressSpaceRandomized => BootStage::ImageMapped,
        BootStage::ImageMapped => BootStage::StackBuilt,
        BootStage::StackBuilt => BootStage::PayloadReadyFlagSet,
        BootStage::PayloadReadyFlagSet => BootStage::Transitioned,
        BootStage::Transitioned => BootStage::Transitioned,
    }
}

/// The image base after one read: the stored value, or the base freshly
/// drawn from `r`.
pub open spec fn image_base_after(l: AddressLayout, r: u64) -> u64 {
    if l.image_base is Some {
        l.image_base.unwrap()
    } else {
        randomized_base(IMAGE_REGION_START, IMAGE_OFFSET_MASK, r) as u64
    }
}

/// The randomized stack base of one boot pass; drawn fresh each pass, never
/// cached.
pub open spec fn stack_base_of(r_stack: u64) -> u64 {
    randomized_base(STACK_REGION_START, STACK_OFFSET_MASK, r_stack) as u64
}

/// Everything that must hold of the image, the image base and the stack
/// draw for the boot pass to succeed.
pub open spec fn boot_ok(
    image: PayloadImage,
    ib: u64,
    hwcap: u64,
    rand_lo: u64,
    rand_hi: u64,
) -> bool {
    &&& image.header.magic_valid()
    &&& image_mappable(image, ib)
    &&& ib + image.header.ph_offset <= u64::MAX
    &&& ib + image.header.entry <= u64::MAX
    &&& used_len(
        boot_args(),
        boot_envs(),
        boot_aux(
            (ib + image.header.ph_offset) as u64,
            image.header.ph_entry_size as u64,
            image.header.ph_count as u64,
            hwcap,
            rand_lo,
            rand_hi,
            (ib + image.header.entry) as u64,
        ),
    ) <= STACK_SIZE
}

/// Decide one whole boot pass.
///
/// Establishes the image base (first read draws it from `r_image`),
/// validates and maps the image, draws a fresh stack base from `r_stack`,
/// builds the startup vector (hardware capabilities from `hwcap`, the
/// 128-bit entropy entry from `rand_lo`/`rand_hi`) and returns the plan
/// with the execution handle.  Fails exactly when the image is malformed,
/// a segment is misaligned, an address computation overflows, or the
/// vector does not fit the stack.
#[verifier::rlimit(60)]
pub fn execute_payload(
    image: &PayloadImage,
    layout: &mut AddressLayout,
    r_image: u64,
    r_stack: u64,
    hwcap: u64,
    rand_lo: u64,
    rand_hi: u64,
) -> (r: Result<BootPlan, BootFault>)
    requires
        old(layout).wf(),
        image.wf(),
    ensures
        final(layout).wf(),
        final(layout).brk_base == old(layout).brk_base,
        final(layout).mmap_base == old(layout).mmap_base,
        final(layout).image_base == Some(image_base_after(*old(layout), r_image)),
        old(layout).image_base is Some ==> *final(layout) == *old(layout),
        r is Ok <==> boot_ok(
            *image,
            image_base_after(*old(layout), r_image),
            hwcap,
            rand_lo,
            rand_hi,
        ),
        r matches Ok(plan) ==> {
            let ib = image_base_after(*old(layout), r_image);
            let sb = stack_base_of(r_stack);
            let aux = boot_aux(
                (ib + image.header.ph_offset) as u64,
                image.header.ph_entry_size as u64,
                image.header.ph_count as u64,
                hwcap,
                rand_lo,
                rand_hi,
                (ib + image.header.entry) as u64,
            );
            &&& plan.image_base == ib
            &&& plan.segments@ == segments_of(image.phdrs@, image.phys_base, ib)
            &&& plan.stack.base == sb
            &&& plan.stack.size == STACK_SIZE
            &&& plan.stack.flags == FLAG_USER_ACCESSIBLE
            &&& plan.stack_contents.sp == sb + start_off(boot_args(), boot_envs(), aux, STACK_SIZE)
            &&& plan.stack_contents.bytes@ == sv_bytes(
                boot_args(),
                boot_envs(),
                aux,
                sb,
                STACK_SIZE,
            )
            &&& plan.handle.entry == ib + image.header.entry
            &&& plan.handle.stack_pointer == plan.stack_contents.sp
        },
        r == Err::<BootPlan, BootFault>(BootFault::InvalidMagic) <==> !image.header.magic_valid(),
        r == Err::<BootPlan, BootFault>(BootFault::MisalignedSegment) ==> exists|i: int|
            0 <= i < image.phdrs@.len() && crate::mapper::loadable(#[trigger] image.phdrs@[i])
                && !crate::mapper::segment_aligned(image.phdrs@[i]),
        r == Err::<BootPlan, BootFault>(BootFault::StackExhausted) ==> used_len(
            boot_args(),
            boot_envs(),
            boot_aux(
                (image_base_after(*old(layout), r_image) + image.header.ph_offset) as u64,
                image.header.ph_entry_size as u64,
                image.header.ph_count as u64,
                hwcap,
                rand_lo,
                rand_hi,
                (image_base_after(*old(layout), r_image) + image.header.entry) as u64,
            ),
        ) > STACK_SIZE,
{
    let ib = layout.get_image_base(r_image);
    let segments = match map_elf(image, ib) {
        Ok(s) => s,
        Err(e) => {
            return Err(e);
        },
    };
    let sb = crate::layout::randomize_base(STACK_REGION_START, STACK_OFFSET_MASK, r_stack);
    proof {
        crate::layout::lemma_randomized_base_aligned(
            STACK_REGION_START,
            STACK_OFFSET_MASK,
            r_stack,
        );
    }
    let (entry, fs) = match crt0setup(ib, &image.header, sb, STACK_SIZE, hwcap, rand_lo, rand_hi) {
        Ok(p) => p,
        Err(e) => {
            return Err(e);
        },
    };
    let sp = fs.sp;
    Ok(
        BootPlan {
            image_base: ib,
            segments,
            stack: StackRequest { base: sb, size: STACK_SIZE, flags: FLAG_USER_ACCESSIBLE },
            stack_contents: fs,
            handle: ExecutionHandle { entry, stack_pointer: sp },
        },
    )
}

} // verus!
