//! Payload loader and execution-transition core of an enclave kernel shim.
//!
//! The crate computes everything the boot sequence decides: the randomized
//! address-space layout, the page mappings for the payload's loadable
//! segments, and the startup stack (argument, environment and auxiliary
//! vector).  The surrounding kernel performs the resulting mapping requests,
//! writes the stack bytes and makes the privilege transition; this crate
//! holds the logic and its proofs.

use vstd::prelude::*;

pub mod boot;
pub mod crt0;
pub mod elf;
pub mod layout;
pub mod mapper;

verus! {

/// The single fatal-fault kind of the boot sequence: every failure aborts
/// boot, none is recoverable.
#[derive(Clone, Copy, PartialEq, Eq, Structural, Debug)]
pub enum BootFault {
    /// The payload image does not begin with the executable magic bytes.
    InvalidMagic,
    /// The image's program-header geometry is impossible: the table as the
    /// header announces it does not lie within the image.
    InvalidGeometry,
    /// A loadable segment's required alignment is not the hardware page size.
    MisalignedSegment,
    /// An address computation left the 64-bit address space.
    AddressOverflow,
    /// The startup vector does not fit into the provisioned stack region.
    StackExhausted,
}

} // verus!
