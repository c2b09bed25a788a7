//! Memory-type selection for accelerator resource allocation.
//!
//! An accelerator reports a list of memory types, each with a bitmask of
//! property flags. A resource to be allocated comes with memory requirements:
//! a bitmask naming which memory types can back it, and the caller asks for a
//! set of property flags (host-visible and host-coherent for staging,
//! device-local for final image storage). The selector scans the reported
//! types and picks the lowest-indexed one that is allowed by the requirement
//! bitmask and whose flags are a superset of the requested flags.

use vstd::prelude::*;

verus! {

/// A memory type at index `i` suits the request when bit `i` of the
/// requirement bitmask is set and its property flags contain every
/// requested flag.
pub open spec fn memory_type_suits(
    memory_type_bits: u32,
    property_flags: Seq<u32>,
    required_flags: u32,
    i: int,
) -> bool {
    &&& 0 <= i < property_flags.len()
    &&& memory_type_bits & (1u32 << i as u32) != 0
    &&& property_flags[i] & required_flags == required_flags
}

/// Select the lowest-indexed memory type that satisfies both the requirement
/// bitmask and the requested property flags, or report that none does.
pub fn find_memorytype_index(
    memory_type_bits: u32,
    property_flags: &Vec<u32>,
    required_flags: u32,
) -> (r: Option<u32>)
    requires
        property_flags.len() <= 32,
    ensures
        match r {
            Some(i) => {
                &&& memory_type_suits(memory_type_bits, property_flags@, required_flags, i as int)
                &&& forall|j: int| 0 <= j < i
                    ==> !memory_type_suits(memory_type_bits, property_flags@, required_flags, j)
            },
            None => forall|j: int|
                !memory_type_suits(memory_type_bits, property_flags@, required_flags, j),
        },
{
    let mut i: usize = 0;
    while i < property_flags.len()
        invariant
            property_flags.len() <= 32,
            i <= property_flags.len(),
            forall|j: int| 0 <= j < i
                ==> !memory_type_suits(memory_type_bits, property_flags@, required_flags, j),
        decreases property_flags.len() - i,
    {
        let allowed = memory_type_bits & (1u32 << (i as u32)) != 0;
        if allowed && property_flags[i] & required_flags == required_flags {
            return Some(i as u32);
        }
        i = i + 1;
    }
    None
}

/// The property-flag bit for device-local memory, as the driver interface
/// numbers it.
pub const MEMORY_PROPERTY_DEVICE_LOCAL: u32 = 1;

/// The property-flag bit for host-visible memory.
pub const MEMORY_PROPERTY_HOST_VISIBLE: u32 = 2;

/// The property-flag bit for host-coherent memory.
pub const MEMORY_PROPERTY_HOST_COHERENT: u32 = 4;

/// The flags a staging allocation asks for: host-visible and host-coherent.
pub fn staging_memory_flags() -> (r: u32)
    ensures
        r == MEMORY_PROPERTY_HOST_VISIBLE | MEMORY_PROPERTY_HOST_COHERENT,
{
    MEMORY_PROPERTY_HOST_VISIBLE | MEMORY_PROPERTY_HOST_COHERENT
}

/// The flags the final image storage asks for: device-local.
pub fn image_memory_flags() -> (r: u32)
    ensures
        r == MEMORY_PROPERTY_DEVICE_LOCAL,
{
    MEMORY_PROPERTY_DEVICE_LOCAL
}

/// The memory requirements the driver reports for a buffer or image.
#[derive(Clone, Copy, PartialEq, Eq, Structural, Debug)]
pub struct MemoryRequirements {
    pub size: u64,
    pub alignment: u64,
    pub memory_type_bits: u32,
}

/// Everything an upload needs before the driver calls are made: the buffer
/// object's size, the allocation's size, and the memory type backing it.
#[derive(Clone, Copy, PartialEq, Eq, Structural, Debug)]
pub struct UploadPlan {
    pub buffer_size: u64,
    pub allocation_size: u64,
    pub memory_type_index: u32,
}

/// No reported memory type satisfies the resource's requirements together
/// with the requested property flags: a fatal configuration error.
#[derive(Clone, Copy, PartialEq, Eq, Structural, Debug)]
pub enum UploadError {
    NoSuitableMemoryType,
}

/// Plan one upload: the buffer is created at the data's size, the
/// allocation at the size the driver requires, and the memory type is the
/// lowest-indexed one satisfying the requirement bitmask and the requested
/// flags. Fails exactly when no reported type satisfies both.
pub fn plan_upload(
    data_bytes: u64,
    req: MemoryRequirements,
    property_flags: &Vec<u32>,
    required_flags: u32,
) -> (r: Result<UploadPlan, UploadError>)
    requires
        property_flags.len() <= 32,
    ensures
        match r {
            Ok(p) => {
                &&& p.buffer_size == data_bytes
                &&& p.allocation_size == req.size
                &&& memory_type_suits(
                    req.memory_type_bits,
                    property_flags@,
                    required_flags,
                    p.memory_type_index as int,
                )
                &&& forall|j: int| 0 <= j < p.memory_type_index
                    ==> !memory_type_suits(
                        req.memory_type_bits,
                        property_flags@,
                        required_flags,
                        j,
                    )
            },
            Err(_) => forall|j: int|
                !memory_type_suits(req.memory_type_bits, property_flags@, required_flags, j),
        },
{
    match find_memorytype_index(req.memory_type_bits, property_flags, required_flags) {
        Some(i) => Ok(
            UploadPlan { buffer_size: data_bytes, allocation_size: req.size, memory_type_index: i },
        ),
        None => Err(UploadError::NoSuitableMemoryType),
    }
}

} // verus!
