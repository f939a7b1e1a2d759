//! Adapter selection and the memory-type table of the logical device.

use vstd::prelude::*;

verus! {

/// Bit of `queue_flags` that marks a queue family as able to run graphics work.
pub const QUEUE_GRAPHICS: u32 = 1;

/// Memory property bit: memory local to the device.
pub const MEMORY_DEVICE_LOCAL: u32 = 1;

/// Memory property bit: memory the host can map.
pub const MEMORY_HOST_VISIBLE: u32 = 2;

/// Memory property bit: host writes need no explicit flush.
pub const MEMORY_HOST_COHERENT: u32 = 4;

/// Largest number of memory types a device can report.
pub const MAX_MEMORY_TYPES: usize = 32;

/// One queue family of an adapter, as far as selection reads it.
#[derive(Clone, Copy, Debug)]
pub struct QueueFamily {
    pub queue_flags: u32,
    /// Whether the family can present to the surface the engine draws on.
    pub supports_surface: bool,
}

/// One entry of an adapter's memory-type table.
#[derive(Clone, Copy, Debug)]
pub struct MemoryType {
    pub property_flags: u32,
    pub heap_index: u32,
}

/// A physical adapter as enumerated by the instance.
#[derive(Clone, Debug)]
pub struct Adapter {
    pub handle: u64,
    pub queue_families: Vec<QueueFamily>,
    pub memory_types: Vec<MemoryType>,
}

/// Why no device could be selected.
#[derive(Clone, Copy, Debug, PartialEq, Eq, Structural)]
pub enum DeviceError {
    /// No adapter has a queue family that does graphics and presents to the surface.
    NoSuitableAdapter,
}

/// The selected adapter, its queue family and its memory-type table.
#[derive(Clone, Debug)]
pub struct DeviceData {
    pub physical_device: u64,
    pub queue_family_index: u32,
    pub memory_types: Vec<MemoryType>,
}

/// A family is suitable when it runs graphics work and presents to the surface.
pub open spec fn family_suitable(family: QueueFamily) -> bool {
    family.queue_flags & QUEUE_GRAPHICS != 0 && family.supports_surface
}

/// `index` names a suitable family that a 32-bit family index can address.
pub open spec fn suitable_at(families: Seq<QueueFamily>, index: int) -> bool {
    0 <= index < families.len() && index <= u32::MAX && family_suitable(families[index])
}

/// The adapter has at least one suitable family.
pub open spec fn adapter_suitable(adapter: Adapter) -> bool {
    exists|k: int| suitable_at(adapter.queue_families@, k)
}

/// `index` is the lowest suitable family of `families`.
pub open spec fn first_suitable_at(families: Seq<QueueFamily>, index: int) -> bool {
    suitable_at(families, index) && forall|k: int| 0 <= k < index ==> !suitable_at(families, k)
}

/// `device` is what selection yields when adapter `a` is the first suitable one.
pub open spec fn selected_from(adapters: Seq<Adapter>, a: int, device: DeviceData) -> bool {
    &&& 0 <= a < adapters.len()
    &&& adapter_suitable(adapters[a])
    &&& forall|b: int| 0 <= b < a ==> !#[trigger] adapter_suitable(adapters[b])
    &&& device.physical_device == adapters[a].handle
    &&& device.memory_types@ == adapters[a].memory_types@
    &&& first_suitable_at(adapters[a].queue_families@, device.queue_family_index as int)
}

/// `device` is the selection that `adapters` determines.
pub open spec fn is_selection(adapters: Seq<Adapter>, device: DeviceData) -> bool {
    exists|a: int| #[trigger] selected_from(adapters, a, device)
}

/// Bit `index` of `bits` is set; no bit exists beyond the 32nd.
pub open spec fn type_bit_set(bits: u32, index: int) -> bool {
    0 <= index < 32 && bits & (1u32 << (index as u32)) != 0
}

/// Memory type `index` is allowed by `memory_type_bits` and has every property in `flags`.
pub open spec fn memory_type_matches(
    types: Seq<MemoryType>,
    index: int,
    memory_type_bits: u32,
    flags: u32,
) -> bool {
    0 <= index < types.len() && type_bit_set(memory_type_bits, index)
        && types[index].property_flags & flags == flags
}

/// Lowest suitable family of `families`, if there is one.
pub fn first_suitable_family(families: &Vec<QueueFamily>) -> (r: Option<u32>)
    ensures
        match r {
            Some(index) => first_suitable_at(families@, index as int),
            None => forall|k: int| !suitable_at(families@, k),
        },
{
    let mut i: usize = 0;
    while i < families.len() && i <= 0xffff_ffff
        invariant
            i <= families.len(),
            forall|k: int| 0 <= k < i ==> !suitable_at(families@, k),
        decreases families.len() - i,
    {
        let family = families[i];
        if family.queue_flags & QUEUE_GRAPHICS != 0 && family.supports_surface {
            return Some(i as u32);
        }
        i += 1;
    }
    None
}

impl DeviceData {
    /// Picks the first adapter that has a suitable queue family, and in it the
    /// lowest such family. Fails when no adapter has one.
    pub fn new(adapters: &Vec<Adapter>) -> (r: Result<DeviceData, DeviceError>)
        ensures
            r matches Ok(device) ==> is_selection(adapters@, device),
            r matches Err(e) ==> e == DeviceError::NoSuitableAdapter,
            r is Err <==> forall|a: int|
                0 <= a < adapters@.len() ==> !#[trigger] adapter_suitable(adapters@[a]),
    {
        let mut a: usize = 0;
        while a < adapters.len()
            invariant
                a <= adapters.len(),
                forall|b: int| 0 <= b < a ==> !#[trigger] adapter_suitable(adapters@[b]),
            decreases adapters.len() - a,
        {
            match first_suitable_family(&adapters[a].queue_families) {
                Some(index) => {
                    let memory_types = copy_memory_types(&adapters[a].memory_types);
                    let device = DeviceData {
                        physical_device: adapters[a].handle,
                        queue_family_index: index,
                        memory_types,
                    };
                    proof {
                        assert(suitable_at(adapters@[a as int].queue_families@, index as int));
                        assert(selected_from(adapters@, a as int, device));
                    }
                    return Ok(device);
                },
                None => {},
            }
            a += 1;
        }
        Err(DeviceError::NoSuitableAdapter)
    }

    /// The memory-type table as a sequence.
    pub open spec fn types(&self) -> Seq<MemoryType> {
        self.memory_types@
    }

    /// Lowest memory type that `memory_type_bits` allows and that has every
    /// property in `flags`; `None` when no type qualifies.
    pub fn find_memory_type_index(&self, memory_type_bits: u32, flags: u32) -> (r: Option<u32>)
        ensures
            match r {
                Some(index) => {
                    &&& memory_type_matches(self.types(), index as int, memory_type_bits, flags)
                    &&& forall|k: int|
                        0 <= k < index ==> !memory_type_matches(
                            self.types(),
                            k,
                            memory_type_bits,
                            flags,
                        )
                },
                None => forall|k: int|
                    !memory_type_matches(self.types(), k, memory_type_bits, flags),
            },
            memory_type_bits == 0 ==> r is None,
            (exists|k: int| memory_type_matches(self.types(), k, memory_type_bits, flags))
                ==> r is Some,
    {
        let mut i: usize = 0;
        while i < self.memory_types.len() && i < MAX_MEMORY_TYPES
            invariant
                i <= self.memory_types.len(),
                i <= MAX_MEMORY_TYPES,
                forall|k: int|
                    0 <= k < i ==> !memory_type_matches(self.types(), k, memory_type_bits, flags),
            decreases self.memory_types.len() - i,
        {
            let shift: u32 = i as u32;
            let allowed = memory_type_bits & (1u32 << shift) != 0;
            if allowed && self.memory_types[i].property_flags & flags == flags {
                proof {
                    lemma_zero_mask_has_no_bit(shift);
                }
                return Some(shift);
            }
            i += 1;
        }
        None
    }
}

/// An all-zero mask allows no memory type.
proof fn lemma_zero_mask_has_no_bit(shift: u32)
    requires
        shift < 32,
    ensures
        0u32 & (1u32 << shift) == 0,
{
    assert(0u32 & (1u32 << shift) == 0) by (bit_vector);
}

/// Copies a memory-type table entry by entry.
fn copy_memory_types(types: &Vec<MemoryType>) -> (r: Vec<MemoryType>)
    ensures
        r@ == types@,
{
    let mut out: Vec<MemoryType> = Vec::new();
    let mut i: usize = 0;
    while i < types.len()
        invariant
            i <= types.len(),
            out@ == types@.subrange(0, i as int),
        decreases types.len() - i,
    {
        out.push(types[i]);
        i += 1;
    }
    assert(types@.subrange(0, types@.len() as int) == types@);
    out
}

} // verus!
