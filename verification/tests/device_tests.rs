use gpu_vk::device::{
    first_suitable_family, Adapter, DeviceData, DeviceError, MemoryType, QueueFamily,
    MEMORY_DEVICE_LOCAL, MEMORY_HOST_COHERENT, MEMORY_HOST_VISIBLE, QUEUE_GRAPHICS,
};

fn family(queue_flags: u32, supports_surface: bool) -> QueueFamily {
    QueueFamily { queue_flags, supports_surface }
}

fn memory(property_flags: u32) -> MemoryType {
    MemoryType { property_flags, heap_index: 0 }
}

fn device_with(types: Vec<MemoryType>) -> DeviceData {
    DeviceData { physical_device: 7, queue_family_index: 0, memory_types: types }
}

#[test]
fn zero_mask_finds_no_memory_type() {
    let device = device_with(vec![memory(MEMORY_DEVICE_LOCAL), memory(MEMORY_HOST_VISIBLE)]);
    assert_eq!(device.find_memory_type_index(0, 0), None);
    assert_eq!(device.find_memory_type_index(0, MEMORY_DEVICE_LOCAL), None);
}

#[test]
fn finds_lowest_matching_memory_type() {
    let host = MEMORY_HOST_VISIBLE | MEMORY_HOST_COHERENT;
    let device = device_with(vec![
        memory(MEMORY_DEVICE_LOCAL),
        memory(MEMORY_HOST_VISIBLE),
        memory(host),
        memory(host | MEMORY_DEVICE_LOCAL),
    ]);
    assert_eq!(device.find_memory_type_index(0b1111, host), Some(2));
    assert_eq!(device.find_memory_type_index(0b1000, host), Some(3));
    assert_eq!(device.find_memory_type_index(0b1111, MEMORY_DEVICE_LOCAL), Some(0));
    assert_eq!(device.find_memory_type_index(0b1110, MEMORY_DEVICE_LOCAL), Some(3));
    assert_eq!(device.find_memory_type_index(0b0011, host), None);
}

#[test]
fn memory_type_needs_every_requested_property() {
    let device = device_with(vec![memory(MEMORY_HOST_VISIBLE)]);
    assert_eq!(
        device.find_memory_type_index(1, MEMORY_HOST_VISIBLE | MEMORY_HOST_COHERENT),
        None
    );
    assert_eq!(device.find_memory_type_index(1, MEMORY_HOST_VISIBLE), Some(0));
    assert_eq!(device.find_memory_type_index(1, 0), Some(0));
}

#[test]
fn mask_bits_beyond_the_table_match_nothing() {
    let device = device_with(vec![memory(MEMORY_DEVICE_LOCAL)]);
    assert_eq!(device.find_memory_type_index(0xffff_fffe, MEMORY_DEVICE_LOCAL), None);
    assert_eq!(device.find_memory_type_index(0xffff_ffff, MEMORY_DEVICE_LOCAL), Some(0));
}

#[test]
fn highest_memory_type_is_found() {
    let mut types = vec![memory(0); 31];
    types.push(memory(MEMORY_DEVICE_LOCAL));
    types.push(memory(MEMORY_DEVICE_LOCAL));
    let device = device_with(types);
    assert_eq!(device.find_memory_type_index(0x8000_0000, MEMORY_DEVICE_LOCAL), Some(31));
    assert_eq!(device.find_memory_type_index(0x7fff_ffff, MEMORY_DEVICE_LOCAL), None);
}

#[test]
fn first_suitable_family_needs_graphics_and_surface() {
    let families = vec![
        family(QUEUE_GRAPHICS, false),
        family(2, true),
        family(QUEUE_GRAPHICS | 4, true),
        family(QUEUE_GRAPHICS, true),
    ];
    assert_eq!(first_suitable_family(&families), Some(2));
    assert_eq!(first_suitable_family(&families[..2].to_vec()), None);
    assert_eq!(first_suitable_family(&Vec::new()), None);
}

#[test]
fn selects_first_adapter_with_suitable_family() {
    let adapters = vec![
        Adapter { handle: 10, queue_families: vec![family(2, true)], memory_types: vec![memory(1)] },
        Adapter {
            handle: 20,
            queue_families: vec![family(QUEUE_GRAPHICS, false), family(QUEUE_GRAPHICS, true)],
            memory_types: vec![memory(2), memory(4)],
        },
        Adapter {
            handle: 30,
            queue_families: vec![family(QUEUE_GRAPHICS, true)],
            memory_types: vec![memory(1)],
        },
    ];
    let device = DeviceData::new(&adapters).unwrap();
    assert_eq!(device.physical_device, 20);
    assert_eq!(device.queue_family_index, 1);
    assert_eq!(device.memory_types.len(), 2);
    assert_eq!(device.memory_types[0].property_flags, 2);
    assert_eq!(device.memory_types[1].property_flags, 4);
}

#[test]
fn no_suitable_adapter_is_an_error() {
    let adapters = vec![Adapter {
        handle: 10,
        queue_families: vec![family(QUEUE_GRAPHICS, false), family(0, true)],
        memory_types: Vec::new(),
    }];
    assert_eq!(DeviceData::new(&adapters).err(), Some(DeviceError::NoSuitableAdapter));
    assert_eq!(DeviceData::new(&Vec::new()).err(), Some(DeviceError::NoSuitableAdapter));
}
