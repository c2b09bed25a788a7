use cosy::device::{AdapterCaps, DeviceChoice, QueueFamilyCaps};
use cosy::memory::{
    find_memorytype_index, plan_upload, staging_memory_flags, image_memory_flags,
    MemoryRequirements, UploadError, MEMORY_PROPERTY_DEVICE_LOCAL, MEMORY_PROPERTY_HOST_COHERENT,
    MEMORY_PROPERTY_HOST_VISIBLE,
};
use cosy::select_device_queue;

fn family(graphics: bool, present: bool) -> QueueFamilyCaps {
    QueueFamilyCaps { graphics, present }
}

#[test]
fn selects_first_family_with_both_capabilities() {
    let adapters = vec![
        AdapterCaps { queue_families: vec![family(true, false), family(false, true)] },
        AdapterCaps {
            queue_families: vec![family(false, false), family(true, true), family(true, true)],
        },
    ];
    let choice = select_device_queue(&adapters);
    assert_eq!(choice, Some(DeviceChoice { adapter: 1, queue_family: 1 }));
}

#[test]
fn never_selects_a_family_lacking_a_capability() {
    let adapters = vec![
        AdapterCaps { queue_families: vec![family(true, false)] },
        AdapterCaps { queue_families: vec![family(false, true), family(false, false)] },
    ];
    assert_eq!(select_device_queue(&adapters), None);
}

#[test]
fn no_adapters_means_no_choice() {
    let adapters: Vec<AdapterCaps> = Vec::new();
    assert_eq!(select_device_queue(&adapters), None);
}

#[test]
fn memory_selection_picks_lowest_matching_index() {
    let host = MEMORY_PROPERTY_HOST_VISIBLE | MEMORY_PROPERTY_HOST_COHERENT;
    // Type 0 matches the flags but is excluded by the requirement bitmask;
    // type 1 is allowed but lacks coherence; types 2 and 3 both qualify.
    let types = vec![host, MEMORY_PROPERTY_HOST_VISIBLE, host, host];
    let type_bits: u32 = 0b1110;
    assert_eq!(find_memorytype_index(type_bits, &types, host), Some(2));
}

#[test]
fn memory_selection_fails_closed_when_unsatisfiable() {
    let types = vec![MEMORY_PROPERTY_DEVICE_LOCAL, MEMORY_PROPERTY_HOST_VISIBLE];
    let wanted = MEMORY_PROPERTY_HOST_VISIBLE | MEMORY_PROPERTY_HOST_COHERENT;
    assert_eq!(find_memorytype_index(0b11, &types, wanted), None);
}

#[test]
fn memory_selection_respects_requirement_bitmask() {
    let host = MEMORY_PROPERTY_HOST_VISIBLE | MEMORY_PROPERTY_HOST_COHERENT;
    let types = vec![host, host];
    assert_eq!(find_memorytype_index(0b10, &types, host), Some(1));
    assert_eq!(find_memorytype_index(0b00, &types, host), None);
}

#[test]
fn upload_plan_carries_sizes_and_type_index() {
    let req = MemoryRequirements { size: 256, alignment: 16, memory_type_bits: 0b10 };
    let types = vec![MEMORY_PROPERTY_DEVICE_LOCAL, staging_memory_flags()];
    let plan = plan_upload(24, req, &types, staging_memory_flags()).unwrap();
    assert_eq!(plan.buffer_size, 24);
    assert_eq!(plan.allocation_size, 256);
    assert_eq!(plan.memory_type_index, 1);
}

#[test]
fn upload_plan_fails_without_suitable_type() {
    let req = MemoryRequirements { size: 256, alignment: 16, memory_type_bits: 0b01 };
    let types = vec![MEMORY_PROPERTY_HOST_VISIBLE];
    let r = plan_upload(24, req, &types, image_memory_flags());
    assert_eq!(r, Err(UploadError::NoSuitableMemoryType));
}
