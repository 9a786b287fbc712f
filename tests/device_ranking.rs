use chthonic_archive::device::{
    check_api_version, device_local_memory_mb, find_memory_type, find_queue_family, select_physical_device,
    ApiVersion, DeviceCandidate, InitError, MemoryHeap, QueueFamily, DEVICE_TYPE_DISCRETE_GPU,
    DEVICE_TYPE_INTEGRATED_GPU, MEMORY_HEAP_DEVICE_LOCAL_BIT, QUEUE_GRAPHICS_BIT,
};
use ash::vk;

const GIB: u64 = 1 << 30;

fn candidate(device_type: i32, local_gib: u64) -> DeviceCandidate {
    DeviceCandidate {
        device_type,
        queue_families: vec![QueueFamily { flags: QUEUE_GRAPHICS_BIT, supports_present: true }],
        memory_heaps: vec![
            MemoryHeap { size: local_gib * GIB, flags: MEMORY_HEAP_DEVICE_LOCAL_BIT },
            MemoryHeap { size: 8 * GIB, flags: 0 },
        ],
        dynamic_rendering: true,
    }
}

#[test]
fn device_codes_match_the_vulkan_bindings() {
    assert_eq!(DEVICE_TYPE_DISCRETE_GPU, vk::PhysicalDeviceType::DISCRETE_GPU.as_raw());
    assert_eq!(DEVICE_TYPE_INTEGRATED_GPU, vk::PhysicalDeviceType::INTEGRATED_GPU.as_raw());
    assert_eq!(QUEUE_GRAPHICS_BIT, vk::QueueFlags::GRAPHICS.as_raw());
    assert_eq!(MEMORY_HEAP_DEVICE_LOCAL_BIT, vk::MemoryHeapFlags::DEVICE_LOCAL.as_raw());
}

#[test]
fn discrete_device_wins_over_integrated() {
    let devices = vec![candidate(DEVICE_TYPE_INTEGRATED_GPU, 2), candidate(DEVICE_TYPE_DISCRETE_GPU, 2)];
    let sel = select_physical_device(&devices).unwrap();
    assert_eq!(sel.device_index, 1);
    assert_eq!(sel.queue_family_index, 0);
    assert_eq!(sel.score, 10000 + 2048);
}

#[test]
fn equal_scores_keep_first_enumerated() {
    let devices = vec![candidate(DEVICE_TYPE_DISCRETE_GPU, 4), candidate(DEVICE_TYPE_DISCRETE_GPU, 4)];
    assert_eq!(select_physical_device(&devices).unwrap().device_index, 0);
}

#[test]
fn more_memory_wins_among_discrete() {
    let devices = vec![candidate(DEVICE_TYPE_DISCRETE_GPU, 8), candidate(DEVICE_TYPE_DISCRETE_GPU, 24)];
    let sel = select_physical_device(&devices).unwrap();
    assert_eq!(sel.device_index, 1);
    assert_eq!(sel.score, 10000 + 24 * 1024);
}

#[test]
fn unqualified_devices_are_discarded() {
    let mut no_rendering = candidate(DEVICE_TYPE_DISCRETE_GPU, 24);
    no_rendering.dynamic_rendering = false;
    let mut no_present = candidate(DEVICE_TYPE_DISCRETE_GPU, 24);
    no_present.queue_families = vec![QueueFamily { flags: QUEUE_GRAPHICS_BIT, supports_present: false }];
    let mut compute_only = candidate(DEVICE_TYPE_DISCRETE_GPU, 24);
    compute_only.queue_families = vec![QueueFamily { flags: 2, supports_present: true }];
    let devices = vec![no_rendering, no_present, compute_only, candidate(DEVICE_TYPE_INTEGRATED_GPU, 1)];
    let sel = select_physical_device(&devices).unwrap();
    assert_eq!(sel.device_index, 3);
    assert_eq!(sel.score, 1024);
}

#[test]
fn no_suitable_device() {
    assert_eq!(select_physical_device(&vec![]), Err(InitError::NoSuitableDevice));
    let mut c = candidate(DEVICE_TYPE_DISCRETE_GPU, 1);
    c.dynamic_rendering = false;
    assert_eq!(select_physical_device(&vec![c]), Err(InitError::NoSuitableDevice));
}

#[test]
fn first_family_that_draws_and_presents() {
    let families = vec![
        QueueFamily { flags: 2, supports_present: true },
        QueueFamily { flags: 3, supports_present: false },
        QueueFamily { flags: 7, supports_present: true },
        QueueFamily { flags: 1, supports_present: true },
    ];
    assert_eq!(find_queue_family(&families), Some(2));
    assert_eq!(find_queue_family(&vec![]), None);
}

#[test]
fn device_local_memory_in_mb() {
    let heaps = vec![
        MemoryHeap { size: 3 * (1 << 20) + 5, flags: MEMORY_HEAP_DEVICE_LOCAL_BIT },
        MemoryHeap { size: 1 << 40, flags: 0 },
        MemoryHeap { size: (1 << 20) - 5, flags: 3 },
    ];
    assert_eq!(device_local_memory_mb(&heaps), 4);
    let huge = vec![MemoryHeap { size: u64::MAX, flags: 1 }, MemoryHeap { size: u64::MAX, flags: 1 }];
    assert_eq!(device_local_memory_mb(&huge), (2 * u64::MAX as u128) >> 20);
}

#[test]
fn api_version_1_3_and_above_accepted() {
    assert_eq!(
        check_api_version(Some(vk::make_api_version(0, 1, 3, 250))),
        Ok(ApiVersion { major: 1, minor: 3, patch: 250 })
    );
    assert_eq!(
        check_api_version(Some(vk::make_api_version(0, 1, 4, 0))),
        Ok(ApiVersion { major: 1, minor: 4, patch: 0 })
    );
}

#[test]
fn api_version_below_1_3_refused() {
    assert_eq!(
        check_api_version(Some(vk::make_api_version(0, 1, 2, 198))),
        Err(InitError::UnsupportedApiVersion { major: 1, minor: 2, patch: 198 })
    );
    assert_eq!(
        check_api_version(None),
        Err(InitError::UnsupportedApiVersion { major: 1, minor: 0, patch: 0 })
    );
}

#[test]
fn memory_type_first_allowed_with_all_flags() {
    let host = (vk::MemoryPropertyFlags::HOST_VISIBLE | vk::MemoryPropertyFlags::HOST_COHERENT).as_raw();
    let local = vk::MemoryPropertyFlags::DEVICE_LOCAL.as_raw();
    let types = vec![local, host | local, vk::MemoryPropertyFlags::HOST_VISIBLE.as_raw(), host];
    assert_eq!(find_memory_type(0b1111, &types, host), Some(1));
    assert_eq!(find_memory_type(0b1101, &types, host), Some(3));
    assert_eq!(find_memory_type(0b0101, &types, host), None);
    assert_eq!(find_memory_type(u32::MAX, &vec![], host), None);
    let many = vec![host; 40];
    assert_eq!(find_memory_type(0, &many, host), None);
    assert_eq!(find_memory_type(1 << 31, &many, host), Some(31));
}
