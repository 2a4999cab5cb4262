use kew::gpu::context::{
    vulkan_debug_callback, Diagnostics, InstanceExtension, KewContext, LogLevel, MemoryType,
    PhysicalDevice, WindowSystem, SEVERITY_ERROR, SEVERITY_INFO, SEVERITY_WARNING,
};
use kew::gpu::device::{KewDevice, KewQueueIndices, QueueFamily};
use kew::gpu::surface::{create_surface, SurfaceKind};
use kew::gpu::version::get_version;
use kew::gpu::vk::{
    MemoryRequirements, API_VERSION_1_3, MEMORY_DEVICE_LOCAL, MEMORY_HOST_COHERENT,
    MEMORY_HOST_VISIBLE, QUEUE_COMPUTE, QUEUE_GRAPHICS, QUEUE_TRANSFER,
};

fn family(queue_flags: u32, present_support: bool) -> QueueFamily {
    QueueFamily { queue_flags, present_support }
}

const ALL: u32 = QUEUE_GRAPHICS | QUEUE_COMPUTE | QUEUE_TRANSFER;

#[test]
fn one_family_serves_everything() {
    let picked = KewQueueIndices::new(&[family(ALL, true)]).unwrap();
    assert_eq!(
        picked,
        KewQueueIndices { gfx_idx: 0, cmp_idx: 0, tfr_idx: 0, prs_idx: Some(0) }
    );
    assert_eq!(picked.get_queue_create_infos(), vec![0]);
}

#[test]
fn async_compute_and_spare_transfer_are_preferred() {
    let families = [
        family(ALL, true),
        family(QUEUE_COMPUTE | QUEUE_TRANSFER, false),
        family(QUEUE_TRANSFER, false),
    ];
    let picked = KewQueueIndices::new(&families).unwrap();
    assert_eq!(
        picked,
        KewQueueIndices { gfx_idx: 0, cmp_idx: 1, tfr_idx: 2, prs_idx: Some(0) }
    );
    assert_eq!(picked.get_queue_create_infos(), vec![0, 1, 2]);
}

#[test]
fn the_family_taken_for_compute_is_no_spare_transfer() {
    let families = [family(ALL, false), family(QUEUE_COMPUTE | QUEUE_TRANSFER, true)];
    let picked = KewQueueIndices::new(&families).unwrap();
    assert_eq!(
        picked,
        KewQueueIndices { gfx_idx: 0, cmp_idx: 1, tfr_idx: 0, prs_idx: Some(1) }
    );
    assert_eq!(picked.get_queue_create_infos(), vec![0, 1, 0]);
}

#[test]
fn a_later_compute_family_is_a_spare_transfer() {
    let families = [
        family(ALL, false),
        family(QUEUE_COMPUTE | QUEUE_TRANSFER, false),
        family(QUEUE_COMPUTE | QUEUE_TRANSFER, false),
    ];
    let picked = KewQueueIndices::new(&families).unwrap();
    assert_eq!(picked, KewQueueIndices { gfx_idx: 0, cmp_idx: 1, tfr_idx: 2, prs_idx: None });
}

#[test]
fn graphics_with_transfer_but_no_compute_is_a_spare_transfer() {
    let families = [
        family(QUEUE_COMPUTE | QUEUE_GRAPHICS, false),
        family(QUEUE_GRAPHICS | QUEUE_TRANSFER, false),
    ];
    let picked = KewQueueIndices::new(&families).unwrap();
    assert_eq!(picked, KewQueueIndices { gfx_idx: 0, cmp_idx: 0, tfr_idx: 1, prs_idx: None });
    assert_eq!(picked.get_queue_create_infos(), vec![0, 1]);
}

#[test]
fn the_first_of_each_kind_is_taken() {
    let families = [
        family(QUEUE_TRANSFER | QUEUE_GRAPHICS | QUEUE_COMPUTE, false),
        family(QUEUE_GRAPHICS, true),
        family(ALL, true),
    ];
    let picked = KewQueueIndices::new(&families).unwrap();
    assert_eq!(
        picked,
        KewQueueIndices { gfx_idx: 0, cmp_idx: 0, tfr_idx: 0, prs_idx: Some(1) }
    );
}

#[test]
fn a_missing_purpose_leaves_no_choice() {
    assert_eq!(KewQueueIndices::new(&[]), None);
    assert_eq!(KewQueueIndices::new(&[family(QUEUE_GRAPHICS | QUEUE_COMPUTE, true)]), None);
    assert_eq!(KewQueueIndices::new(&[family(QUEUE_GRAPHICS | QUEUE_TRANSFER, true)]), None);
    assert_eq!(KewQueueIndices::new(&[family(QUEUE_COMPUTE | QUEUE_TRANSFER, true)]), None);
    assert_eq!(KewQueueIndices::new(&[family(0, true), family(8, true)]), None);
}

#[test]
fn other_capabilities_do_not_count() {
    let families = [family(8 | 16, false), family(ALL | 32, false)];
    let picked = KewQueueIndices::new(&families).unwrap();
    assert_eq!(picked, KewQueueIndices { gfx_idx: 1, cmp_idx: 1, tfr_idx: 1, prs_idx: None });
}

#[test]
fn device_is_described_by_its_families() {
    let picked = KewQueueIndices { gfx_idx: 2, cmp_idx: 2, tfr_idx: 4, prs_idx: Some(2) };
    let info = KewDevice::create_info(&picked);
    assert_eq!(info.queue_families, vec![2, 4]);
    assert!(info.swapchain_extension);
}

fn device(types: &[u32]) -> KewDevice {
    let mem_properties = types
        .iter()
        .map(|flags| MemoryType { property_flags: *flags, heap_index: 0 })
        .collect();
    KewDevice::new(KewContext::new(77, mem_properties), 78)
}

fn wants(memory_type_bits: u32) -> MemoryRequirements {
    MemoryRequirements { size: 64, alignment: 16, memory_type_bits }
}

#[test]
fn the_first_fitting_memory_type_is_found() {
    let visible = MEMORY_HOST_VISIBLE | MEMORY_HOST_COHERENT;
    let d = device(&[MEMORY_DEVICE_LOCAL, visible, visible | MEMORY_DEVICE_LOCAL]);
    assert_eq!(d.context.physical, 77);
    assert_eq!(d.vk_device, 78);
    assert_eq!(d.find_memory_type(&wants(0b111), visible), Some(1));
    assert_eq!(d.find_memory_type(&wants(0b100), visible), Some(2));
    assert_eq!(d.find_memory_type(&wants(0b111), MEMORY_DEVICE_LOCAL), Some(0));
    assert_eq!(d.find_memory_type(&wants(0b110), MEMORY_DEVICE_LOCAL), Some(2));
    assert_eq!(d.find_memory_type(&wants(0b111), 0), Some(0));
}

#[test]
fn no_fitting_memory_type_is_none() {
    let d = device(&[MEMORY_DEVICE_LOCAL, MEMORY_HOST_VISIBLE]);
    assert_eq!(d.find_memory_type(&wants(0), 0), None);
    assert_eq!(d.find_memory_type(&wants(0b01), MEMORY_HOST_VISIBLE), None);
    assert_eq!(d.find_memory_type(&wants(0b11), MEMORY_HOST_COHERENT), None);
    assert_eq!(
        d.find_memory_type(&wants(0b11), MEMORY_HOST_VISIBLE | MEMORY_DEVICE_LOCAL),
        None
    );
    assert_eq!(d.find_memory_type(&wants(0b100), 0), None);
    assert_eq!(device(&[]).find_memory_type(&wants(!0), 0), None);
}

#[test]
fn the_last_memory_type_can_be_found() {
    let mut types = vec![0u32; 32];
    types[31] = MEMORY_HOST_VISIBLE;
    let d = device(&types);
    assert_eq!(d.find_memory_type(&wants(!0), MEMORY_HOST_VISIBLE), Some(31));
    assert_eq!(d.find_memory_type(&wants(0x7fff_ffff), MEMORY_HOST_VISIBLE), None);
}

#[test]
fn a_discrete_device_is_preferred() {
    let devices = [
        PhysicalDevice { handle: 1, device_type: 1 },
        PhysicalDevice { handle: 2, device_type: 2 },
        PhysicalDevice { handle: 3, device_type: 2 },
    ];
    assert_eq!(KewContext::pick_physical_device(&devices), Some(devices[1]));
    assert_eq!(KewContext::pick_physical_device(&devices[..1]), Some(devices[0]));
    assert_eq!(
        KewContext::pick_physical_device(&[devices[0], PhysicalDevice { handle: 9, device_type: 4 }]),
        Some(devices[0])
    );
    assert_eq!(KewContext::pick_physical_device(&[]), None);
}

#[test]
fn extensions_follow_system_and_diagnostics() {
    assert_eq!(
        KewContext::get_extensions(WindowSystem::Wayland, Diagnostics::Validation),
        vec![
            InstanceExtension::Surface,
            InstanceExtension::WaylandSurface,
            InstanceExtension::DebugUtils
        ]
    );
    assert_eq!(
        KewContext::get_extensions(WindowSystem::Win32, Diagnostics::Off),
        vec![InstanceExtension::Surface, InstanceExtension::Win32Surface]
    );
    assert_eq!(
        KewContext::get_extensions(WindowSystem::Other, Diagnostics::ValidationAndPerformance),
        vec![InstanceExtension::Surface, InstanceExtension::DebugUtils]
    );
}

#[test]
fn instance_is_described() {
    let info =
        KewContext::create_instance(b"0.1.0", WindowSystem::Wayland, Diagnostics::Off).unwrap();
    assert_eq!(info.api_version, API_VERSION_1_3);
    assert_eq!(info.name, "kew");
    assert_eq!(info.version, 4096);
    assert!(!info.validation_layer);
    assert_eq!(
        info.extensions,
        vec![InstanceExtension::Surface, InstanceExtension::WaylandSurface]
    );
    let loud =
        KewContext::create_instance(b"1.2.3", WindowSystem::Win32, Diagnostics::Validation).unwrap();
    assert!(loud.validation_layer);
    assert!(KewContext::create_instance(b"1.2", WindowSystem::Win32, Diagnostics::Off).is_none());
}

#[test]
fn messenger_follows_diagnostics() {
    assert_eq!(KewContext::create_debug_utils(Diagnostics::Off), None);
    let some = KewContext::create_debug_utils(Diagnostics::Validation).unwrap();
    assert_eq!(some.message_severity, 0x1100);
    assert_eq!(some.message_type, 0x3);
    let all = KewContext::create_debug_utils(Diagnostics::ValidationAndPerformance).unwrap();
    assert_eq!(all.message_severity, 0x1100);
    assert_eq!(all.message_type, 0x7);
}

#[test]
fn debug_messages_are_logged_by_severity() {
    assert_eq!(vulkan_debug_callback(SEVERITY_ERROR).level, Some(LogLevel::Error));
    assert_eq!(vulkan_debug_callback(SEVERITY_WARNING).level, Some(LogLevel::Warn));
    assert_eq!(vulkan_debug_callback(SEVERITY_INFO).level, Some(LogLevel::Info));
    assert_eq!(vulkan_debug_callback(1).level, None);
    assert_eq!(vulkan_debug_callback(SEVERITY_ERROR | SEVERITY_WARNING).level, None);
    assert!(!vulkan_debug_callback(SEVERITY_ERROR).skip_call);
    assert!(!vulkan_debug_callback(0).skip_call);
}

#[test]
fn versions_are_packed() {
    assert_eq!(get_version(b"0.1.0"), Some(1 << 12));
    assert_eq!(get_version(b"1.3.0"), Some(API_VERSION_1_3));
    assert_eq!(get_version(b"1.2.3"), Some((1 << 22) | (2 << 12) | 3));
    assert_eq!(get_version(b"1.2.3"), Some(ash::vk::make_api_version(0, 1, 2, 3)));
    assert_eq!(get_version(b"12.345.678"), Some(ash::vk::make_api_version(0, 12, 345, 678)));
    assert_eq!(get_version(b"+1.+2.+3"), Some(ash::vk::make_api_version(0, 1, 2, 3)));
    assert_eq!(get_version(b"1.2.3.4"), Some(ash::vk::make_api_version(0, 1, 2, 3)));
    assert_eq!(get_version(b"1.2.3.x"), Some(ash::vk::make_api_version(0, 1, 2, 3)));
    assert_eq!(get_version(b"007.08.09"), Some(ash::vk::make_api_version(0, 7, 8, 9)));
    assert_eq!(
        get_version(b"4294967295.0.0"),
        Some(ash::vk::make_api_version(0, u32::MAX, 0, 0))
    );
    assert_eq!(get_version(b"0.0.4294967295"), Some(u32::MAX));
}

#[test]
fn malformed_versions_are_refused() {
    for text in [
        &b""[..],
        b"1",
        b"1.2",
        b"1.2.",
        b".2.3",
        b"1..3",
        b"1.2.3-alpha",
        b"a.b.c",
        b"1.2.-3",
        b"1.2.+",
        b"1.2.++3",
        b" 1.2.3",
        b"1.2.3 ",
        b"4294967296.0.0",
        b"0.99999999999.0",
        b"1,2,3",
    ] {
        assert_eq!(get_version(text), None, "{:?}", text);
    }
}

#[test]
fn surfaces_need_a_matching_pair() {
    assert_eq!(create_surface(WindowSystem::Win32, WindowSystem::Win32), Some(SurfaceKind::Win32));
    assert_eq!(
        create_surface(WindowSystem::Wayland, WindowSystem::Wayland),
        Some(SurfaceKind::Wayland)
    );
    assert_eq!(create_surface(WindowSystem::Win32, WindowSystem::Wayland), None);
    assert_eq!(create_surface(WindowSystem::Wayland, WindowSystem::Win32), None);
    assert_eq!(create_surface(WindowSystem::Other, WindowSystem::Other), None);
    assert_eq!(create_surface(WindowSystem::Other, WindowSystem::Win32), None);
}

#[test]
fn arenas_need_a_memory_type_of_the_device() {
    let d = device(&[MEMORY_DEVICE_LOCAL, MEMORY_HOST_VISIBLE]);
    let info = d.allocate_info(64, 1).unwrap();
    assert_eq!((info.allocation_size, info.memory_type_index), (64, 1));
    assert!(d.allocate_info(64, 0).is_some());
    assert_eq!(d.allocate_info(64, 2), None);
    assert_eq!(d.allocate_info(0, u32::MAX), None);
    assert_eq!(device(&[]).allocate_info(64, 0), None);
}
