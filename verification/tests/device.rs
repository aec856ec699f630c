use learning_vulkan::vk::{
    DeviceCreateInfo, DeviceQueueCreateInfo, PhysicalDeviceFeatures, PhysicalDeviceProperties,
    QueueFamily,
};
use learning_vulkan::vulkan::vulkan_device::{
    get_device_extensions, DeviceInfo, PhysicalDeviceReport, QueueFamilyIndicies,
    VulkanLogicalDevice, VulkanPhysicalDevice,
};

fn names(list: &[&str]) -> Vec<String> {
    list.iter().map(|name| name.to_string()).collect()
}

fn family(queue_flags: u32, present_support: bool) -> QueueFamily {
    QueueFamily { queue_flags, present_support }
}

fn report(device_type: i32, max_image_dimension2_d: u32) -> PhysicalDeviceReport {
    PhysicalDeviceReport {
        properties: PhysicalDeviceProperties {
            api_version: ash::vk::make_api_version(0, 1, 3, 281),
            device_type,
            device_name: Some(format!("GPU {device_type} {max_image_dimension2_d}")),
            max_image_dimension2_d,
        },
        features: PhysicalDeviceFeatures { geometry_shader: 1 },
        extension_properties: names(&["VK_KHR_maintenance1", "VK_KHR_swapchain"]),
        queue_families: vec![family(0b111, true), family(0b100, false)],
    }
}

#[test]
fn get_all_takes_the_last_matching_family() {
    let indicies =
        QueueFamilyIndicies::get_all(&vec![family(1, true), family(3, false), family(4, true)]);
    assert_eq!(indicies.graphics_index, Some(1));
    assert_eq!(indicies.present_queue, Some(2));
    let indicies = QueueFamilyIndicies::get_all(&vec![family(2, false)]);
    assert_eq!(indicies, QueueFamilyIndicies::default());
    assert_eq!(QueueFamilyIndicies::get_all(&Vec::new()), QueueFamilyIndicies::default());
}

#[test]
fn device_has_all_needs_both() {
    assert!(QueueFamilyIndicies { graphics_index: Some(0), present_queue: Some(1) }.has_all());
    assert!(!QueueFamilyIndicies { graphics_index: Some(0), present_queue: None }.has_all());
    assert!(!QueueFamilyIndicies { graphics_index: None, present_queue: Some(1) }.has_all());
    assert!(!QueueFamilyIndicies { graphics_index: None, present_queue: None }.has_all());
}

#[test]
fn queue_create_infos_for_the_known_families() {
    let info = |queue_family_index, queue_count| DeviceQueueCreateInfo { queue_family_index, queue_count };
    let both = QueueFamilyIndicies { graphics_index: Some(3), present_queue: Some(1) };
    assert_eq!(both.get_queue_create_infos(1), vec![info(3, 1), info(1, 1)]);
    assert_eq!(both.get_queue_create_infos(4), vec![info(3, 4), info(1, 4)]);
    let same = QueueFamilyIndicies { graphics_index: Some(0), present_queue: Some(0) };
    assert_eq!(same.get_queue_create_infos(1), vec![info(0, 1), info(0, 1)]);
    let graphics = QueueFamilyIndicies { graphics_index: Some(7), present_queue: None };
    assert_eq!(graphics.get_queue_create_infos(2), vec![info(7, 2)]);
    let present = QueueFamilyIndicies { graphics_index: None, present_queue: Some(5) };
    assert_eq!(present.get_queue_create_infos(0), vec![info(5, 0)]);
    assert_eq!(QueueFamilyIndicies::default().get_queue_create_infos(1), Vec::new());
}

#[test]
fn device_extensions_are_the_swapchain() {
    assert_eq!(get_device_extensions(), names(&["VK_KHR_swapchain"]));
    assert_eq!(get_device_extensions()[0].as_bytes(), ash::khr::swapchain::NAME.to_bytes());
}

#[test]
fn extension_support_needs_every_required_name() {
    let check = VulkanPhysicalDevice::check_device_extension_support;
    assert!(check(&names(&["VK_KHR_swapchain"])));
    assert!(check(&names(&["VK_KHR_maintenance1", "VK_KHR_swapchain", "VK_KHR_swapchain"])));
    assert!(!check(&names(&["VK_KHR_maintenance1"])));
    assert!(!check(&names(&[])));
}

#[test]
fn suitable_needs_shader_queues_and_extensions() {
    let good = report(2, 4096);
    assert!(VulkanPhysicalDevice::is_suitable(&good));
    // integrated GPUs suit as well
    assert!(VulkanPhysicalDevice::is_suitable(&report(1, 4096)));
    let mut no_shader = good.clone();
    no_shader.features.geometry_shader = 0;
    assert!(!VulkanPhysicalDevice::is_suitable(&no_shader));
    let mut no_present = good.clone();
    no_present.queue_families = vec![family(1, false)];
    assert!(!VulkanPhysicalDevice::is_suitable(&no_present));
    let mut no_graphics = good.clone();
    no_graphics.queue_families = vec![family(2, true)];
    assert!(!VulkanPhysicalDevice::is_suitable(&no_graphics));
    let mut no_swapchain = good.clone();
    no_swapchain.extension_properties = names(&["VK_KHR_maintenance1"]);
    assert!(!VulkanPhysicalDevice::is_suitable(&no_swapchain));
}

#[test]
fn rating_is_image_dimension_plus_discrete_bonus() {
    assert_eq!(VulkanPhysicalDevice::rate_device(&report(2, 16384)), 17384);
    assert_eq!(VulkanPhysicalDevice::rate_device(&report(1, 16384)), 16384);
    assert_eq!(VulkanPhysicalDevice::rate_device(&report(2, 0)), 1000);
    assert_eq!(VulkanPhysicalDevice::rate_device(&report(0, 0)), 0);
    assert_eq!(VulkanPhysicalDevice::rate_device(&report(2, u32::MAX - 1000)), u32::MAX);
    assert_eq!(VulkanPhysicalDevice::rate_device(&report(1, u32::MAX)), u32::MAX);
    let mut unsuitable = report(2, 16384);
    unsuitable.features.geometry_shader = 0;
    assert_eq!(VulkanPhysicalDevice::rate_device(&unsuitable), 0);
}

#[test]
fn select_takes_the_highest_rating() {
    let devices = vec![report(1, 16384), report(2, 16384), report(2, 8192)];
    let selected = VulkanPhysicalDevice::select(&devices).unwrap();
    assert_eq!(selected.physical_device, 1);
    assert_eq!(selected.properties, devices[1].properties);
    assert_eq!(selected.features, devices[1].features);
    assert_eq!(
        selected.queue_family_indicies,
        QueueFamilyIndicies { graphics_index: Some(0), present_queue: Some(0) }
    );
}

#[test]
fn a_discrete_gpu_is_rated_a_thousand_higher() {
    for dimension in [0, 1, 4096, 65536] {
        assert_eq!(
            VulkanPhysicalDevice::rate_device(&report(2, dimension)),
            VulkanPhysicalDevice::rate_device(&report(4, dimension)) + 1000
        );
    }
}

#[test]
fn select_takes_the_first_of_equals() {
    let devices = vec![report(1, 4096), report(2, 8192), report(1, 9192), report(2, 8192)];
    assert_eq!(VulkanPhysicalDevice::select(&devices).unwrap().physical_device, 1);
}

#[test]
fn select_passes_over_unsuitable_devices() {
    let mut strong = report(2, 32768);
    strong.extension_properties = Vec::new();
    let devices = vec![strong, report(1, 1024)];
    assert_eq!(VulkanPhysicalDevice::select(&devices).unwrap().physical_device, 1);
}

#[test]
fn select_finds_nothing_without_a_positive_rating() {
    assert_eq!(VulkanPhysicalDevice::select(&Vec::new()), None);
    let mut weak = report(2, 32768);
    weak.features.geometry_shader = 0;
    assert_eq!(VulkanPhysicalDevice::select(&vec![weak.clone(), weak]), None);
    // suitable, but rated zero
    assert_eq!(VulkanPhysicalDevice::select(&vec![report(1, 0)]), None);
}

#[test]
fn device_info_decodes_the_version() {
    let selected = VulkanPhysicalDevice::select(&vec![report(2, 16384)]).unwrap();
    assert_eq!(
        selected.get_device_info(),
        DeviceInfo { device_name: "GPU 2 16384".to_string(), major: 1, minor: 3, patch: 281 }
    );
}

#[test]
fn device_info_without_a_name() {
    let device = VulkanPhysicalDevice {
        physical_device: 0,
        properties: PhysicalDeviceProperties {
            api_version: 0xffff_ffff,
            device_type: 2,
            device_name: None,
            max_image_dimension2_d: 1,
        },
        features: PhysicalDeviceFeatures { geometry_shader: 1 },
        queue_family_indicies: QueueFamilyIndicies::default(),
    };
    assert_eq!(
        device.get_device_info(),
        DeviceInfo { device_name: "Unknown".to_string(), major: 127, minor: 1023, patch: 4095 }
    );
}

fn chosen(graphics: u32, present: u32) -> VulkanPhysicalDevice {
    VulkanPhysicalDevice {
        physical_device: 0,
        properties: report(2, 1).properties,
        features: PhysicalDeviceFeatures { geometry_shader: 1 },
        queue_family_indicies: QueueFamilyIndicies {
            graphics_index: Some(graphics),
            present_queue: Some(present),
        },
    }
}

#[test]
fn logical_device_with_required_extensions() {
    let device = VulkanLogicalDevice::create(&chosen(1, 2));
    assert_eq!(
        device,
        VulkanLogicalDevice {
            logical_device: DeviceCreateInfo {
                queue_create_infos: vec![
                    DeviceQueueCreateInfo { queue_family_index: 1, queue_count: 1 },
                    DeviceQueueCreateInfo { queue_family_index: 2, queue_count: 1 },
                ],
                enabled_extension_names: names(&["VK_KHR_swapchain"]),
                enable_supported_features: true,
            },
            graphics_queue: 1,
            present_queue: 2,
        }
    );
}

#[test]
fn logical_device_with_other_extensions() {
    let wanted = names(&["VK_KHR_portability_subset", "VK_KHR_maintenance1"]);
    let device = VulkanLogicalDevice::create_compatability(&chosen(0, 0), &wanted);
    assert_eq!(device.logical_device.enabled_extension_names, wanted);
    assert_eq!(device.logical_device.queue_create_infos.len(), 2);
    assert_eq!((device.graphics_queue, device.present_queue), (0, 0));
    let device = VulkanLogicalDevice::create_compatability(&chosen(0, 0), &Vec::new());
    assert_eq!(device, VulkanLogicalDevice::create(&chosen(0, 0)));
}
