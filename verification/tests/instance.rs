use learning_vulkan::vk::DebugUtilsMessengerCreateInfoEXT;
use learning_vulkan::vulkan::resources::Resource;
use learning_vulkan::vulkan::vulkan_instance::{DebugUtilsExtension, Platform, VulkanInstance};
use learning_vulkan::vulkan::VulkanManager;

fn names(list: &[&str]) -> Vec<String> {
    list.iter().map(|name| name.to_string()).collect()
}

#[test]
fn manager_instance_in_a_release_build() {
    let info = VulkanManager::create_instance(names(&["VK_KHR_surface", "VK_KHR_xcb_surface"]), false, false);
    assert_eq!(info.application_name, "Learning Vulkan");
    assert_eq!(info.application_version, 0);
    assert_eq!(info.engine_name, "Learning Vulkan");
    assert_eq!(info.engine_version, 0);
    assert_eq!(info.api_version, 0x0040_0000);
    assert_eq!(info.flags, 0);
    assert_eq!(info.enabled_layer_names, Vec::<String>::new());
    assert_eq!(info.enabled_extension_names, names(&["VK_KHR_surface", "VK_KHR_xcb_surface"]));
}

#[test]
fn manager_instance_in_a_debugging_build() {
    let info = VulkanManager::create_instance(names(&["VK_KHR_surface"]), true, false);
    assert_eq!(info.enabled_layer_names, names(&["VK_LAYER_KHRONOS_validation"]));
    assert_eq!(info.enabled_extension_names, names(&["VK_KHR_surface", "VK_EXT_debug_utils"]));
    assert_eq!(info.flags, 0);
}

#[test]
fn manager_instance_on_a_portability_driver() {
    let info = VulkanManager::create_instance(names(&["VK_KHR_surface"]), true, true);
    assert_eq!(
        info.enabled_extension_names,
        names(&[
            "VK_KHR_surface",
            "VK_EXT_debug_utils",
            "VK_KHR_portability_enumeration",
            "VK_KHR_get_physical_device_properties2",
        ])
    );
    assert_eq!(info.flags, 1);
    let info = VulkanManager::create_instance(Vec::new(), false, true);
    assert_eq!(
        info.enabled_extension_names,
        names(&["VK_KHR_portability_enumeration", "VK_KHR_get_physical_device_properties2"])
    );
    assert_eq!(info.enabled_layer_names, Vec::<String>::new());
}

#[test]
fn extension_names_are_those_of_ash() {
    let info = VulkanManager::create_instance(Vec::new(), true, true);
    let bytes: Vec<&[u8]> = info.enabled_extension_names.iter().map(|n| n.as_bytes()).collect();
    assert_eq!(
        bytes,
        vec![
            ash::ext::debug_utils::NAME.to_bytes(),
            ash::khr::portability_enumeration::NAME.to_bytes(),
            ash::khr::get_physical_device_properties2::NAME.to_bytes(),
        ]
    );
}

#[test]
fn debug_messenger_settings() {
    let info = VulkanManager::initialize_debug_utils();
    assert_eq!(info.message_severity, 0x1110);
    assert_eq!(info.message_type, 0x7);
    assert_eq!(
        DebugUtilsExtension::create(true),
        Some(DebugUtilsExtension {
            callback: DebugUtilsMessengerCreateInfoEXT { message_severity: 0x1110, message_type: 7 }
        })
    );
    assert_eq!(DebugUtilsExtension::create(false), None);
}

#[test]
fn instance_with_required_extensions() {
    let instance =
        VulkanInstance::create(Some(names(&["VK_KHR_surface", "VK_KHR_wayland_surface"])), Platform::Linux, false);
    let info = &instance.vulkan_instance;
    assert_eq!(info.application_name, "Learning Vulkan");
    assert_eq!(info.application_version, 0);
    assert_eq!(info.engine_name, "None");
    assert_eq!(info.engine_version, 0);
    assert_eq!(info.api_version, 0x0040_0000);
    assert_eq!(info.flags, 0);
    assert_eq!(info.enabled_layer_names, Vec::<String>::new());
    assert_eq!(info.enabled_extension_names, names(&["VK_KHR_surface", "VK_KHR_wayland_surface"]));
    assert_eq!(instance.debug_utils_extension, None);
}

#[test]
fn instance_falls_back_on_the_platform_surface() {
    let fallback = |platform| {
        VulkanInstance::create(None, platform, false).vulkan_instance.enabled_extension_names
    };
    assert_eq!(fallback(Platform::Windows), names(&["VK_KHR_surface", "VK_KHR_win32_surface"]));
    assert_eq!(fallback(Platform::Linux), names(&["VK_KHR_surface", "VK_KHR_xcb_surface"]));
    assert_eq!(fallback(Platform::Other), names(&["VK_KHR_surface"]));
    assert_eq!(
        fallback(Platform::MacOs),
        names(&[
            "VK_KHR_surface",
            "VK_MVK_macos_surface",
            "VK_KHR_portability_enumeration",
            "VK_KHR_get_display_properties2",
        ])
    );
    assert_eq!(
        fallback(Platform::Ios),
        names(&["VK_KHR_surface", "VK_KHR_portability_enumeration", "VK_KHR_get_display_properties2"])
    );
}

#[test]
fn fallback_names_are_those_of_ash() {
    let of = |platform| VulkanInstance::fallback_extensions(platform);
    assert_eq!(of(Platform::Other)[0].as_bytes(), ash::khr::surface::NAME.to_bytes());
    assert_eq!(of(Platform::Windows)[1].as_bytes(), ash::khr::win32_surface::NAME.to_bytes());
    assert_eq!(of(Platform::MacOs)[1].as_bytes(), ash::mvk::macos_surface::NAME.to_bytes());
    assert_eq!(of(Platform::Linux)[1].as_bytes(), ash::khr::xcb_surface::NAME.to_bytes());
    let compat = VulkanInstance::get_applicable_compatability_extensions(Platform::MacOs);
    assert_eq!(compat[0].as_bytes(), ash::khr::portability_enumeration::NAME.to_bytes());
    assert_eq!(compat[1].as_bytes(), ash::khr::get_display_properties2::NAME.to_bytes());
}

#[test]
fn instance_in_a_debugging_build() {
    let instance = VulkanInstance::create(Some(names(&["VK_KHR_surface"])), Platform::MacOs, true);
    let info = &instance.vulkan_instance;
    assert_eq!(info.flags, 1);
    assert_eq!(info.enabled_layer_names, names(&["VK_LAYER_KHRONOS_validation"]));
    assert_eq!(
        info.enabled_extension_names,
        names(&[
            "VK_KHR_surface",
            "VK_EXT_debug_utils",
            "VK_KHR_portability_enumeration",
            "VK_KHR_get_display_properties2",
        ])
    );
    assert_eq!(instance.debug_utils_extension, DebugUtilsExtension::create(true));
}

#[test]
fn compatability_extensions_by_platform() {
    let of = |platform| VulkanInstance::get_applicable_compatability_extensions(platform);
    let portability = names(&["VK_KHR_portability_enumeration", "VK_KHR_get_display_properties2"]);
    assert_eq!(of(Platform::MacOs), portability);
    assert_eq!(of(Platform::Ios), portability);
    assert_eq!(of(Platform::Windows), Vec::<String>::new());
    assert_eq!(of(Platform::Linux), Vec::<String>::new());
    assert_eq!(of(Platform::Other), Vec::<String>::new());
}

#[test]
fn instance_teardown_reverses_creation() {
    let release = VulkanInstance::create(None, Platform::Linux, false);
    assert_eq!(
        release.teardown_order(),
        vec![
            Resource::LogicalDevice,
            Resource::PhysicalDevice,
            Resource::Surface,
            Resource::Instance,
        ]
    );
    let debugging = VulkanInstance::create(None, Platform::Linux, true);
    assert_eq!(
        debugging.teardown_order(),
        vec![
            Resource::LogicalDevice,
            Resource::PhysicalDevice,
            Resource::Surface,
            Resource::DebugMessenger,
            Resource::Instance,
        ]
    );
}
