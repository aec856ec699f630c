use learning_vulkan::vk::{Extent2D, SurfaceCapabilitiesKHR, SurfaceFormatKHR};
use learning_vulkan::vulkan::vulkan_device::QueueFamilyIndicies;
use learning_vulkan::vulkan::vulkan_swapchain::{clamp, SwapchainSupportDetails, VulkanSwapchain};

fn extent(width: u32, height: u32) -> Extent2D {
    Extent2D { width, height }
}

fn capabilities(current: Extent2D) -> SurfaceCapabilitiesKHR {
    SurfaceCapabilitiesKHR {
        min_image_count: 2,
        max_image_count: 3,
        current_extent: current,
        min_image_extent: extent(100, 50),
        max_image_extent: extent(2000, 1000),
        current_transform: 4,
    }
}

fn srgb() -> SurfaceFormatKHR {
    SurfaceFormatKHR { format: 50, color_space: 0 }
}

fn unorm() -> SurfaceFormatKHR {
    SurfaceFormatKHR { format: 44, color_space: 0 }
}

fn details(
    current: Extent2D,
    formats: Vec<SurfaceFormatKHR>,
    present_modes: Vec<i32>,
) -> SwapchainSupportDetails {
    SwapchainSupportDetails::create(capabilities(current), formats, present_modes)
}

#[test]
fn clamp_moves_into_the_range() {
    assert_eq!(clamp(5, 10, 20), 10);
    assert_eq!(clamp(10, 10, 20), 10);
    assert_eq!(clamp(15, 10, 20), 15);
    assert_eq!(clamp(20, 10, 20), 20);
    assert_eq!(clamp(25, 10, 20), 20);
    assert_eq!(clamp(7, 3, 3), 3);
    assert_eq!(clamp(0, 0, u32::MAX), 0);
    assert_eq!(clamp(u32::MAX, 0, u32::MAX), u32::MAX);
    for (value, min, max) in [(5u32, 10u32, 20u32), (15, 10, 20), (25, 10, 20), (3, 3, 3)] {
        assert_eq!(clamp(value, min, max), value.clamp(min, max));
    }
}

#[test]
fn create_keeps_what_it_is_given() {
    let d = details(extent(800, 600), vec![unorm()], vec![3, 2]);
    assert_eq!(d.capabilities, capabilities(extent(800, 600)));
    assert_eq!(d.formats, vec![unorm()]);
    assert_eq!(d.present_modes, vec![3, 2]);
}

#[test]
fn surface_format_prefers_srgb() {
    assert_eq!(details(extent(1, 1), vec![unorm(), srgb()], vec![2]).choose_surface_format(), srgb());
    assert_eq!(details(extent(1, 1), vec![unorm()], vec![2]).choose_surface_format(), unorm());
    let linear = SurfaceFormatKHR { format: 50, color_space: 1_000_104_002 };
    assert_eq!(
        details(extent(1, 1), vec![linear, unorm()], vec![2]).choose_surface_format(),
        linear
    );
}

#[test]
fn present_mode_prefers_mailbox() {
    assert_eq!(details(extent(1, 1), vec![srgb()], vec![2, 1]).choose_present_mode(), 1);
    assert_eq!(details(extent(1, 1), vec![srgb()], vec![0, 2]).choose_present_mode(), 0);
    assert_eq!(details(extent(1, 1), vec![srgb()], vec![3]).choose_present_mode(), 3);
}

#[test]
fn extent_of_the_surface_is_kept_unclamped() {
    let d = details(extent(5000, 7), vec![srgb()], vec![2]);
    assert_eq!(d.choose_extent(640, 480), extent(5000, 7));
}

#[test]
fn open_extent_is_the_window_within_limits() {
    let d = details(extent(u32::MAX, u32::MAX), vec![srgb()], vec![2]);
    assert_eq!(d.choose_extent(640, 480), extent(640, 480));
    assert_eq!(d.choose_extent(10, 10), extent(100, 50));
    assert_eq!(d.choose_extent(4000, 4000), extent(2000, 1000));
    assert_eq!(d.choose_extent(0, 1000), extent(100, 1000));
    assert_eq!(d.choose_extent(2000, 49), extent(2000, 50));
}

fn indicies(graphics: u32, present: u32) -> QueueFamilyIndicies {
    QueueFamilyIndicies { graphics_index: Some(graphics), present_queue: Some(present) }
}

#[test]
fn first_swapchain() {
    let d = details(extent(u32::MAX, 0), vec![unorm(), srgb()], vec![2, 1]);
    let swapchain = VulkanSwapchain::create(d.clone(), &indicies(0, 0), 3000, 20, None);
    assert_eq!(swapchain.support_details, d);
    assert_eq!(swapchain.image_format, srgb());
    assert_eq!(swapchain.extent, extent(2000, 50));
    let info = &swapchain.create_info;
    assert_eq!(info.min_image_count, 3);
    assert_eq!(info.image_format, 50);
    assert_eq!(info.image_color_space, 0);
    assert_eq!(info.image_extent, extent(2000, 50));
    assert_eq!(info.image_array_layers, 1);
    assert_eq!(info.image_usage, 0x10);
    assert_eq!(info.image_sharing_mode, 0);
    assert_eq!(info.queue_family_indices, Vec::<u32>::new());
    assert_eq!(info.pre_transform, 4);
    assert_eq!(info.composite_alpha, 1);
    assert_eq!(info.present_mode, 1);
    assert!(info.clipped);
    assert_eq!(info.old_swapchain, 0);
}

#[test]
fn swapchain_that_replaces_another() {
    let d = details(extent(800, 600), vec![unorm()], vec![0]);
    let swapchain = VulkanSwapchain::create(d, &indicies(1, 0), 1, 1, Some(0xdead_beef_0000_0001));
    let info = &swapchain.create_info;
    assert_eq!(info.old_swapchain, 0xdead_beef_0000_0001);
    assert_eq!(info.image_sharing_mode, 1);
    assert_eq!(info.queue_family_indices, vec![1, 0]);
    assert_eq!(info.present_mode, 0);
    assert_eq!(info.image_format, 44);
    assert_eq!(swapchain.extent, extent(800, 600));
}
