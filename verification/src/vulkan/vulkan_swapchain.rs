//! The swapchain to create on a surface, from what the device supports there
//! and the size of the window.

use vstd::prelude::*;
use crate::vk::{
    color_space_srgb_nonlinear, composite_alpha_opaque, format_b8g8r8a8_srgb,
    image_usage_color_attachment, present_mode_mailbox, sharing_mode_concurrent,
    sharing_mode_exclusive, Extent2D, SurfaceCapabilitiesKHR, SurfaceFormatKHR,
    SwapchainCreateInfoKHR, COLOR_SPACE_SRGB_NONLINEAR, COMPOSITE_ALPHA_OPAQUE,
    FORMAT_B8G8R8A8_SRGB, IMAGE_USAGE_COLOR_ATTACHMENT, PRESENT_MODE_MAILBOX,
    SHARING_MODE_CONCURRENT, SHARING_MODE_EXCLUSIVE,
};
use crate::vulkan::vulkan_device::QueueFamilyIndicies;
use crate::vulkan::{preferred_surface_format, spec_image_count};

verus! {

/// `value`, moved into the range from `min` to `max` where it lies outside.
pub open spec fn spec_clamp(value: u32, min: u32, max: u32) -> u32 {
    if value < min {
        min
    } else if value > max {
        max
    } else {
        value
    }
}

/// `value`, moved into the range from `min` to `max` where it lies outside.
pub fn clamp(value: u32, min: u32, max: u32) -> (clamped: u32)
    requires
        min <= max,
    ensures
        clamped == spec_clamp(value, min, max),
        min <= clamped <= max,
{
    if value < min {
        min
    } else if value > max {
        max
    } else {
        value
    }
}

/// What a physical device supports for swapchains on the renderer's surface.
#[derive(Clone, Debug, PartialEq, Eq)]
pub struct SwapchainSupportDetails {
    pub capabilities: SurfaceCapabilitiesKHR,
    pub formats: Vec<SurfaceFormatKHR>,
    /// Raw present modes.
    pub present_modes: Vec<i32>,
}

impl SwapchainSupportDetails {
    /// The preferred format where the device offers it, else the first
    /// format the device lists.
    pub open spec fn spec_surface_format(self) -> SurfaceFormatKHR {
        if self.formats@.contains(preferred_surface_format()) {
            preferred_surface_format()
        } else {
            self.formats@[0]
        }
    }

    /// Mailbox where the device offers it, else the first present mode the
    /// device lists.
    pub open spec fn spec_present_mode(self) -> i32 {
        if self.present_modes@.contains(PRESENT_MODE_MAILBOX) {
            PRESENT_MODE_MAILBOX
        } else {
            self.present_modes@[0]
        }
    }

    /// The surface leaves the choice of the extent to the swapchain.
    pub open spec fn extent_is_open(self) -> bool {
        self.capabilities.current_extent.width == u32::MAX
    }

    /// The limits that the surface puts on an extent are in order.
    pub open spec fn limits_in_order(self) -> bool {
        &&& self.capabilities.min_image_extent.width <= self.capabilities.max_image_extent.width
        &&& self.capabilities.min_image_extent.height
            <= self.capabilities.max_image_extent.height
    }

    /// The surface's own extent, unless the surface leaves the choice open:
    /// then the window's size, each side moved into the limits of the
    /// surface.
    pub open spec fn spec_extent(self, window_width: u32, window_height: u32) -> Extent2D {
        if !self.extent_is_open() {
            self.capabilities.current_extent
        } else {
            Extent2D {
                width: spec_clamp(
                    window_width,
                    self.capabilities.min_image_extent.width,
                    self.capabilities.max_image_extent.width,
                ),
                height: spec_clamp(
                    window_height,
                    self.capabilities.min_image_extent.height,
                    self.capabilities.max_image_extent.height,
                ),
            }
        }
    }

    /// The support details made of what the driver reports.
    pub fn create(
        capabilities: SurfaceCapabilitiesKHR,
        formats: Vec<SurfaceFormatKHR>,
        present_modes: Vec<i32>,
    ) -> (details: Self)
        ensures
            details.capabilities == capabilities,
            details.formats == formats,
            details.present_modes == present_modes,
    {
        SwapchainSupportDetails { capabilities, formats, present_modes }
    }

    /// The surface format of the swapchain. The device offers at least one.
    pub fn choose_surface_format(&self) -> (chosen: SurfaceFormatKHR)
        requires
            self.formats@.len() > 0,
        ensures
            chosen == self.spec_surface_format(),
    {
        let wanted_format: i32 = format_b8g8r8a8_srgb();
        let wanted_color_space: i32 = color_space_srgb_nonlinear();
        let mut i: usize = 0;
        while i < self.formats.len()
            invariant
                i <= self.formats.len(),
                wanted_format == FORMAT_B8G8R8A8_SRGB,
                wanted_color_space == COLOR_SPACE_SRGB_NONLINEAR,
                forall|j: int| 0 <= j < i ==> self.formats@[j] != preferred_surface_format(),
            decreases self.formats.len() - i,
        {
            let available_format = self.formats[i];
            if available_format.format == wanted_format && available_format.color_space
                == wanted_color_space {
                assert(self.formats@[i as int] == preferred_surface_format());
                return available_format;
            }
            i += 1;
        }
        self.formats[0]
    }

    /// The present mode of the swapchain. The device offers at least one.
    pub fn choose_present_mode(&self) -> (chosen: i32)
        requires
            self.present_modes@.len() > 0,
        ensures
            chosen == self.spec_present_mode(),
    {
        let mailbox: i32 = present_mode_mailbox();
        let mut i: usize = 0;
        while i < self.present_modes.len()
            invariant
                i <= self.present_modes.len(),
                mailbox == PRESENT_MODE_MAILBOX,
                forall|j: int| 0 <= j < i ==> self.present_modes@[j] != PRESENT_MODE_MAILBOX,
            decreases self.present_modes.len() - i,
        {
            if self.present_modes[i] == mailbox {
                assert(self.present_modes@[i as int] == PRESENT_MODE_MAILBOX);
                return mailbox;
            }
            i += 1;
        }
        self.present_modes[0]
    }

    /// The extent of the swapchain's images for a window of the given size.
    /// Where the surface leaves the choice open, its limits are in order.
    pub fn choose_extent(&self, window_width: u32, window_height: u32) -> (chosen: Extent2D)
        requires
            self.extent_is_open() ==> self.limits_in_order(),
        ensures
            chosen == self.spec_extent(window_width, window_height),
    {
        if self.capabilities.current_extent.width != u32::MAX {
            return self.capabilities.current_extent;
        }
        let min_image = self.capabilities.min_image_extent;
        let max_image = self.capabilities.max_image_extent;
        Extent2D {
            width: clamp(window_width, min_image.width, max_image.width),
            height: clamp(window_height, min_image.height, max_image.height),
        }
    }
}

/// The surface format that is chosen is one that the device offers.
pub proof fn lemma_surface_format_is_offered(details: SwapchainSupportDetails)
    requires
        details.formats@.len() > 0,
    ensures
        details.formats@.contains(details.spec_surface_format()),
{
    if !details.formats@.contains(preferred_surface_format()) {
        assert(details.formats@[0] == details.spec_surface_format());
    }
}

/// The present mode that is chosen is one that the device offers.
pub proof fn lemma_present_mode_is_offered(details: SwapchainSupportDetails)
    requires
        details.present_modes@.len() > 0,
    ensures
        details.present_modes@.contains(details.spec_present_mode()),
{
    if !details.present_modes@.contains(PRESENT_MODE_MAILBOX) {
        assert(details.present_modes@[0] == details.spec_present_mode());
    }
}

/// An extent that the swapchain chooses for itself lies within the limits
/// of the surface, whatever the size of the window.
pub proof fn lemma_open_extent_in_limits(
    details: SwapchainSupportDetails,
    window_width: u32,
    window_height: u32,
)
    requires
        details.extent_is_open(),
        details.limits_in_order(),
    ensures
        ({
            let chosen = details.spec_extent(window_width, window_height);
            let min = details.capabilities.min_image_extent;
            let max = details.capabilities.max_image_extent;
            &&& min.width <= chosen.width <= max.width
            &&& min.height <= chosen.height <= max.height
        }),
{
}

/// The swapchain to create.
#[derive(Clone, Debug, PartialEq, Eq)]
pub struct VulkanSwapchain {
    pub create_info: SwapchainCreateInfoKHR,
    pub extent: Extent2D,
    pub image_format: SurfaceFormatKHR,
    pub support_details: SwapchainSupportDetails,
}

impl VulkanSwapchain {
    /// `self` is the swapchain that the renderer asks for on a surface with
    /// the given support, for a window of the given size, in place of the
    /// swapchain with the raw handle `previous_swapchain` where there is
    /// one.
    pub open spec fn describes(
        self,
        support_details: SwapchainSupportDetails,
        queue_family_indicies: QueueFamilyIndicies,
        window_width: u32,
        window_height: u32,
        previous_swapchain: Option<u64>,
    ) -> bool {
        let info = self.create_info;
        &&& self.support_details == support_details
        &&& self.image_format == support_details.spec_surface_format()
        &&& self.extent == support_details.spec_extent(window_width, window_height)
        &&& info.min_image_count == spec_image_count(support_details.capabilities)
        &&& info.image_format == self.image_format.format
        &&& info.image_color_space == self.image_format.color_space
        &&& info.image_extent == self.extent
        &&& info.image_array_layers == 1
        &&& info.image_usage == IMAGE_USAGE_COLOR_ATTACHMENT
        &&& info.pre_transform == support_details.capabilities.current_transform
        &&& info.composite_alpha == COMPOSITE_ALPHA_OPAQUE
        &&& info.present_mode == support_details.spec_present_mode()
        &&& info.clipped
        &&& info.old_swapchain == match previous_swapchain {
            Some(handle) => handle,
            None => 0,
        }
        &&& if queue_family_indicies.graphics_index->0 != queue_family_indicies.present_queue->0 {
            &&& info.image_sharing_mode == SHARING_MODE_CONCURRENT
            &&& info.queue_family_indices@ == seq![
                queue_family_indicies.graphics_index->0,
                queue_family_indicies.present_queue->0,
            ]
        } else {
            &&& info.image_sharing_mode == SHARING_MODE_EXCLUSIVE
            &&& info.queue_family_indices@ == Seq::<u32>::empty()
        }
    }

    /// Settings of the swapchain: format, present mode and extent as the
    /// support details choose them, one image more than the minimum where
    /// the surface allows it, images shared between the graphics and the
    /// present family only where these differ, and the previous swapchain
    /// handed over where there is one.
    pub fn create(
        support_details: SwapchainSupportDetails,
        queue_family_indicies: &QueueFamilyIndicies,
        window_width: u32,
        window_height: u32,
        previous_swapchain: Option<u64>,
    ) -> (swapchain: Self)
        requires
            support_details.formats@.len() > 0,
            support_details.present_modes@.len() > 0,
            support_details.capabilities.min_image_count < u32::MAX,
            support_details.extent_is_open() ==> support_details.limits_in_order(),
            queue_family_indicies.spec_has_all(),
        ensures
            swapchain.describes(
                support_details,
                *queue_family_indicies,
                window_width,
                window_height,
                previous_swapchain,
            ),
    {
        let mut image_count: u32 = support_details.capabilities.min_image_count + 1;
        if support_details.capabilities.max_image_count > 0 && image_count
            > support_details.capabilities.max_image_count {
            image_count = support_details.capabilities.max_image_count;
        }
        let surface_format = support_details.choose_surface_format();
        let extent = support_details.choose_extent(window_width, window_height);

        let graphics_index: u32 = queue_family_indicies.graphics_index.unwrap();
        let present_queue: u32 = queue_family_indicies.present_queue.unwrap();
        let mut image_sharing_mode: i32 = sharing_mode_exclusive();
        let mut queue_family_indices: Vec<u32> = Vec::new();
        if graphics_index != present_queue {
            image_sharing_mode = sharing_mode_concurrent();
            queue_family_indices.push(graphics_index);
            queue_family_indices.push(present_queue);
            assert(queue_family_indices@ =~= seq![graphics_index, present_queue]);
        }
        let old_swapchain: u64 = match previous_swapchain {
            Some(handle) => handle,
            None => 0,
        };
        let create_info = SwapchainCreateInfoKHR {
            min_image_count: image_count,
            image_format: surface_format.format,
            image_color_space: surface_format.color_space,
            image_extent: extent,
            image_array_layers: 1,
            image_usage: image_usage_color_attachment(),
            image_sharing_mode,
            queue_family_indices,
            pre_transform: support_details.capabilities.current_transform,
            composite_alpha: composite_alpha_opaque(),
            present_mode: support_details.choose_present_mode(),
            clipped: true,
            old_swapchain,
        };
        VulkanSwapchain { create_info, extent, image_format: surface_format, support_details }
    }
}

} // verus!
