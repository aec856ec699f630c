//! The renderer as one unit: which queue families, surface format, present
//! mode and extent it settles on, and the settings of the instance, logical
//! device and swapchain that follow from them.

use vstd::prelude::*;

pub mod frame;
pub mod resources;
pub mod vulkan_device;
pub mod vulkan_instance;
pub mod vulkan_swapchain;

use crate::names::{
    contains_name, count_listed, distinct, ext_debug_utils, khr_get_physical_device_properties2,
    khr_portability_enumeration, khr_portability_subset, khr_swapchain, khronos_validation_layer,
    lemma_count_listed_all, lemma_count_listed_symmetric, lemma_lists_texts, lemma_texts_push,
    texts,
};
use crate::vk::{
    api_version_1_0, color_space_srgb_nonlinear, composite_alpha_opaque, debug_severity_error,
    debug_severity_info, debug_severity_warning, debug_type_general, debug_type_performance,
    debug_type_validation, format_b8g8r8a8_srgb, image_usage_color_attachment,
    instance_create_enumerate_portability, physical_device_type_discrete_gpu, present_mode_fifo,
    present_mode_mailbox, sharing_mode_concurrent, sharing_mode_exclusive,
    spec_supports_graphics, supports_graphics, DebugUtilsMessengerCreateInfoEXT,
    DeviceCreateInfo, DeviceQueueCreateInfo, Extent2D, InstanceCreateInfo,
    PhysicalDeviceFeatures, PhysicalDeviceProperties, QueueFamily, SurfaceCapabilitiesKHR,
    SurfaceFormatKHR, SwapchainCreateInfoKHR, API_VERSION_1_0, COLOR_SPACE_SRGB_NONLINEAR,
    COMPOSITE_ALPHA_OPAQUE, FORMAT_B8G8R8A8_SRGB, IMAGE_USAGE_COLOR_ATTACHMENT,
    INSTANCE_CREATE_ENUMERATE_PORTABILITY, PHYSICAL_DEVICE_TYPE_DISCRETE_GPU, PRESENT_MODE_FIFO,
    PRESENT_MODE_MAILBOX, SHARING_MODE_CONCURRENT, SHARING_MODE_EXCLUSIVE,
};
use crate::vulkan::frame::{FrameState, FrameStep};
use crate::vulkan::resources::{
    creation_order, lemma_parents_come_first, lemma_position, needs, position,
    spec_creation_order, Resource,
};
use crate::vulkan::vulkan_instance::{spec_message_severity, spec_message_type};

verus! {

/// The queue families that the renderer submits to and presents from.
#[derive(Clone, Copy, Debug, Default, PartialEq, Eq, Structural)]
pub struct QueueFamilyIndicies {
    pub graphics_family: Option<u32>,
    pub present_family: Option<u32>,
}

/// `chosen` is the last position in `families` at which `wanted` holds, or
/// `None` where it holds at none.
pub open spec fn is_last_match(
    chosen: Option<u32>,
    families: Seq<QueueFamily>,
    wanted: spec_fn(QueueFamily) -> bool,
) -> bool {
    match chosen {
        Some(index) => {
            &&& index < families.len()
            &&& wanted(families[index as int])
            &&& forall|j: int| index < j < families.len() ==> !wanted(#[trigger] families[j])
        },
        None => forall|j: int| 0 <= j < families.len() ==> !wanted(#[trigger] families[j]),
    }
}

/// A family that accepts graphics commands.
pub open spec fn graphics_capable(family: QueueFamily) -> bool {
    spec_supports_graphics(family.queue_flags)
}

/// A family that can present to the surface.
pub open spec fn present_capable(family: QueueFamily) -> bool {
    family.present_support
}

impl QueueFamilyIndicies {
    /// Both a graphics and a present family are known.
    pub open spec fn spec_has_all(self) -> bool {
        self.graphics_family is Some && self.present_family is Some
    }

    /// Picks, among a device's queue families in the order the driver lists
    /// them, the last one that accepts graphics commands and the last one
    /// that can present.
    pub fn new(families: &Vec<QueueFamily>) -> (indicies: Self)
        requires
            families.len() <= u32::MAX,
        ensures
            is_last_match(indicies.graphics_family, families@, |f: QueueFamily| graphics_capable(f)),
            is_last_match(indicies.present_family, families@, |f: QueueFamily| present_capable(f)),
    {
        let mut indicies = QueueFamilyIndicies { graphics_family: None, present_family: None };
        let mut index: usize = 0;
        while index < families.len()
            invariant
                index <= families.len() <= u32::MAX,
                is_last_match(
                    indicies.graphics_family,
                    families@.take(index as int),
                    |f: QueueFamily| graphics_capable(f),
                ),
                is_last_match(
                    indicies.present_family,
                    families@.take(index as int),
                    |f: QueueFamily| present_capable(f),
                ),
            decreases families.len() - index,
        {
            let family = families[index];
            if supports_graphics(family.queue_flags) {
                indicies.graphics_family = Some(index as u32);
            }
            if family.present_support {
                indicies.present_family = Some(index as u32);
            }
            index += 1;
        }
        assert(families@.take(index as int) == families@);
        indicies
    }

    /// The graphics family followed by the present family, also where the
    /// two are the same family.
    pub fn get_unique_queue_families(&self) -> (families: Vec<u32>)
        requires
            self.spec_has_all(),
        ensures
            families@ == seq![self.graphics_family->0, self.present_family->0],
    {
        vec![self.graphics_family.unwrap(), self.present_family.unwrap()]
    }

    /// Whether both a graphics and a present family are known.
    pub fn has_all(&self) -> (all: bool)
        ensures
            all == self.spec_has_all(),
    {
        self.graphics_family.is_some() && self.present_family.is_some()
    }
}

/// What a physical device supports for swapchains on the renderer's surface.
#[derive(Clone, Debug, PartialEq, Eq)]
pub struct SwapChainSupportDetails {
    pub capabilities: SurfaceCapabilitiesKHR,
    pub formats: Vec<SurfaceFormatKHR>,
    /// Raw present modes.
    pub present_modes: Vec<i32>,
}

/// The surface format the renderer would rather have: eight-bit BGRA with
/// sRGB encoding, in the non-linear sRGB colour space.
pub open spec fn preferred_surface_format() -> SurfaceFormatKHR {
    SurfaceFormatKHR { format: FORMAT_B8G8R8A8_SRGB, color_space: COLOR_SPACE_SRGB_NONLINEAR }
}

impl SwapChainSupportDetails {
    /// The device offers at least one format and one present mode.
    pub open spec fn spec_is_adequate(self) -> bool {
        self.formats@.len() > 0 && self.present_modes@.len() > 0
    }

    /// The preferred format where the device offers it, else the first
    /// format the device lists.
    pub open spec fn spec_surface_format(self) -> SurfaceFormatKHR {
        if self.formats@.contains(preferred_surface_format()) {
            preferred_surface_format()
        } else {
            self.formats@[0]
        }
    }

    /// Mailbox where the device offers it, else FIFO, which every device
    /// has.
    pub open spec fn spec_present_mode(self) -> i32 {
        if self.present_modes@.contains(PRESENT_MODE_MAILBOX) {
            PRESENT_MODE_MAILBOX
        } else {
            PRESENT_MODE_FIFO
        }
    }

    /// The surface's own extent, unless the surface leaves the choice open
    /// (a width of `u32::MAX`): then the window's size.
    pub open spec fn spec_extent(self, window_width: u32, window_height: u32) -> Extent2D {
        if self.capabilities.current_extent.width == u32::MAX {
            Extent2D { width: window_width, height: window_height }
        } else {
            self.capabilities.current_extent
        }
    }

    /// The support details made of what the driver reports.
    pub fn new(
        capabilities: SurfaceCapabilitiesKHR,
        formats: Vec<SurfaceFormatKHR>,
        present_modes: Vec<i32>,
    ) -> (details: Self)
        ensures
            details.capabilities == capabilities,
            details.formats == formats,
            details.present_modes == present_modes,
    {
        SwapChainSupportDetails { capabilities, formats, present_modes }
    }

    /// The surface format of the swapchain. The device offers at least one.
    pub fn choose_swapchain_surface_format(&self) -> (chosen: SurfaceFormatKHR)
        requires
            self.formats@.len() > 0,
        ensures
            chosen == self.spec_surface_format(),
    {
        let wanted_format: i32 = format_b8g8r8a8_srgb();
        let wanted_color_space: i32 = color_space_srgb_nonlinear();
        let mut i: usize = 0;
        while i < self.formats.len()
            invariant
                i <= self.formats.len(),
                wanted_format == FORMAT_B8G8R8A8_SRGB,
                wanted_color_space == COLOR_SPACE_SRGB_NONLINEAR,
                forall|j: int| 0 <= j < i ==> self.formats@[j] != preferred_surface_format(),
            decreases self.formats.len() - i,
        {
            let format = self.formats[i];
            if format.format == wanted_format && format.color_space == wanted_color_space {
                assert(self.formats@[i as int] == preferred_surface_format());
                return format;
            }
            i += 1;
        }
        self.formats[0]
    }

    /// The extent of the swapchain's images for a window of the given size.
    pub fn choose_swapchain_extent(&self, window_width: u32, window_height: u32) -> (chosen:
        Extent2D)
        ensures
            chosen == self.spec_extent(window_width, window_height),
    {
        if self.capabilities.current_extent.width == u32::MAX {
            Extent2D { width: window_width, height: window_height }
        } else {
            self.capabilities.current_extent
        }
    }

    /// The present mode of the swapchain.
    pub fn choose_swapchain_present_mode(&self) -> (chosen: i32)
        ensures
            chosen == self.spec_present_mode(),
    {
        let mailbox: i32 = present_mode_mailbox();
        let mut i: usize = 0;
        while i < self.present_modes.len()
            invariant
                i <= self.present_modes.len(),
                mailbox == PRESENT_MODE_MAILBOX,
                forall|j: int| 0 <= j < i ==> self.present_modes@[j] != PRESENT_MODE_MAILBOX,
            decreases self.present_modes.len() - i,
        {
            if self.present_modes[i] == mailbox {
                assert(self.present_modes@[i as int] == PRESENT_MODE_MAILBOX);
                return mailbox;
            }
            i += 1;
        }
        present_mode_fifo()
    }

    /// Whether the device offers at least one format and one present mode.
    pub fn is_adequate(&self) -> (adequate: bool)
        ensures
            adequate == self.spec_is_adequate(),
    {
        !self.formats.is_empty() && !self.present_modes.is_empty()
    }
}

/// The extension that carries validation messages, in a debugging build only.
pub open spec fn debug_instance_extensions(debug: bool) -> Seq<Seq<char>> {
    if debug {
        seq!["VK_EXT_debug_utils"@]
    } else {
        Seq::empty()
    }
}

/// The instance extensions that a portability driver needs, where the
/// platform has one.
pub open spec fn portability_instance_extensions(portability: bool) -> Seq<Seq<char>> {
    if portability {
        seq!["VK_KHR_portability_enumeration"@, "VK_KHR_get_physical_device_properties2"@]
    } else {
        Seq::empty()
    }
}

/// The device extensions the renderer cannot do without: the swapchain, and
/// on a portability driver the portability subset.
pub open spec fn required_device_extensions(portability: bool) -> Seq<Seq<char>> {
    if portability {
        seq!["VK_KHR_swapchain"@, "VK_KHR_portability_subset"@]
    } else {
        seq!["VK_KHR_swapchain"@]
    }
}

/// One more image than the surface's minimum, so that the renderer need not
/// wait for the driver, but no more than the surface's maximum where it has
/// one.
pub open spec fn spec_image_count(capabilities: SurfaceCapabilitiesKHR) -> int {
    let wanted = capabilities.min_image_count + 1;
    if capabilities.max_image_count > 0 && wanted > capabilities.max_image_count {
        capabilities.max_image_count as int
    } else {
        wanted
    }
}

/// `info` is the swapchain that the renderer asks for on a surface with the
/// given support, for a window of the given size.
pub open spec fn describes_swapchain(
    info: SwapchainCreateInfoKHR,
    window_width: u32,
    window_height: u32,
    support: SwapChainSupportDetails,
    indicies: QueueFamilyIndicies,
) -> bool {
    &&& info.min_image_count == spec_image_count(support.capabilities)
    &&& info.image_format == support.spec_surface_format().format
    &&& info.image_color_space == support.spec_surface_format().color_space
    &&& info.image_extent == support.spec_extent(window_width, window_height)
    &&& info.image_array_layers == 1
    &&& info.image_usage == IMAGE_USAGE_COLOR_ATTACHMENT
    &&& info.pre_transform == support.capabilities.current_transform
    &&& info.composite_alpha == COMPOSITE_ALPHA_OPAQUE
    &&& info.present_mode == support.spec_present_mode()
    &&& info.clipped
    &&& info.old_swapchain == 0
    &&& if indicies.graphics_family->0 != indicies.present_family->0 {
        &&& info.image_sharing_mode == SHARING_MODE_CONCURRENT
        &&& info.queue_family_indices@ == seq![
            indicies.graphics_family->0,
            indicies.present_family->0,
        ]
    } else {
        &&& info.image_sharing_mode == SHARING_MODE_EXCLUSIVE
        &&& info.queue_family_indices@ == Seq::<u32>::empty()
    }
}

/// A device supports the required extensions where as many of the
/// extensions it reports are required ones as there are required ones.
pub open spec fn spec_extension_support(available: Seq<Seq<char>>, portability: bool) -> bool {
    count_listed(available, required_device_extensions(portability))
        == required_device_extensions(portability).len()
}

/// A device suits the renderer: a discrete GPU with geometry shaders, a
/// graphics and a present queue family, the required extensions, and at
/// least one surface format and present mode.
pub open spec fn spec_device_suitable(
    properties: PhysicalDeviceProperties,
    features: PhysicalDeviceFeatures,
    queue_family_indicies: QueueFamilyIndicies,
    available_extensions: Seq<Seq<char>>,
    swapchain_support_details: SwapChainSupportDetails,
    portability: bool,
) -> bool {
    &&& properties.device_type == PHYSICAL_DEVICE_TYPE_DISCRETE_GPU
    &&& features.geometry_shader == 1
    &&& queue_family_indicies.spec_has_all()
    &&& spec_extension_support(available_extensions, portability)
    &&& swapchain_support_details.spec_is_adequate()
}

/// One command of the buffer that draws a frame.
#[derive(Clone, Copy, Debug, PartialEq, Eq, Structural)]
pub enum Command {
    Begin,
    /// Begins the render pass on the framebuffer at the given position,
    /// over the whole extent.
    BeginRenderPass { framebuffer: usize },
    BindGraphicsPipeline,
    Draw { vertex_count: u32, instance_count: u32, first_vertex: u32, first_instance: u32 },
    EndRenderPass,
    End,
}

/// The renderer: how far its chain of resources has been built, and where
/// the frame it is drawing stands.
#[derive(Clone, Copy, Debug, PartialEq, Eq)]
pub struct VulkanManager {
    /// Whether this is a debugging build, which has a debug messenger.
    pub debug: bool,
    /// How many resources are alive: the first so many of the order of
    /// creation.
    pub created: usize,
    pub frame: FrameState,
}

impl VulkanManager {
    /// The resources that are alive, in the order of their creation.
    pub open spec fn live(self) -> Seq<Resource> {
        spec_creation_order(self.debug).take(self.created as int)
    }

    /// No more resources are alive than the renderer has, and the frame
    /// loop is in a state that it can reach.
    pub open spec fn wf(self) -> bool {
        &&& self.created <= spec_creation_order(self.debug).len()
        &&& self.frame.wf()
    }

    /// Every resource is alive.
    pub open spec fn ready(self) -> bool {
        self.created == spec_creation_order(self.debug).len()
    }

    /// A renderer of which nothing exists yet.
    pub fn new(debug: bool) -> (manager: Self)
        ensures
            manager.wf(),
            manager.debug == debug,
            manager.created == 0,
            manager.live() == Seq::<Resource>::empty(),
            manager.frame == FrameState::spec_new(0),
    {
        let manager = VulkanManager { debug, created: 0, frame: FrameState::new(0) };
        assert(manager.live() =~= Seq::<Resource>::empty());
        manager
    }

    /// Settings of the instance: the application's identity, API version
    /// 1.0, the validation layer in a debugging build, and as extensions
    /// those the window system requires, then the debugging extension, then
    /// the portability extensions.
    pub fn create_instance(required_extensions: Vec<String>, debug: bool, portability: bool) -> (info:
        InstanceCreateInfo)
        ensures
            info.application_name@ == "Learning Vulkan"@,
            info.application_version == 0,
            info.engine_name@ == "Learning Vulkan"@,
            info.engine_version == 0,
            info.api_version == API_VERSION_1_0,
            info.flags == if portability {
                INSTANCE_CREATE_ENUMERATE_PORTABILITY
            } else {
                0
            },
            texts(info.enabled_layer_names@) == if debug {
                seq!["VK_LAYER_KHRONOS_validation"@]
            } else {
                Seq::<Seq<char>>::empty()
            },
            texts(info.enabled_extension_names@) == texts(required_extensions@)
                + debug_instance_extensions(debug) + portability_instance_extensions(portability),
    {
        let mut layer_names: Vec<String> = Vec::new();
        assert(texts(layer_names@) =~= Seq::<Seq<char>>::empty());
        if debug {
            let layer = khronos_validation_layer();
            proof {
                lemma_texts_push(layer_names@, layer);
            }
            layer_names.push(layer);
        }
        let mut extension_names = required_extensions;
        if debug {
            let name = ext_debug_utils();
            proof {
                lemma_texts_push(extension_names@, name);
            }
            extension_names.push(name);
        }
        assert(texts(extension_names@) =~= texts(required_extensions@) + debug_instance_extensions(
            debug,
        ));
        if portability {
            let enumeration = khr_portability_enumeration();
            let properties = khr_get_physical_device_properties2();
            proof {
                lemma_texts_push(extension_names@, enumeration);
                lemma_texts_push(extension_names@.push(enumeration), properties);
            }
            extension_names.push(enumeration);
            extension_names.push(properties);
        }
        assert(texts(extension_names@) =~= texts(required_extensions@) + debug_instance_extensions(
            debug,
        ) + portability_instance_extensions(portability));
        let flags: u32 = if portability {
            instance_create_enumerate_portability()
        } else {
            0
        };
        InstanceCreateInfo {
            application_name: "Learning Vulkan".to_owned(),
            application_version: 0,
            engine_name: "Learning Vulkan".to_owned(),
            engine_version: 0,
            api_version: api_version_1_0(),
            flags,
            enabled_layer_names: layer_names,
            enabled_extension_names: extension_names,
        }
    }

    /// Settings of the debug messenger: errors, warnings and information
    /// of every type.
    pub fn initialize_debug_utils() -> (info: DebugUtilsMessengerCreateInfoEXT)
        ensures
            info.message_severity == spec_message_severity(),
            info.message_type == spec_message_type(),
    {
        DebugUtilsMessengerCreateInfoEXT {
            message_severity: debug_severity_error() | debug_severity_warning()
                | debug_severity_info(),
            message_type: debug_type_general() | debug_type_validation()
                | debug_type_performance(),
        }
    }

    /// Whether a device suits the renderer, by what the driver reports of
    /// it.
    pub fn is_device_suitable(
        properties: &PhysicalDeviceProperties,
        features: &PhysicalDeviceFeatures,
        queue_family_indicies: &QueueFamilyIndicies,
        available_extensions: &Vec<String>,
        swapchain_support_details: &SwapChainSupportDetails,
        portability: bool,
    ) -> (suitable: bool)
        ensures
            suitable == spec_device_suitable(
                *properties,
                *features,
                *queue_family_indicies,
                texts(available_extensions@),
                *swapchain_support_details,
                portability,
            ),
    {
        properties.device_type == physical_device_type_discrete_gpu() && features.geometry_shader
            == 1 && queue_family_indicies.has_all() && Self::check_device_extension_support(
            available_extensions,
            portability,
        ) && swapchain_support_details.is_adequate()
    }

    /// Counts the reported extensions that are required ones and compares
    /// the count with the number of required extensions.
    pub fn check_device_extension_support(available_extension: &Vec<String>, portability: bool) -> (
        supported: bool)
        ensures
            supported == spec_extension_support(texts(available_extension@), portability),
    {
        let required_extensions = Self::required_extensions(portability);
        let ghost required = required_device_extensions(portability);
        let ghost available = texts(available_extension@);
        let mut total: usize = 0;
        let mut i: usize = 0;
        while i < available_extension.len()
            invariant
                i <= available_extension.len(),
                total <= i,
                total == count_listed(available.take(i as int), required),
                available == texts(available_extension@),
                required == texts(required_extensions@),
            decreases available_extension.len() - i,
        {
            proof {
                lemma_lists_texts(required_extensions@, available_extension@[i as int]@);
                assert(available.take(i as int + 1).drop_last() =~= available.take(i as int));
                assert(available.take(i as int + 1).last() == available_extension@[i as int]@);
            }
            if contains_name(&required_extensions, &available_extension[i]) {
                total += 1;
            }
            i += 1;
        }
        assert(available.take(i as int) =~= available);
        total == required_extensions.len()
    }

    /// The names of the required device extensions.
    pub fn required_extensions(portability: bool) -> (names: Vec<String>)
        ensures
            texts(names@) == required_device_extensions(portability),
    {
        let mut names: Vec<String> = Vec::new();
        let swapchain = khr_swapchain();
        proof {
            lemma_texts_push(names@, swapchain);
        }
        names.push(swapchain);
        if portability {
            let subset = khr_portability_subset();
            proof {
                lemma_texts_push(names@, subset);
            }
            names.push(subset);
        }
        assert(texts(names@) =~= required_device_extensions(portability));
        names
    }

    /// Settings of the logical device, and the families of the graphics and
    /// of the present queue to fetch from it: one queue from the graphics
    /// and one from the present family, the required device extensions, and
    /// no optional feature.
    pub fn create_logical_device(qf_index: &QueueFamilyIndicies, portability: bool) -> (plan: (
        DeviceCreateInfo,
        u32,
        u32,
    ))
        requires
            qf_index.spec_has_all(),
        ensures
            plan.0.queue_create_infos@ == seq![
                DeviceQueueCreateInfo {
                    queue_family_index: qf_index.graphics_family->0,
                    queue_count: 1,
                },
                DeviceQueueCreateInfo {
                    queue_family_index: qf_index.present_family->0,
                    queue_count: 1,
                },
            ],
            texts(plan.0.enabled_extension_names@) == required_device_extensions(portability),
            !plan.0.enable_supported_features,
            plan.1 == qf_index.graphics_family->0,
            plan.2 == qf_index.present_family->0,
    {
        let enabled_extension_names = Self::required_extensions(portability);
        let families = qf_index.get_unique_queue_families();
        let mut queue_create_infos: Vec<DeviceQueueCreateInfo> = Vec::new();
        let mut i: usize = 0;
        while i < families.len()
            invariant
                i <= families.len(),
                queue_create_infos@.len() == i,
                forall|j: int|
                    0 <= j < i ==> queue_create_infos@[j] == (DeviceQueueCreateInfo {
                        queue_family_index: families@[j],
                        queue_count: 1,
                    }),
            decreases families.len() - i,
        {
            queue_create_infos.push(
                DeviceQueueCreateInfo { queue_family_index: families[i], queue_count: 1 },
            );
            i += 1;
        }
        assert(queue_create_infos@ =~= seq![
            DeviceQueueCreateInfo {
                queue_family_index: qf_index.graphics_family->0,
                queue_count: 1,
            },
            DeviceQueueCreateInfo {
                queue_family_index: qf_index.present_family->0,
                queue_count: 1,
            },
        ]);
        let info = DeviceCreateInfo {
            queue_create_infos,
            enabled_extension_names,
            enable_supported_features: false,
        };
        (info, qf_index.graphics_family.unwrap(), qf_index.present_family.unwrap())
    }

    /// Settings of the swapchain: format, present mode and extent as the
    /// support details choose them, one image more than the minimum where
    /// the surface allows it, and images shared between the graphics and the
    /// present family only where these differ.
    pub fn create_swapchain(
        window_width: u32,
        window_height: u32,
        swap_chain_support: &SwapChainSupportDetails,
        qf_indicies: &QueueFamilyIndicies,
    ) -> (info: SwapchainCreateInfoKHR)
        requires
            swap_chain_support.formats@.len() > 0,
            swap_chain_support.capabilities.min_image_count < u32::MAX,
            qf_indicies.spec_has_all(),
        ensures
            describes_swapchain(
                info,
                window_width,
                window_height,
                *swap_chain_support,
                *qf_indicies,
            ),
    {
        let surface_format = swap_chain_support.choose_swapchain_surface_format();
        let present_mode = swap_chain_support.choose_swapchain_present_mode();
        let extent = swap_chain_support.choose_swapchain_extent(window_width, window_height);

        let mut image_count: u32 = swap_chain_support.capabilities.min_image_count + 1;
        if swap_chain_support.capabilities.max_image_count > 0
            && image_count > swap_chain_support.capabilities.max_image_count {
            image_count = swap_chain_support.capabilities.max_image_count;
        }
        let graphics_family: u32 = qf_indicies.graphics_family.unwrap();
        let present_family: u32 = qf_indicies.present_family.unwrap();
        let mut image_sharing_mode: i32 = sharing_mode_exclusive();
        let mut queue_family_indices: Vec<u32> = Vec::new();
        if graphics_family != present_family {
            image_sharing_mode = sharing_mode_concurrent();
            queue_family_indices.push(graphics_family);
            queue_family_indices.push(present_family);
            assert(queue_family_indices@ =~= seq![graphics_family, present_family]);
        }
        SwapchainCreateInfoKHR {
            min_image_count: image_count,
            image_format: surface_format.format,
            image_color_space: surface_format.color_space,
            image_extent: extent,
            image_array_layers: 1,
            image_usage: image_usage_color_attachment(),
            image_sharing_mode,
            queue_family_indices,
            pre_transform: swap_chain_support.capabilities.current_transform,
            composite_alpha: composite_alpha_opaque(),
            present_mode,
            clipped: true,
            old_swapchain: 0,
        }
    }

    /// The resource to create next: the first of the order of creation that
    /// is not alive. `None` once the renderer is ready.
    pub fn next_to_create(&self) -> (next: Option<Resource>)
        requires
            self.wf(),
        ensures
            next == if self.ready() {
                None
            } else {
                Some(spec_creation_order(self.debug)[self.created as int])
            },
    {
        let order = creation_order(self.debug);
        if self.created < order.len() {
            Some(order[self.created])
        } else {
            None
        }
    }

    /// Takes note that the resource that was next to create is alive.
    pub fn mark_created(&mut self)
        requires
            old(self).wf(),
            !old(self).ready(),
        ensures
            final(self).wf(),
            final(self).debug == old(self).debug,
            final(self).frame == old(self).frame,
            final(self).created == old(self).created + 1,
            final(self).live() == old(self).live().push(
                spec_creation_order(old(self).debug)[old(self).created as int],
            ),
    {
        self.created = self.created + 1;
        assert(self.live() =~= old(self).live().push(
            spec_creation_order(old(self).debug)[old(self).created as int],
        ));
    }

    /// The resource to destroy next: the one that was created last among
    /// those alive. `None` once nothing is alive.
    pub fn next_to_destroy(&self) -> (next: Option<Resource>)
        requires
            self.wf(),
        ensures
            next == if self.live().len() == 0 {
                None
            } else {
                Some(self.live().last())
            },
    {
        let order = creation_order(self.debug);
        if self.created > 0 {
            Some(order[self.created - 1])
        } else {
            None
        }
    }

    /// Takes note that the resource that was next to destroy is gone.
    pub fn mark_destroyed(&mut self)
        requires
            old(self).wf(),
            old(self).live().len() > 0,
        ensures
            final(self).wf(),
            final(self).debug == old(self).debug,
            final(self).frame == old(self).frame,
            final(self).created == old(self).created - 1,
            final(self).live() == old(self).live().drop_last(),
    {
        self.created = self.created - 1;
        assert(self.live() =~= old(self).live().drop_last());
    }

    /// The resources that are alive in the order in which to destroy them:
    /// the reverse of the order of their creation.
    pub fn teardown_order(&self) -> (order: Vec<Resource>)
        requires
            self.wf(),
        ensures
            order@ == self.live().reverse(),
    {
        let creation = creation_order(self.debug);
        let mut order: Vec<Resource> = Vec::new();
        let mut remaining: usize = self.created;
        while remaining > 0
            invariant
                remaining <= self.created <= creation@.len(),
                creation@ == spec_creation_order(self.debug),
                order@.len() == self.created - remaining,
                forall|k: int|
                    0 <= k < order@.len() ==> order@[k] == creation@[self.created - 1 - k],
            decreases remaining,
        {
            remaining = remaining - 1;
            order.push(creation[remaining]);
        }
        assert(order@ =~= self.live().reverse());
        order
    }

    /// Tells the frame loop how many images the swapchain has, and so how
    /// many framebuffers there are, and puts it before its first frame.
    pub fn set_image_count(&mut self, image_count: u32)
        ensures
            final(self).frame == FrameState::spec_new(image_count),
            final(self).debug == old(self).debug,
            final(self).created == old(self).created,
            old(self).wf() ==> final(self).wf(),
    {
        self.frame = FrameState::new(image_count);
    }

    /// The step of the frame that is due.
    pub fn frame_step(&self) -> (step: FrameStep)
        ensures
            step == self.frame.next,
    {
        self.frame.next
    }

    /// Takes note that the step of the frame that was due has been
    /// performed, and says whether the frame is now on its way to the
    /// screen. After `AcquireImage`, `acquired_image` is the image that the
    /// swapchain gave.
    pub fn draw_frame(&mut self, acquired_image: Option<u32>) -> (presented: bool)
        requires
            old(self).wf(),
            old(self).ready(),
            old(self).frame.accepts(acquired_image),
        ensures
            final(self).frame == old(self).frame.spec_advance(acquired_image),
            final(self).wf(),
            final(self).ready(),
            final(self).debug == old(self).debug,
            presented == (old(self).frame.next is Present),
    {
        self.frame.advance(acquired_image)
    }

    /// The commands that draw the triangle into the framebuffer of the
    /// acquired image.
    pub fn write_command_buffer(&self, image_index: usize) -> (commands: Vec<Command>)
        requires
            image_index < self.frame.image_count,
        ensures
            commands@ == seq![
                Command::Begin,
                Command::BeginRenderPass { framebuffer: image_index },
                Command::BindGraphicsPipeline,
                Command::Draw {
                    vertex_count: 3,
                    instance_count: 1,
                    first_vertex: 0,
                    first_instance: 0,
                },
                Command::EndRenderPass,
                Command::End,
            ],
    {
        let mut commands: Vec<Command> = Vec::new();
        commands.push(Command::Begin);
        commands.push(Command::BeginRenderPass { framebuffer: image_index });
        commands.push(Command::BindGraphicsPipeline);
        commands.push(
            Command::Draw { vertex_count: 3, instance_count: 1, first_vertex: 0, first_instance: 0 },
        );
        commands.push(Command::EndRenderPass);
        commands.push(Command::End);
        assert(commands@ =~= seq![
            Command::Begin,
            Command::BeginRenderPass { framebuffer: image_index },
            Command::BindGraphicsPipeline,
            Command::Draw {
                vertex_count: 3,
                instance_count: 1,
                first_vertex: 0,
                first_instance: 0,
            },
            Command::EndRenderPass,
            Command::End,
        ]);
        commands
    }
}

/// The choice of a queue family is determined: no two choices are the last
/// match among the same families.
pub proof fn lemma_last_match_unique(
    one: Option<u32>,
    other: Option<u32>,
    families: Seq<QueueFamily>,
    wanted: spec_fn(QueueFamily) -> bool,
)
    requires
        is_last_match(one, families, wanted),
        is_last_match(other, families, wanted),
    ensures
        one == other,
{
    if one is Some && other is Some {
        let a = one->0 as int;
        let b = other->0 as int;
        if a < b {
            assert(!wanted(families[b]));
        }
        if b < a {
            assert(!wanted(families[a]));
        }
    } else if one is Some {
        assert(!wanted(families[one->0 as int]));
    } else if other is Some {
        assert(!wanted(families[other->0 as int]));
    }
}

/// A queue family is chosen exactly where the device has one that will do.
pub proof fn lemma_last_match_found(
    chosen: Option<u32>,
    families: Seq<QueueFamily>,
    wanted: spec_fn(QueueFamily) -> bool,
)
    requires
        is_last_match(chosen, families, wanted),
    ensures
        chosen is Some <==> exists|i: int| 0 <= i < families.len() && wanted(#[trigger] families[i]),
{
    if chosen is Some {
        assert(wanted(families[chosen->0 as int]));
    }
}

/// The number of images asked for lies within the limits of a surface whose
/// limits are in order.
pub proof fn lemma_image_count_in_limits(capabilities: SurfaceCapabilitiesKHR)
    requires
        capabilities.max_image_count == 0 || capabilities.min_image_count
            <= capabilities.max_image_count,
    ensures
        capabilities.min_image_count <= spec_image_count(capabilities),
        spec_image_count(capabilities) <= capabilities.min_image_count + 1,
        capabilities.max_image_count > 0 ==> spec_image_count(capabilities)
            <= capabilities.max_image_count,
{
}

/// The surface format that is chosen is one that the device offers.
pub proof fn lemma_surface_format_is_offered(details: SwapChainSupportDetails)
    requires
        details.formats@.len() > 0,
    ensures
        details.formats@.contains(details.spec_surface_format()),
{
    if !details.formats@.contains(preferred_surface_format()) {
        assert(details.formats@[0] == details.spec_surface_format());
    }
}

/// Whatever is alive, all that it is built on is alive too.
pub proof fn lemma_live_parents_are_live(manager: VulkanManager, child: Resource, parent: Resource)
    requires
        manager.wf(),
        manager.live().contains(child),
        needs(child, parent),
    ensures
        manager.live().contains(parent),
{
    let order = spec_creation_order(manager.debug);
    let i = choose|i: int| 0 <= i < manager.live().len() && manager.live()[i] == child;
    assert(order[i] == child);
    lemma_parents_come_first(manager.debug, i, parent);
    let j = position(parent, manager.debug);
    assert(manager.live()[j] == parent);
}

/// Nothing that is alive is built on the resource that is next to destroy.
pub proof fn lemma_last_has_no_live_dependent(manager: VulkanManager, child: Resource)
    requires
        manager.wf(),
        manager.live().len() > 0,
        manager.live().contains(child),
    ensures
        !needs(child, manager.live().last()),
{
    let order = spec_creation_order(manager.debug);
    let i = choose|i: int| 0 <= i < manager.live().len() && manager.live()[i] == child;
    assert(order[i] == child);
    let last = manager.live().last();
    assert(last == order[manager.created - 1]);
    if needs(child, last) {
        lemma_parents_come_first(manager.debug, i, last);
        lemma_position(manager.debug, manager.created - 1);
    }
}

/// The instance is created first and destroyed last.
pub proof fn lemma_instance_goes_last(manager: VulkanManager)
    requires
        manager.wf(),
        manager.live().len() > 0,
    ensures
        manager.live().first() == Resource::Instance,
        manager.live().reverse().last() == Resource::Instance,
{
    assert(spec_creation_order(manager.debug)[0] == Resource::Instance);
}

/// Of a device that reports no extension twice, the count says what it is
/// meant to say: the device supports the required extensions exactly where
/// it reports each of them.
pub proof fn lemma_extension_support(available: Seq<Seq<char>>, portability: bool)
    requires
        distinct(available),
    ensures
        spec_extension_support(available, portability) <==> forall|k: int|
            0 <= k < required_device_extensions(portability).len() ==> available.contains(
                #[trigger] required_device_extensions(portability)[k],
            ),
{
    let required = required_device_extensions(portability);
    assert(distinct(required)) by {
        reveal_strlit("VK_KHR_swapchain");
        reveal_strlit("VK_KHR_portability_subset");
        assert("VK_KHR_swapchain"@.len() != "VK_KHR_portability_subset"@.len());
    }
    lemma_count_listed_symmetric(available, required);
    lemma_count_listed_all(required, available);
}

} // verus!
