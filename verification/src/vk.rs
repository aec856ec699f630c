//! Plain-value counterparts of the Vulkan types that the decisions read, and
//! the constants and version arithmetic that are taken from `ash`.
//!
//! Handles, flags and enumerants stand here as the raw integers that the
//! driver uses for them. What is taken from `ash` is taken on trust: each
//! such item is marked `Trusted`, and says what is believed of it.

use vstd::prelude::*;

verus! {

/// Width and height of a surface or image, in pixels.
#[derive(Clone, Copy, Debug, PartialEq, Eq, Structural)]
pub struct Extent2D {
    pub width: u32,
    pub height: u32,
}

/// A pixel format together with the colour space it is presented in, both as
/// raw Vulkan enumerants.
#[derive(Clone, Copy, Debug, PartialEq, Eq, Structural)]
pub struct SurfaceFormatKHR {
    pub format: i32,
    pub color_space: i32,
}

/// What a surface reports about the swapchains it can back.
#[derive(Clone, Copy, Debug, PartialEq, Eq, Structural)]
pub struct SurfaceCapabilitiesKHR {
    pub min_image_count: u32,
    /// Zero means that the surface sets no upper limit.
    pub max_image_count: u32,
    /// A width of `u32::MAX` means that the swapchain decides the extent.
    pub current_extent: Extent2D,
    pub min_image_extent: Extent2D,
    pub max_image_extent: Extent2D,
    pub current_transform: u32,
}

/// One queue family of a physical device: its capability mask, and whether
/// it can present to the surface the renderer draws on.
#[derive(Clone, Copy, Debug, PartialEq, Eq, Structural)]
pub struct QueueFamily {
    pub queue_flags: u32,
    pub present_support: bool,
}

/// The properties of a physical device that device selection reads.
#[derive(Clone, Debug, PartialEq, Eq)]
pub struct PhysicalDeviceProperties {
    pub api_version: u32,
    pub device_type: i32,
    /// `None` where the driver's name is not a terminated string.
    pub device_name: Option<String>,
    pub max_image_dimension2_d: u32,
}

/// The features of a physical device that device selection reads, each a
/// 32-bit boolean as the driver reports it.
#[derive(Clone, Copy, Debug, PartialEq, Eq, Structural)]
pub struct PhysicalDeviceFeatures {
    pub geometry_shader: u32,
}

/// Settings of the instance to create.
#[derive(Clone, Debug, PartialEq, Eq)]
pub struct InstanceCreateInfo {
    pub application_name: String,
    pub application_version: u32,
    pub engine_name: String,
    pub engine_version: u32,
    pub api_version: u32,
    pub flags: u32,
    pub enabled_layer_names: Vec<String>,
    pub enabled_extension_names: Vec<String>,
}

/// Settings of the debug messenger to create.
#[derive(Clone, Copy, Debug, PartialEq, Eq, Structural)]
pub struct DebugUtilsMessengerCreateInfoEXT {
    pub message_severity: u32,
    pub message_type: u32,
}

/// A request for `queue_count` queues of one family.
#[derive(Clone, Copy, Debug, PartialEq, Eq, Structural)]
pub struct DeviceQueueCreateInfo {
    pub queue_family_index: u32,
    pub queue_count: u32,
}

/// Settings of the logical device to create.
#[derive(Clone, Debug, PartialEq, Eq)]
pub struct DeviceCreateInfo {
    pub queue_create_infos: Vec<DeviceQueueCreateInfo>,
    pub enabled_extension_names: Vec<String>,
    /// Whether every feature that the physical device supports is switched
    /// on; otherwise none is.
    pub enable_supported_features: bool,
}

/// Settings of the swapchain to create.
#[derive(Clone, Debug, PartialEq, Eq)]
pub struct SwapchainCreateInfoKHR {
    pub min_image_count: u32,
    pub image_format: i32,
    pub image_color_space: i32,
    pub image_extent: Extent2D,
    pub image_array_layers: u32,
    pub image_usage: u32,
    pub image_sharing_mode: i32,
    /// The families that share the images; read only in concurrent mode.
    pub queue_family_indices: Vec<u32>,
    pub pre_transform: u32,
    pub composite_alpha: u32,
    pub present_mode: i32,
    pub clipped: bool,
    /// Raw handle of the swapchain that this one replaces, zero for none.
    pub old_swapchain: u64,
}

/// Packed Vulkan version number: variant, major, minor and patch fields.
pub open spec fn spec_make_api_version(variant: u32, major: u32, minor: u32, patch: u32) -> u32 {
    (variant << 29) | (major << 22) | (minor << 12) | patch
}

/// The seven-bit major field of a packed version.
pub open spec fn spec_api_version_major(version: u32) -> u32 {
    (version >> 22) & 0x7fu32
}

/// The ten-bit minor field of a packed version.
pub open spec fn spec_api_version_minor(version: u32) -> u32 {
    (version >> 12) & 0x3ffu32
}

/// The twelve-bit patch field of a packed version.
pub open spec fn spec_api_version_patch(version: u32) -> u32 {
    version & 0xfffu32
}

/// Trusted: `ash::vk::make_api_version` shifts each field to its place and
/// ors them together; a field that is too wide spills into its neighbours.
pub assume_specification[ ash::vk::make_api_version ](
    variant: u32,
    major: u32,
    minor: u32,
    patch: u32,
) -> (version: u32)
    ensures
        version == spec_make_api_version(variant, major, minor, patch),
;

/// Trusted: `ash::vk::api_version_major` extracts bits 22 to 28.
pub assume_specification[ ash::vk::api_version_major ](version: u32) -> (major: u32)
    ensures
        major == spec_api_version_major(version),
;

/// Trusted: `ash::vk::api_version_minor` extracts bits 12 to 21.
pub assume_specification[ ash::vk::api_version_minor ](version: u32) -> (minor: u32)
    ensures
        minor == spec_api_version_minor(version),
;

/// Trusted: `ash::vk::api_version_patch` extracts bits 0 to 11.
pub assume_specification[ ash::vk::api_version_patch ](version: u32) -> (patch: u32)
    ensures
        patch == spec_api_version_patch(version),
;

/// Version 1.0.0 of the API, variant 0, as a packed number.
pub const API_VERSION_1_0: u32 = 0x0040_0000;

/// Packs version 1.0.0 of the API, variant 0.
pub fn api_version_1_0() -> (version: u32)
    ensures
        version == API_VERSION_1_0,
        version == spec_make_api_version(0, 1, 0, 0),
{
    let version: u32 = ash::vk::make_api_version(0, 1, 0, 0);
    assert(spec_make_api_version(0, 1, 0, 0) == 0x0040_0000u32) by (bit_vector);
    version
}

/// Eight bits each of blue, green, red and alpha, sRGB-encoded.
pub const FORMAT_B8G8R8A8_SRGB: i32 = 50;

/// Trusted: `ash::vk::Format::B8G8R8A8_SRGB` is enumerant 50.
#[verifier::external_body]
pub(crate) fn format_b8g8r8a8_srgb() -> (raw: i32)
    ensures
        raw == FORMAT_B8G8R8A8_SRGB,
{
    ash::vk::Format::B8G8R8A8_SRGB.as_raw()
}

/// The non-linear sRGB colour space.
pub const COLOR_SPACE_SRGB_NONLINEAR: i32 = 0;

/// Trusted: `ash::vk::ColorSpaceKHR::SRGB_NONLINEAR` is enumerant 0.
#[verifier::external_body]
pub(crate) fn color_space_srgb_nonlinear() -> (raw: i32)
    ensures
        raw == COLOR_SPACE_SRGB_NONLINEAR,
{
    ash::vk::ColorSpaceKHR::SRGB_NONLINEAR.as_raw()
}

/// Presenting from a queue of one image, which a newer image replaces.
pub const PRESENT_MODE_MAILBOX: i32 = 1;

/// Trusted: `ash::vk::PresentModeKHR::MAILBOX` is enumerant 1.
#[verifier::external_body]
pub(crate) fn present_mode_mailbox() -> (raw: i32)
    ensures
        raw == PRESENT_MODE_MAILBOX,
{
    ash::vk::PresentModeKHR::MAILBOX.as_raw()
}

/// Presenting from a queue in the order of arrival.
pub const PRESENT_MODE_FIFO: i32 = 2;

/// Trusted: `ash::vk::PresentModeKHR::FIFO` is enumerant 2.
#[verifier::external_body]
pub(crate) fn present_mode_fifo() -> (raw: i32)
    ensures
        raw == PRESENT_MODE_FIFO,
{
    ash::vk::PresentModeKHR::FIFO.as_raw()
}

/// A GPU on a card of its own.
pub const PHYSICAL_DEVICE_TYPE_DISCRETE_GPU: i32 = 2;

/// Trusted: `ash::vk::PhysicalDeviceType::DISCRETE_GPU` is enumerant 2.
#[verifier::external_body]
pub(crate) fn physical_device_type_discrete_gpu() -> (raw: i32)
    ensures
        raw == PHYSICAL_DEVICE_TYPE_DISCRETE_GPU,
{
    ash::vk::PhysicalDeviceType::DISCRETE_GPU.as_raw()
}

/// An image belongs to one queue family at a time.
pub const SHARING_MODE_EXCLUSIVE: i32 = 0;

/// Trusted: `ash::vk::SharingMode::EXCLUSIVE` is enumerant 0.
#[verifier::external_body]
pub(crate) fn sharing_mode_exclusive() -> (raw: i32)
    ensures
        raw == SHARING_MODE_EXCLUSIVE,
{
    ash::vk::SharingMode::EXCLUSIVE.as_raw()
}

/// An image is used by several queue families without handing it over.
pub const SHARING_MODE_CONCURRENT: i32 = 1;

/// Trusted: `ash::vk::SharingMode::CONCURRENT` is enumerant 1.
#[verifier::external_body]
pub(crate) fn sharing_mode_concurrent() -> (raw: i32)
    ensures
        raw == SHARING_MODE_CONCURRENT,
{
    ash::vk::SharingMode::CONCURRENT.as_raw()
}

/// The 32-bit boolean that stands for true.
pub const TRUE: u32 = 1;

/// Trusted: `ash::vk::TRUE` is 1.
#[verifier::external_body]
pub(crate) fn bool32_true() -> (raw: u32)
    ensures
        raw == TRUE,
{
    ash::vk::TRUE
}

/// An image is rendered to as a colour attachment.
pub const IMAGE_USAGE_COLOR_ATTACHMENT: u32 = 0x10;

/// Trusted: `ash::vk::ImageUsageFlags::COLOR_ATTACHMENT` is bit 4.
#[verifier::external_body]
pub(crate) fn image_usage_color_attachment() -> (raw: u32)
    ensures
        raw == IMAGE_USAGE_COLOR_ATTACHMENT,
{
    ash::vk::ImageUsageFlags::COLOR_ATTACHMENT.as_raw()
}

/// The alpha channel is ignored when the image is put on screen.
pub const COMPOSITE_ALPHA_OPAQUE: u32 = 0x1;

/// Trusted: `ash::vk::CompositeAlphaFlagsKHR::OPAQUE` is bit 0.
#[verifier::external_body]
pub(crate) fn composite_alpha_opaque() -> (raw: u32)
    ensures
        raw == COMPOSITE_ALPHA_OPAQUE,
{
    ash::vk::CompositeAlphaFlagsKHR::OPAQUE.as_raw()
}

/// Portability drivers are listed among the devices.
pub const INSTANCE_CREATE_ENUMERATE_PORTABILITY: u32 = 0x1;

/// Trusted: `ash::vk::InstanceCreateFlags::ENUMERATE_PORTABILITY_KHR` is bit 0.
#[verifier::external_body]
pub(crate) fn instance_create_enumerate_portability() -> (raw: u32)
    ensures
        raw == INSTANCE_CREATE_ENUMERATE_PORTABILITY,
{
    ash::vk::InstanceCreateFlags::ENUMERATE_PORTABILITY_KHR.as_raw()
}

/// Messages that inform.
pub const DEBUG_SEVERITY_INFO: u32 = 0x10;

/// Trusted: `ash::vk::DebugUtilsMessageSeverityFlagsEXT::INFO` is bit 4.
#[verifier::external_body]
pub(crate) fn debug_severity_info() -> (raw: u32)
    ensures
        raw == DEBUG_SEVERITY_INFO,
{
    ash::vk::DebugUtilsMessageSeverityFlagsEXT::INFO.as_raw()
}

/// Messages that warn.
pub const DEBUG_SEVERITY_WARNING: u32 = 0x100;

/// Trusted: `ash::vk::DebugUtilsMessageSeverityFlagsEXT::WARNING` is bit 8.
#[verifier::external_body]
pub(crate) fn debug_severity_warning() -> (raw: u32)
    ensures
        raw == DEBUG_SEVERITY_WARNING,
{
    ash::vk::DebugUtilsMessageSeverityFlagsEXT::WARNING.as_raw()
}

/// Messages that report an error.
pub const DEBUG_SEVERITY_ERROR: u32 = 0x1000;

/// Trusted: `ash::vk::DebugUtilsMessageSeverityFlagsEXT::ERROR` is bit 12.
#[verifier::external_body]
pub(crate) fn debug_severity_error() -> (raw: u32)
    ensures
        raw == DEBUG_SEVERITY_ERROR,
{
    ash::vk::DebugUtilsMessageSeverityFlagsEXT::ERROR.as_raw()
}

/// Messages on nothing in particular.
pub const DEBUG_TYPE_GENERAL: u32 = 0x1;

/// Trusted: `ash::vk::DebugUtilsMessageTypeFlagsEXT::GENERAL` is bit 0.
#[verifier::external_body]
pub(crate) fn debug_type_general() -> (raw: u32)
    ensures
        raw == DEBUG_TYPE_GENERAL,
{
    ash::vk::DebugUtilsMessageTypeFlagsEXT::GENERAL.as_raw()
}

/// Messages on a use of the API that its rules forbid.
pub const DEBUG_TYPE_VALIDATION: u32 = 0x2;

/// Trusted: `ash::vk::DebugUtilsMessageTypeFlagsEXT::VALIDATION` is bit 1.
#[verifier::external_body]
pub(crate) fn debug_type_validation() -> (raw: u32)
    ensures
        raw == DEBUG_TYPE_VALIDATION,
{
    ash::vk::DebugUtilsMessageTypeFlagsEXT::VALIDATION.as_raw()
}

/// Messages on a use of the API that may be slow.
pub const DEBUG_TYPE_PERFORMANCE: u32 = 0x4;

/// Trusted: `ash::vk::DebugUtilsMessageTypeFlagsEXT::PERFORMANCE` is bit 2.
#[verifier::external_body]
pub(crate) fn debug_type_performance() -> (raw: u32)
    ensures
        raw == DEBUG_TYPE_PERFORMANCE,
{
    ash::vk::DebugUtilsMessageTypeFlagsEXT::PERFORMANCE.as_raw()
}

/// Whether a queue family's capability mask has the graphics bit, bit 0.
pub open spec fn spec_supports_graphics(queue_flags: u32) -> bool {
    queue_flags & 1u32 == 1u32
}

/// Trusted: `ash::vk::QueueFlags::contains` tests that every bit of its
/// argument is set in the receiver, and `ash::vk::QueueFlags::GRAPHICS` is
/// bit 0.
#[verifier::external_body]
pub(crate) fn supports_graphics(queue_flags: u32) -> (graphics: bool)
    ensures
        graphics == spec_supports_graphics(queue_flags),
{
    ash::vk::QueueFlags::from_raw(queue_flags).contains(ash::vk::QueueFlags::GRAPHICS)
}

} // verus!
