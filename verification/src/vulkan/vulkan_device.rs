//! Choosing a physical device by rating, and the logical device to create on
//! it.

use vstd::prelude::*;
use crate::names::{clone_names, contains_name, khr_swapchain, lemma_texts_push, lists, texts};
use crate::vk::{
    bool32_true, physical_device_type_discrete_gpu, spec_api_version_major,
    spec_api_version_minor, spec_api_version_patch, supports_graphics, DeviceCreateInfo,
    DeviceQueueCreateInfo, PhysicalDeviceFeatures, PhysicalDeviceProperties, QueueFamily,
    PHYSICAL_DEVICE_TYPE_DISCRETE_GPU, TRUE,
};
use crate::vulkan::{graphics_capable, is_last_match, lemma_last_match_found, present_capable};

verus! {

/// The queue families that the renderer submits to and presents from.
#[derive(Clone, Copy, Debug, Default, PartialEq, Eq, Structural)]
pub struct QueueFamilyIndicies {
    pub graphics_index: Option<u32>,
    pub present_queue: Option<u32>,
}

impl QueueFamilyIndicies {
    /// Both a graphics and a present family are known.
    pub open spec fn spec_has_all(self) -> bool {
        self.present_queue is Some && self.graphics_index is Some
    }

    /// The families to request queues from: the graphics family where it is
    /// known, then the present family where it is known.
    pub open spec fn spec_families(self) -> Seq<u32> {
        let graphics = if self.graphics_index is Some {
            seq![self.graphics_index->0]
        } else {
            Seq::<u32>::empty()
        };
        let present = if self.present_queue is Some {
            seq![self.present_queue->0]
        } else {
            Seq::<u32>::empty()
        };
        graphics + present
    }

    /// Picks, among a device's queue families in the order the driver lists
    /// them, the last one that accepts graphics commands and the last one
    /// that can present.
    pub fn get_all(queue_families: &Vec<QueueFamily>) -> (indicies: Self)
        requires
            queue_families.len() <= u32::MAX,
        ensures
            is_last_match(
                indicies.graphics_index,
                queue_families@,
                |f: QueueFamily| graphics_capable(f),
            ),
            is_last_match(
                indicies.present_queue,
                queue_families@,
                |f: QueueFamily| present_capable(f),
            ),
    {
        let mut indicies = QueueFamilyIndicies { graphics_index: None, present_queue: None };
        let mut index: usize = 0;
        while index < queue_families.len()
            invariant
                index <= queue_families.len() <= u32::MAX,
                is_last_match(
                    indicies.graphics_index,
                    queue_families@.take(index as int),
                    |f: QueueFamily| graphics_capable(f),
                ),
                is_last_match(
                    indicies.present_queue,
                    queue_families@.take(index as int),
                    |f: QueueFamily| present_capable(f),
                ),
            decreases queue_families.len() - index,
        {
            let family = queue_families[index];
            if supports_graphics(family.queue_flags) {
                indicies.graphics_index = Some(index as u32);
            }
            if family.present_support {
                indicies.present_queue = Some(index as u32);
            }
            index += 1;
        }
        assert(queue_families@.take(index as int) == queue_families@);
        indicies
    }

    /// One request for `queue_count` queues from each family to request
    /// queues from.
    pub fn get_queue_create_infos(&self, queue_count: u32) -> (create_infos: Vec<
        DeviceQueueCreateInfo,
    >)
        ensures
            create_infos@ == self.spec_families().map_values(
                |family: u32| DeviceQueueCreateInfo { queue_family_index: family, queue_count },
            ),
    {
        let mut families: Vec<u32> = Vec::new();
        if self.graphics_index.is_some() {
            families.push(self.graphics_index.unwrap());
        }
        if self.present_queue.is_some() {
            families.push(self.present_queue.unwrap());
        }
        assert(families@ =~= self.spec_families());
        let mut create_infos: Vec<DeviceQueueCreateInfo> = Vec::new();
        let mut i: usize = 0;
        while i < families.len()
            invariant
                i <= families.len(),
                create_infos@.len() == i,
                forall|j: int|
                    0 <= j < i ==> create_infos@[j] == (DeviceQueueCreateInfo {
                        queue_family_index: families@[j],
                        queue_count,
                    }),
            decreases families.len() - i,
        {
            create_infos.push(
                DeviceQueueCreateInfo { queue_family_index: families[i], queue_count },
            );
            i += 1;
        }
        assert(create_infos@ =~= self.spec_families().map_values(
            |family: u32| DeviceQueueCreateInfo { queue_family_index: family, queue_count },
        ));
        create_infos
    }

    /// Whether both a graphics and a present family are known.
    pub fn has_all(&self) -> (all: bool)
        ensures
            all == self.spec_has_all(),
    {
        self.present_queue.is_some() && self.graphics_index.is_some()
    }
}

/// What the driver reports of one physical device, with its queue families'
/// support for the renderer's surface.
#[derive(Clone, Debug, PartialEq, Eq)]
pub struct PhysicalDeviceReport {
    pub properties: PhysicalDeviceProperties,
    pub features: PhysicalDeviceFeatures,
    /// The names of the device extensions.
    pub extension_properties: Vec<String>,
    pub queue_families: Vec<QueueFamily>,
}

/// The physical device that was chosen.
#[derive(Clone, Debug, PartialEq, Eq)]
pub struct VulkanPhysicalDevice {
    /// Where the device stands among those the driver lists.
    pub physical_device: usize,
    pub properties: PhysicalDeviceProperties,
    pub features: PhysicalDeviceFeatures,
    pub queue_family_indicies: QueueFamilyIndicies,
}

/// A device's name and the version of the API that its driver speaks.
#[derive(Clone, Debug, PartialEq, Eq)]
pub struct DeviceInfo {
    pub device_name: String,
    pub major: u32,
    pub minor: u32,
    pub patch: u32,
}

/// The device extensions the renderer cannot do without.
pub open spec fn spec_device_extensions() -> Seq<Seq<char>> {
    seq!["VK_KHR_swapchain"@]
}

/// The names of the device extensions the renderer cannot do without.
pub fn get_device_extensions() -> (names: Vec<String>)
    ensures
        texts(names@) == spec_device_extensions(),
{
    let mut names: Vec<String> = Vec::new();
    let swapchain = khr_swapchain();
    proof {
        lemma_texts_push(names@, swapchain);
    }
    names.push(swapchain);
    assert(texts(names@) =~= spec_device_extensions());
    names
}

impl PhysicalDeviceReport {
    /// The device has a graphics and a present queue family.
    pub open spec fn has_all_queues(self) -> bool {
        &&& exists|i: int|
            0 <= i < self.queue_families@.len() && graphics_capable(
                #[trigger] self.queue_families@[i],
            )
        &&& exists|i: int|
            0 <= i < self.queue_families@.len() && present_capable(
                #[trigger] self.queue_families@[i],
            )
    }

    /// The device has geometry shaders, a graphics and a present queue
    /// family, and every extension the renderer cannot do without.
    pub open spec fn spec_suitable(self) -> bool {
        &&& self.features.geometry_shader == TRUE
        &&& self.has_all_queues()
        &&& forall|k: int|
            0 <= k < spec_device_extensions().len() ==> lists(
                self.extension_properties@,
                #[trigger] spec_device_extensions()[k],
            )
    }

    /// Zero for a device that does not suit; else the largest side of a
    /// two-dimensional image that the device can hold, and a thousand more
    /// for a discrete GPU.
    pub open spec fn spec_rating(self) -> int {
        if !self.spec_suitable() {
            0
        } else if self.properties.device_type == PHYSICAL_DEVICE_TYPE_DISCRETE_GPU {
            1000 + self.properties.max_image_dimension2_d
        } else {
            self.properties.max_image_dimension2_d as int
        }
    }

    /// The report is one that can be rated: the queue families can be
    /// numbered in 32 bits and the rating fits in 32 bits.
    pub open spec fn wf(self) -> bool {
        &&& self.queue_families@.len() <= u32::MAX
        &&& self.spec_rating() <= u32::MAX
    }
}

/// `chosen` is the first among the devices with the highest rating, where
/// that rating is above zero.
pub open spec fn is_best(devices: Seq<PhysicalDeviceReport>, chosen: Option<int>) -> bool {
    match chosen {
        Some(best) => {
            &&& 0 <= best < devices.len()
            &&& devices[best].spec_rating() > 0
            &&& forall|j: int|
                0 <= j < devices.len() ==> (#[trigger] devices[j]).spec_rating()
                    <= devices[best].spec_rating()
            &&& forall|j: int|
                0 <= j < best ==> (#[trigger] devices[j]).spec_rating()
                    < devices[best].spec_rating()
        },
        None => forall|j: int|
            0 <= j < devices.len() ==> (#[trigger] devices[j]).spec_rating() == 0,
    }
}

/// A copy of a device's properties.
fn clone_properties(properties: &PhysicalDeviceProperties) -> (copy: PhysicalDeviceProperties)
    ensures
        copy == *properties,
{
    let device_name = match &properties.device_name {
        Some(name) => Some(name.clone()),
        None => None,
    };
    PhysicalDeviceProperties {
        api_version: properties.api_version,
        device_type: properties.device_type,
        device_name,
        max_image_dimension2_d: properties.max_image_dimension2_d,
    }
}

impl VulkanPhysicalDevice {
    /// Rates every device and chooses the first with the highest rating.
    /// `None` where no device is rated above zero.
    pub fn select(physical_devices: &Vec<PhysicalDeviceReport>) -> (selected: Option<Self>)
        requires
            forall|i: int|
                0 <= i < physical_devices@.len() ==> (#[trigger] physical_devices@[i]).wf(),
        ensures
            is_best(
                physical_devices@,
                match selected {
                    Some(device) => Some(device.physical_device as int),
                    None => None,
                },
            ),
            selected matches Some(device) ==> {
                let report = physical_devices@[device.physical_device as int];
                &&& device.properties == report.properties
                &&& device.features == report.features
                &&& is_last_match(
                    device.queue_family_indicies.graphics_index,
                    report.queue_families@,
                    |f: QueueFamily| graphics_capable(f),
                )
                &&& is_last_match(
                    device.queue_family_indicies.present_queue,
                    report.queue_families@,
                    |f: QueueFamily| present_capable(f),
                )
                &&& device.queue_family_indicies.spec_has_all()
            },
    {
        let mut selected_device: Option<usize> = None;
        let mut highest_rating: u32 = 0;
        let mut i: usize = 0;
        while i < physical_devices.len()
            invariant
                i <= physical_devices.len(),
                forall|k: int|
                    0 <= k < physical_devices@.len() ==> (#[trigger] physical_devices@[k]).wf(),
                is_best(
                    physical_devices@.take(i as int),
                    match selected_device {
                        Some(best) => Some(best as int),
                        None => None,
                    },
                ),
                selected_device matches Some(best) ==> highest_rating
                    == physical_devices@[best as int].spec_rating(),
                selected_device is None ==> highest_rating == 0,
            decreases physical_devices.len() - i,
        {
            let current_rating = Self::rate_device(&physical_devices[i]);
            proof {
                let before = physical_devices@.take(i as int);
                let now = physical_devices@.take(i as int + 1);
                assert(forall|j: int| 0 <= j < i ==> now[j] == before[j]);
                assert(now[i as int] == physical_devices@[i as int]);
            }
            if current_rating > highest_rating {
                highest_rating = current_rating;
                selected_device = Some(i);
            }
            i += 1;
        }
        assert(physical_devices@.take(i as int) =~= physical_devices@);
        match selected_device {
            None => None,
            Some(best) => {
                let report = &physical_devices[best];
                let queue_family_indicies = QueueFamilyIndicies::get_all(&report.queue_families);
                proof {
                    lemma_has_all(report.queue_families@, queue_family_indicies);
                }
                Some(
                    VulkanPhysicalDevice {
                        physical_device: best,
                        properties: clone_properties(&report.properties),
                        features: report.features,
                        queue_family_indicies,
                    },
                )
            },
        }
    }

    /// The device's name, `Unknown` where it has none, and the version of
    /// the API that its driver speaks, field by field.
    pub fn get_device_info(&self) -> (info: DeviceInfo)
        ensures
            info.device_name@ == match self.properties.device_name {
                Some(name) => name@,
                None => "Unknown"@,
            },
            info.major == spec_api_version_major(self.properties.api_version),
            info.minor == spec_api_version_minor(self.properties.api_version),
            info.patch == spec_api_version_patch(self.properties.api_version),
    {
        let api_version = self.properties.api_version;
        let device_name = match &self.properties.device_name {
            Some(name) => name.clone(),
            None => "Unknown".to_owned(),
        };
        DeviceInfo {
            device_name,
            major: ash::vk::api_version_major(api_version),
            minor: ash::vk::api_version_minor(api_version),
            patch: ash::vk::api_version_patch(api_version),
        }
    }

    /// The rating of a device by what the driver reports of it.
    pub fn rate_device(report: &PhysicalDeviceReport) -> (rating: u32)
        requires
            report.wf(),
        ensures
            rating == report.spec_rating(),
    {
        let mut rating: u32 = 0u32;
        if !Self::is_suitable(report) {
            return rating;
        }
        if report.properties.device_type == physical_device_type_discrete_gpu() {
            rating += 1000;
        }
        rating += report.properties.max_image_dimension2_d;
        rating
    }

    /// Whether a device has what the renderer cannot do without.
    pub fn is_suitable(report: &PhysicalDeviceReport) -> (suitable: bool)
        requires
            report.queue_families@.len() <= u32::MAX,
        ensures
            suitable == report.spec_suitable(),
    {
        let queue_family_indicies = QueueFamilyIndicies::get_all(&report.queue_families);
        proof {
            lemma_has_all(report.queue_families@, queue_family_indicies);
        }
        report.features.geometry_shader == bool32_true() && queue_family_indicies.has_all()
            && Self::check_device_extension_support(&report.extension_properties)
    }

    /// Whether the device has every extension the renderer cannot do
    /// without.
    pub fn check_device_extension_support(extension_properties: &Vec<String>) -> (supported: bool)
        ensures
            supported == forall|k: int|
                0 <= k < spec_device_extensions().len() ==> lists(
                    extension_properties@,
                    #[trigger] spec_device_extensions()[k],
                ),
    {
        let required_extensions = get_device_extensions();
        let mut k: usize = 0;
        while k < required_extensions.len()
            invariant
                k <= required_extensions.len(),
                texts(required_extensions@) == spec_device_extensions(),
                forall|j: int|
                    0 <= j < k ==> lists(
                        extension_properties@,
                        #[trigger] spec_device_extensions()[j],
                    ),
            decreases required_extensions.len() - k,
        {
            assert(texts(required_extensions@)[k as int] == required_extensions@[k as int]@);
            if !contains_name(extension_properties, &required_extensions[k]) {
                return false;
            }
            k += 1;
        }
        true
    }
}

/// Of two devices that suit and can hold images of the same size, a discrete
/// GPU is rated above one that is not.
pub proof fn lemma_discrete_is_preferred(discrete: PhysicalDeviceReport, other: PhysicalDeviceReport)
    requires
        discrete.spec_suitable(),
        other.spec_suitable(),
        discrete.properties.device_type == PHYSICAL_DEVICE_TYPE_DISCRETE_GPU,
        other.properties.device_type != PHYSICAL_DEVICE_TYPE_DISCRETE_GPU,
        discrete.properties.max_image_dimension2_d == other.properties.max_image_dimension2_d,
    ensures
        discrete.spec_rating() == other.spec_rating() + 1000,
{
}

/// The chosen families are both known exactly where the device has a
/// graphics and a present family.
pub proof fn lemma_has_all(families: Seq<QueueFamily>, indicies: QueueFamilyIndicies)
    requires
        is_last_match(indicies.graphics_index, families, |f: QueueFamily| graphics_capable(f)),
        is_last_match(indicies.present_queue, families, |f: QueueFamily| present_capable(f)),
    ensures
        indicies.spec_has_all() == ((exists|i: int|
            0 <= i < families.len() && graphics_capable(#[trigger] families[i])) && (exists|i: int|
            0 <= i < families.len() && present_capable(#[trigger] families[i]))),
{
    lemma_last_match_found(indicies.graphics_index, families, |f: QueueFamily| graphics_capable(f));
    lemma_last_match_found(indicies.present_queue, families, |f: QueueFamily| present_capable(f));
}

/// The logical device to create, and the families of its two queues.
#[derive(Clone, Debug, PartialEq, Eq)]
pub struct VulkanLogicalDevice {
    pub logical_device: DeviceCreateInfo,
    /// The family whose first queue takes the graphics commands.
    pub graphics_queue: u32,
    /// The family whose first queue presents.
    pub present_queue: u32,
}

impl VulkanLogicalDevice {
    /// The logical device with the extensions the renderer cannot do
    /// without.
    pub fn create(physical_device: &VulkanPhysicalDevice) -> (device: Self)
        requires
            physical_device.queue_family_indicies.spec_has_all(),
        ensures
            device.describes(*physical_device, spec_device_extensions()),
    {
        let empty: Vec<String> = Vec::new();
        assert(texts(empty@) =~= Seq::<Seq<char>>::empty());
        Self::create_compatability(physical_device, &empty)
    }

    /// `self` is the logical device on `physical_device` with the given
    /// extensions: one queue from the graphics and one from the present
    /// family, every feature that the physical device supports, and the
    /// first queue of each of the two families as graphics and as present
    /// queue.
    pub open spec fn describes(
        self,
        physical_device: VulkanPhysicalDevice,
        extensions: Seq<Seq<char>>,
    ) -> bool {
        let indicies = physical_device.queue_family_indicies;
        &&& self.logical_device.queue_create_infos@ == seq![
            DeviceQueueCreateInfo { queue_family_index: indicies.graphics_index->0, queue_count: 1 },
            DeviceQueueCreateInfo { queue_family_index: indicies.present_queue->0, queue_count: 1 },
        ]
        &&& texts(self.logical_device.enabled_extension_names@) == extensions
        &&& self.logical_device.enable_supported_features
        &&& self.graphics_queue == indicies.graphics_index->0
        &&& self.present_queue == indicies.present_queue->0
    }

    /// The logical device with the given extensions in place of the
    /// required ones, unless none is given.
    pub fn create_compatability(
        physical_device: &VulkanPhysicalDevice,
        extension_names: &Vec<String>,
    ) -> (device: Self)
        requires
            physical_device.queue_family_indicies.spec_has_all(),
        ensures
            device.describes(
                *physical_device,
                if extension_names@.len() > 0 {
                    texts(extension_names@)
                } else {
                    spec_device_extensions()
                },
            ),
    {
        let indicies = &physical_device.queue_family_indicies;
        let qcinfos = indicies.get_queue_create_infos(1);
        assert(qcinfos@ =~= seq![
            DeviceQueueCreateInfo { queue_family_index: indicies.graphics_index->0, queue_count: 1 },
            DeviceQueueCreateInfo { queue_family_index: indicies.present_queue->0, queue_count: 1 },
        ]);
        let mut enabled_extension_names = get_device_extensions();
        if !extension_names.is_empty() {
            enabled_extension_names = clone_names(extension_names);
        }
        VulkanLogicalDevice {
            logical_device: DeviceCreateInfo {
                queue_create_infos: qcinfos,
                enabled_extension_names,
                enable_supported_features: true,
            },
            graphics_queue: indicies.graphics_index.unwrap(),
            present_queue: indicies.present_queue.unwrap(),
        }
    }
}

} // verus!
