//! The instance to create, with its extensions and layers, and the debug
//! messenger that goes with it in a debugging build.

use vstd::prelude::*;
use crate::names::{
    ext_debug_utils, khr_get_display_properties2, khr_portability_enumeration, khr_surface,
    khr_win32_surface, khr_xcb_surface, khronos_validation_layer, lemma_texts_push,
    mvk_macos_surface, texts,
};
use crate::vk::{
    debug_severity_error, debug_severity_info, debug_severity_warning, debug_type_general,
    debug_type_performance, debug_type_validation, instance_create_enumerate_portability,
    api_version_1_0, API_VERSION_1_0, DebugUtilsMessengerCreateInfoEXT, InstanceCreateInfo,
    DEBUG_SEVERITY_ERROR, DEBUG_SEVERITY_INFO, DEBUG_SEVERITY_WARNING, DEBUG_TYPE_GENERAL,
    DEBUG_TYPE_PERFORMANCE, DEBUG_TYPE_VALIDATION, INSTANCE_CREATE_ENUMERATE_PORTABILITY,
};
use crate::vulkan::resources::{spec_creation_order, Resource};

verus! {

/// The operating system that the renderer is built for.
#[derive(Clone, Copy, Debug, PartialEq, Eq, Structural)]
pub enum Platform {
    Windows,
    MacOs,
    Ios,
    Linux,
    Other,
}

impl Platform {
    /// The platform's driver sits on top of another graphics API, and has
    /// to be asked for by name.
    pub open spec fn needs_portability(self) -> bool {
        self == Platform::MacOs || self == Platform::Ios
    }
}

/// The messenger reports errors, warnings and information.
pub open spec fn spec_message_severity() -> u32 {
    DEBUG_SEVERITY_ERROR | DEBUG_SEVERITY_WARNING | DEBUG_SEVERITY_INFO
}

/// The messenger reports general, validation and performance messages.
pub open spec fn spec_message_type() -> u32 {
    DEBUG_TYPE_GENERAL | DEBUG_TYPE_VALIDATION | DEBUG_TYPE_PERFORMANCE
}

/// The two masks as numbers.
pub proof fn lemma_message_masks()
    ensures
        spec_message_severity() == 0x1110,
        spec_message_type() == 0x7,
{
    assert(0x1000u32 | 0x100u32 | 0x10u32 == 0x1110u32) by (bit_vector);
    assert(0x1u32 | 0x2u32 | 0x4u32 == 0x7u32) by (bit_vector);
}

/// The surface extensions to fall back on where the window system names
/// none: the surface extension, and the one for the platform's windows.
pub open spec fn fallback_surface_extensions(platform: Platform) -> Seq<Seq<char>> {
    match platform {
        Platform::Windows => seq!["VK_KHR_surface"@, "VK_KHR_win32_surface"@],
        Platform::MacOs => seq!["VK_KHR_surface"@, "VK_MVK_macos_surface"@],
        Platform::Linux => seq!["VK_KHR_surface"@, "VK_KHR_xcb_surface"@],
        _ => seq!["VK_KHR_surface"@],
    }
}

/// The extensions that the platform's driver needs in order to be found.
pub open spec fn compatability_extensions(platform: Platform) -> Seq<Seq<char>> {
    if platform.needs_portability() {
        seq!["VK_KHR_portability_enumeration"@, "VK_KHR_get_display_properties2"@]
    } else {
        Seq::empty()
    }
}

/// The extensions of the instance: those the window system requires, or the
/// fallback; then the debugging extension in a debugging build; then those
/// the platform's driver needs.
pub open spec fn spec_instance_extensions(
    required_extensions: Option<Vec<String>>,
    platform: Platform,
    debug: bool,
) -> Seq<Seq<char>> {
    let surface = match required_extensions {
        Some(extensions) => texts(extensions@),
        None => fallback_surface_extensions(platform),
    };
    let debugging = if debug {
        seq!["VK_EXT_debug_utils"@]
    } else {
        Seq::empty()
    };
    surface + debugging + compatability_extensions(platform)
}

/// The debug messenger to create.
#[derive(Clone, Copy, Debug, PartialEq, Eq, Structural)]
pub struct DebugUtilsExtension {
    pub callback: DebugUtilsMessengerCreateInfoEXT,
}

impl DebugUtilsExtension {
    /// A messenger for errors, warnings and information of every type, in a
    /// debugging build; none otherwise.
    pub fn create(debug: bool) -> (extension: Option<DebugUtilsExtension>)
        ensures
            extension == if debug {
                Some(
                    DebugUtilsExtension {
                        callback: DebugUtilsMessengerCreateInfoEXT {
                            message_severity: spec_message_severity(),
                            message_type: spec_message_type(),
                        },
                    },
                )
            } else {
                None
            },
    {
        if debug {
            let message_severity: u32 = debug_severity_error() | debug_severity_warning()
                | debug_severity_info();
            let message_type: u32 = debug_type_general() | debug_type_validation()
                | debug_type_performance();
            Some(
                DebugUtilsExtension {
                    callback: DebugUtilsMessengerCreateInfoEXT { message_severity, message_type },
                },
            )
        } else {
            None
        }
    }
}

/// The instance to create and the debug messenger that goes with it.
#[derive(Clone, Debug, PartialEq, Eq)]
pub struct VulkanInstance {
    pub vulkan_instance: InstanceCreateInfo,
    pub debug_utils_extension: Option<DebugUtilsExtension>,
}

impl VulkanInstance {
    /// What is created for this instance, in the order of creation: the
    /// renderer's chain of resources up to the logical device.
    pub open spec fn spec_creation_order(self) -> Seq<Resource> {
        if self.debug_utils_extension is Some {
            seq![
                Resource::Instance,
                Resource::DebugMessenger,
                Resource::Surface,
                Resource::PhysicalDevice,
                Resource::LogicalDevice,
            ]
        } else {
            seq![
                Resource::Instance,
                Resource::Surface,
                Resource::PhysicalDevice,
                Resource::LogicalDevice,
            ]
        }
    }

    /// Settings of the instance: the application's identity, API version
    /// 1.0, the validation layer and the debug messenger in a debugging
    /// build, and the extensions for the window system, for debugging and
    /// for the platform's driver. `required_extensions` is what the window
    /// system requires, `None` where it could not say.
    pub fn create(required_extensions: Option<Vec<String>>, platform: Platform, debug: bool) -> (instance:
        Self)
        ensures
            instance.vulkan_instance.application_name@ == "Learning Vulkan"@,
            instance.vulkan_instance.application_version == 0,
            instance.vulkan_instance.engine_name@ == "None"@,
            instance.vulkan_instance.engine_version == 0,
            instance.vulkan_instance.api_version == API_VERSION_1_0,
            instance.vulkan_instance.flags == if platform.needs_portability() {
                INSTANCE_CREATE_ENUMERATE_PORTABILITY
            } else {
                0
            },
            texts(instance.vulkan_instance.enabled_layer_names@) == if debug {
                seq!["VK_LAYER_KHRONOS_validation"@]
            } else {
                Seq::<Seq<char>>::empty()
            },
            texts(instance.vulkan_instance.enabled_extension_names@) == spec_instance_extensions(
                required_extensions,
                platform,
                debug,
            ),
            instance.debug_utils_extension == if debug {
                Some(
                    DebugUtilsExtension {
                        callback: DebugUtilsMessengerCreateInfoEXT {
                            message_severity: spec_message_severity(),
                            message_type: spec_message_type(),
                        },
                    },
                )
            } else {
                None
            },
    {
        let flags: u32 = match platform {
            Platform::MacOs | Platform::Ios => instance_create_enumerate_portability(),
            _ => 0,
        };
        let mut extension_names = match required_extensions {
            Some(extensions) => extensions,
            None => Self::fallback_extensions(platform),
        };
        let ghost surface = texts(extension_names@);
        if debug {
            let name = ext_debug_utils();
            proof {
                lemma_texts_push(extension_names@, name);
            }
            extension_names.push(name);
        }
        let ghost debugging = if debug {
            seq!["VK_EXT_debug_utils"@]
        } else {
            Seq::empty()
        };
        assert(texts(extension_names@) =~= surface + debugging);
        let mut compatability = Self::get_applicable_compatability_extensions(platform);
        let ghost before = extension_names@;
        let ghost added = compatability@;
        extension_names.append(&mut compatability);
        assert(texts(extension_names@) =~= texts(before) + texts(added));

        let mut layer_names: Vec<String> = Vec::new();
        assert(texts(layer_names@) =~= Seq::<Seq<char>>::empty());
        if debug {
            let layer = khronos_validation_layer();
            proof {
                lemma_texts_push(layer_names@, layer);
            }
            layer_names.push(layer);
        }
        VulkanInstance {
            vulkan_instance: InstanceCreateInfo {
                application_name: "Learning Vulkan".to_owned(),
                application_version: 0,
                engine_name: "None".to_owned(),
                engine_version: 0,
                api_version: api_version_1_0(),
                flags,
                enabled_layer_names: layer_names,
                enabled_extension_names: extension_names,
            },
            debug_utils_extension: DebugUtilsExtension::create(debug),
        }
    }

    /// The names of the fallback surface extensions.
    pub fn fallback_extensions(platform: Platform) -> (names: Vec<String>)
        ensures
            texts(names@) == fallback_surface_extensions(platform),
    {
        let mut names: Vec<String> = Vec::new();
        let surface = khr_surface();
        proof {
            lemma_texts_push(names@, surface);
        }
        names.push(surface);
        match platform {
            Platform::Windows => {
                let name = khr_win32_surface();
                proof {
                    lemma_texts_push(names@, name);
                }
                names.push(name);
            },
            Platform::MacOs => {
                let name = mvk_macos_surface();
                proof {
                    lemma_texts_push(names@, name);
                }
                names.push(name);
            },
            Platform::Linux => {
                let name = khr_xcb_surface();
                proof {
                    lemma_texts_push(names@, name);
                }
                names.push(name);
            },
            _ => {},
        }
        assert(texts(names@) =~= fallback_surface_extensions(platform));
        names
    }

    /// The names of the extensions that the platform's driver needs.
    pub fn get_applicable_compatability_extensions(platform: Platform) -> (support_extensions: Vec<
        String,
    >)
        ensures
            texts(support_extensions@) == compatability_extensions(platform),
    {
        let mut support_extensions: Vec<String> = Vec::new();
        match platform {
            Platform::MacOs | Platform::Ios => {
                let enumeration = khr_portability_enumeration();
                let display = khr_get_display_properties2();
                proof {
                    lemma_texts_push(support_extensions@, enumeration);
                    lemma_texts_push(support_extensions@.push(enumeration), display);
                }
                support_extensions.push(enumeration);
                support_extensions.push(display);
            },
            _ => {},
        }
        assert(texts(support_extensions@) =~= compatability_extensions(platform));
        support_extensions
    }

    /// What was created for this instance in the order in which to destroy
    /// it: the reverse of the order of creation.
    pub fn teardown_order(&self) -> (order: Vec<Resource>)
        ensures
            order@ == self.spec_creation_order().reverse(),
    {
        let mut order: Vec<Resource> = Vec::new();
        order.push(Resource::LogicalDevice);
        order.push(Resource::PhysicalDevice);
        order.push(Resource::Surface);
        if self.debug_utils_extension.is_some() {
            order.push(Resource::DebugMessenger);
        }
        order.push(Resource::Instance);
        assert(order@ =~= self.spec_creation_order().reverse());
        order
    }
}

/// What is created for an instance is the beginning of the renderer's chain
/// of resources, so that each of them comes after all that it is built on.
pub proof fn lemma_instance_chain(instance: VulkanInstance)
    ensures
        instance.spec_creation_order() == spec_creation_order(
            instance.debug_utils_extension is Some,
        ).take(instance.spec_creation_order().len() as int),
{
    let debug = instance.debug_utils_extension is Some;
    assert(instance.spec_creation_order() =~= spec_creation_order(debug).take(
        instance.spec_creation_order().len() as int,
    ));
}

} // verus!
