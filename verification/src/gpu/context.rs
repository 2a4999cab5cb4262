//! The instance and the physical device in use: which extensions and
//! diagnostics the instance gets, and which device is picked.

use crate::gpu::version::{get_version, version_of};
use crate::gpu::vk::{API_VERSION_1_3, DEVICE_TYPE_DISCRETE_GPU};
use vstd::prelude::*;

verus! {

pub const SEVERITY_INFO: u32 = 0x10;

pub const SEVERITY_WARNING: u32 = 0x100;

pub const SEVERITY_ERROR: u32 = 0x1000;

pub const MESSAGE_GENERAL: u32 = 0x1;

pub const MESSAGE_VALIDATION: u32 = 0x2;

pub const MESSAGE_PERFORMANCE: u32 = 0x4;

/// How much the instance is to report of its use.
#[derive(Clone, Copy, Debug, PartialEq, Eq, Structural)]
pub enum Diagnostics {
    /// Nothing.
    Off,
    /// General and validation messages.
    Validation,
    /// General, validation and performance messages.
    ValidationAndPerformance,
}

/// The window system that surfaces come from.
#[derive(Clone, Copy, Debug, PartialEq, Eq, Structural)]
pub enum WindowSystem {
    Win32,
    Wayland,
    /// A system for which no surface can be made.
    Other,
}

/// An instance extension.
#[derive(Clone, Copy, Debug, PartialEq, Eq, Structural)]
pub enum InstanceExtension {
    Surface,
    Win32Surface,
    WaylandSurface,
    DebugUtils,
}

/// One memory type of a physical device.
#[derive(Clone, Copy, Debug, PartialEq, Eq, Structural)]
pub struct MemoryType {
    pub property_flags: u32,
    pub heap_index: u32,
}

/// A physical device as the instance lists it.
#[derive(Clone, Copy, Debug, PartialEq, Eq, Structural)]
pub struct PhysicalDevice {
    pub handle: u64,
    pub device_type: i32,
}

/// What an instance is created from. Application and engine go by the same
/// name and version.
pub struct InstanceCreateInfo {
    pub api_version: u32,
    pub name: &'static str,
    pub version: u32,
    pub extensions: Vec<InstanceExtension>,
    pub validation_layer: bool,
}

/// What a debug messenger is created from.
#[derive(Clone, Copy, Debug, PartialEq, Eq, Structural)]
pub struct DebugMessengerCreateInfo {
    pub message_severity: u32,
    pub message_type: u32,
}

/// How loud a message is logged.
#[derive(Clone, Copy, Debug, PartialEq, Eq, Structural)]
pub enum LogLevel {
    Error,
    Warn,
    Info,
}

/// The answer to a debug message: at which level to log it, if at all, and
/// whether the call that caused it is to be skipped.
#[derive(Clone, Copy, Debug, PartialEq, Eq, Structural)]
pub struct DebugVerdict {
    pub level: Option<LogLevel>,
    pub skip_call: bool,
}

/// The selected physical device and its table of memory types.
pub struct KewContext {
    pub physical: u64,
    pub mem_properties: Vec<MemoryType>,
}

/// The extensions of an instance for `system` with `diagnostics`: the
/// surface extension, that of the window system where it has one, and the
/// debug extension where anything is to be reported.
pub open spec fn extensions_of(system: WindowSystem, diagnostics: Diagnostics) -> Seq<
    InstanceExtension,
> {
    seq![InstanceExtension::Surface] + (match system {
        WindowSystem::Win32 => seq![InstanceExtension::Win32Surface],
        WindowSystem::Wayland => seq![InstanceExtension::WaylandSurface],
        WindowSystem::Other => Seq::<InstanceExtension>::empty(),
    }) + (if diagnostics == Diagnostics::Off {
        Seq::<InstanceExtension>::empty()
    } else {
        seq![InstanceExtension::DebugUtils]
    })
}

/// The device to use: the first discrete one listed, else the first
/// listed, if any is listed.
pub open spec fn picks_device(devices: Seq<PhysicalDevice>, pick: Option<PhysicalDevice>) -> bool {
    if devices.len() == 0 {
        pick.is_none()
    } else if exists|i: int|
        0 <= i < devices.len() && (#[trigger] devices[i]).device_type == DEVICE_TYPE_DISCRETE_GPU {
        exists|i: int|
            {
                &&& 0 <= i < devices.len()
                &&& pick == Some(devices[i])
                &&& devices[i].device_type == DEVICE_TYPE_DISCRETE_GPU
                &&& forall|j: int|
                    0 <= j < i ==> (#[trigger] devices[j]).device_type != DEVICE_TYPE_DISCRETE_GPU
            }
    } else {
        pick == Some(devices[0])
    }
}

impl KewContext {
    /// Records the physical device picked and its memory types.
    pub fn new(physical: u64, mem_properties: Vec<MemoryType>) -> (r: Self)
        ensures
            r.physical == physical,
            r.mem_properties == mem_properties,
    {
        KewContext { physical, mem_properties }
    }

    /// The description of the instance for the package version that
    /// `version` states, if it states one.
    pub fn create_instance(version: &[u8], system: WindowSystem, diagnostics: Diagnostics) -> (r:
        Option<InstanceCreateInfo>)
        ensures
            r.is_some() == version_of(version@).is_some(),
            r matches Some(info) ==> {
                &&& info.api_version == API_VERSION_1_3
                &&& info.name@ == "kew"@
                &&& info.version == version_of(version@).unwrap()
                &&& info.extensions@ == extensions_of(system, diagnostics)
                &&& info.validation_layer == (diagnostics != Diagnostics::Off)
            },
    {
        match get_version(version) {
            None => None,
            Some(packed) => Some(
                InstanceCreateInfo {
                    api_version: API_VERSION_1_3,
                    name: "kew",
                    version: packed,
                    extensions: Self::get_extensions(system, diagnostics),
                    validation_layer: match diagnostics {
                        Diagnostics::Off => false,
                        _ => true,
                    },
                },
            ),
        }
    }

    /// The extensions of the instance.
    pub fn get_extensions(system: WindowSystem, diagnostics: Diagnostics) -> (r: Vec<
        InstanceExtension,
    >)
        ensures
            r@ == extensions_of(system, diagnostics),
    {
        let mut extensions: Vec<InstanceExtension> = Vec::new();
        extensions.push(InstanceExtension::Surface);
        match system {
            WindowSystem::Win32 => extensions.push(InstanceExtension::Win32Surface),
            WindowSystem::Wayland => extensions.push(InstanceExtension::WaylandSurface),
            WindowSystem::Other => {},
        }
        match diagnostics {
            Diagnostics::Off => {},
            _ => extensions.push(InstanceExtension::DebugUtils),
        }
        assert(extensions@ =~= extensions_of(system, diagnostics));
        extensions
    }

    /// The device to use among those listed.
    pub fn pick_physical_device(devices: &[PhysicalDevice]) -> (r: Option<PhysicalDevice>)
        ensures
            picks_device(devices@, r),
    {
        if devices.len() == 0 {
            return None;
        }
        let mut i: usize = 0;
        while i < devices.len()
            invariant
                i <= devices@.len(),
                forall|j: int|
                    0 <= j < i ==> (#[trigger] devices@[j]).device_type
                        != DEVICE_TYPE_DISCRETE_GPU,
            decreases devices@.len() - i,
        {
            if devices[i].device_type == DEVICE_TYPE_DISCRETE_GPU {
                return Some(devices[i]);
            }
            i += 1;
        }
        Some(devices[0])
    }

    /// The description of the debug messenger, where anything is to be
    /// reported: warnings and errors, of the kinds that `diagnostics`
    /// names.
    pub fn create_debug_utils(diagnostics: Diagnostics) -> (r: Option<DebugMessengerCreateInfo>)
        ensures
            r == (match diagnostics {
                Diagnostics::Off => None,
                Diagnostics::Validation => Some(
                    DebugMessengerCreateInfo {
                        message_severity: SEVERITY_ERROR | SEVERITY_WARNING,
                        message_type: MESSAGE_GENERAL | MESSAGE_VALIDATION,
                    },
                ),
                Diagnostics::ValidationAndPerformance => Some(
                    DebugMessengerCreateInfo {
                        message_severity: SEVERITY_ERROR | SEVERITY_WARNING,
                        message_type: MESSAGE_GENERAL | MESSAGE_VALIDATION | MESSAGE_PERFORMANCE,
                    },
                ),
            }),
    {
        match diagnostics {
            Diagnostics::Off => None,
            Diagnostics::Validation => Some(
                DebugMessengerCreateInfo {
                    message_severity: SEVERITY_ERROR | SEVERITY_WARNING,
                    message_type: MESSAGE_GENERAL | MESSAGE_VALIDATION,
                },
            ),
            Diagnostics::ValidationAndPerformance => Some(
                DebugMessengerCreateInfo {
                    message_severity: SEVERITY_ERROR | SEVERITY_WARNING,
                    message_type: MESSAGE_GENERAL | MESSAGE_VALIDATION | MESSAGE_PERFORMANCE,
                },
            ),
        }
    }
}

/// The answer to a debug message of severity `s_flags`: errors, warnings
/// and information are logged as such, anything else is not logged, and
/// the call that caused the message is never skipped.
pub fn vulkan_debug_callback(s_flags: u32) -> (r: DebugVerdict)
    ensures
        !r.skip_call,
        r.level == (if s_flags == SEVERITY_ERROR {
            Some(LogLevel::Error)
        } else if s_flags == SEVERITY_INFO {
            Some(LogLevel::Info)
        } else if s_flags == SEVERITY_WARNING {
            Some(LogLevel::Warn)
        } else {
            None
        }),
{
    let level = if s_flags == SEVERITY_ERROR {
        Some(LogLevel::Error)
    } else if s_flags == SEVERITY_INFO {
        Some(LogLevel::Info)
    } else if s_flags == SEVERITY_WARNING {
        Some(LogLevel::Warn)
    } else {
        None
    };
    DebugVerdict { level, skip_call: false }
}

} // verus!
