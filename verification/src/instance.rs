//! Instance setup decisions: the extension and layer lists, the packed API
//! version, and the diagnostic-callback configuration.
//!
//! The window system reports which presentation extensions it needs; the
//! initializer appends the debug-utils extension so the diagnostic callback
//! can be installed, asks for the validation layer, and — in non-production
//! builds only — registers a messenger for errors, warnings and
//! informational messages of every category.

use vstd::prelude::*;

verus! {

/// The instance extension list: every extension the window system
/// requires, in order, followed by the debug-utils extension name that the
/// caller supplies.
pub fn instance_extensions(required: Vec<String>, debug_utils: String) -> (r: Vec<String>)
    ensures
        r@.len() == required@.len() + 1,
        forall|i: int| 0 <= i < required@.len() ==> r@[i] == required@[i],
        r@[required@.len() as int] == debug_utils,
{
    let mut r = required;
    r.push(debug_utils);
    r
}

/// Pack an API version the way the driver interface does: variant, major,
/// minor and patch in fields of 3, 7, 10 and 12 bits.
pub fn make_api_version(variant: u32, major: u32, minor: u32, patch: u32) -> (r: u32)
    requires
        variant < 8,
        major < 128,
        minor < 1024,
        patch < 4096,
    ensures
        r == variant * 0x2000_0000 + major * 0x40_0000 + minor * 0x1000 + patch,
{
    variant * 0x2000_0000 + major * 0x40_0000 + minor * 0x1000 + patch
}

/// The message-severity bit for errors, as the driver interface numbers it.
pub const DEBUG_SEVERITY_ERROR: u32 = 0x1000;

/// The message-severity bit for warnings.
pub const DEBUG_SEVERITY_WARNING: u32 = 0x100;

/// The message-severity bit for informational messages.
pub const DEBUG_SEVERITY_INFO: u32 = 0x10;

/// The message-category bit for general messages.
pub const DEBUG_TYPE_GENERAL: u32 = 1;

/// The message-category bit for validation messages.
pub const DEBUG_TYPE_VALIDATION: u32 = 2;

/// The message-category bit for performance messages.
pub const DEBUG_TYPE_PERFORMANCE: u32 = 4;

/// What the diagnostic messenger listens to.
#[derive(Clone, Copy, PartialEq, Eq, Structural, Debug)]
pub struct DebugMessengerConfig {
    pub severities: u32,
    pub kinds: u32,
}

/// Decide whether to install the diagnostic messenger: only when
/// validation is enabled, and then for errors, warnings and informational
/// messages of every category.
pub fn debug_messenger_config(validation_enabled: bool) -> (r: Option<DebugMessengerConfig>)
    ensures
        r is Some <==> validation_enabled,
        r matches Some(c) ==> {
            &&& c.severities == DEBUG_SEVERITY_ERROR | DEBUG_SEVERITY_WARNING
                | DEBUG_SEVERITY_INFO
            &&& c.kinds == DEBUG_TYPE_GENERAL | DEBUG_TYPE_VALIDATION | DEBUG_TYPE_PERFORMANCE
        },
{
    if validation_enabled {
        Some(
            DebugMessengerConfig {
                severities: DEBUG_SEVERITY_ERROR | DEBUG_SEVERITY_WARNING | DEBUG_SEVERITY_INFO,
                kinds: DEBUG_TYPE_GENERAL | DEBUG_TYPE_VALIDATION | DEBUG_TYPE_PERFORMANCE,
            },
        )
    } else {
        None
    }
}

} // verus!
