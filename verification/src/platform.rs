//! The constants and pure functions that the bootstrap takes from `vulkanalia`.
//! Every function here is believed, not proved: its body is one call into that
//! crate and its contract repeats what the crate's source shows.

use vstd::prelude::*;
use vulkanalia::vk;

verus! {

/// The text that `vulkanalia` writes for a set of message categories when it
/// is formatted with `{:?}`.
pub uninterp spec fn category_text(categories: u32) -> Seq<char>;

/// The text that `vulkanalia` writes for an error code of the platform.
pub uninterp spec fn platform_error_text(code: i32) -> Seq<char>;

/// The name held by `vk::EXT_DEBUG_UTILS_EXTENSION`.
#[verifier::external_body]
pub(crate) fn debug_utils_extension_name() -> (name: String)
    ensures
        name@ == "VK_EXT_debug_utils"@,
{
    vk::EXT_DEBUG_UTILS_EXTENSION.name.to_string_lossy().into_owned()
}

/// The name held by `vk::KHR_GET_PHYSICAL_DEVICE_PROPERTIES2_EXTENSION`.
#[verifier::external_body]
pub(crate) fn device_properties_extension_name() -> (name: String)
    ensures
        name@ == "VK_KHR_get_physical_device_properties2"@,
{
    vk::KHR_GET_PHYSICAL_DEVICE_PROPERTIES2_EXTENSION.name.to_string_lossy().into_owned()
}

/// The name held by `vk::KHR_PORTABILITY_ENUMERATION_EXTENSION`.
#[verifier::external_body]
pub(crate) fn portability_enumeration_extension_name() -> (name: String)
    ensures
        name@ == "VK_KHR_portability_enumeration"@,
{
    vk::KHR_PORTABILITY_ENUMERATION_EXTENSION.name.to_string_lossy().into_owned()
}

/// The bits of `vk::InstanceCreateFlags::ENUMERATE_PORTABILITY_KHR`: the
/// lowest bit alone.
#[verifier::external_body]
pub(crate) fn portability_enumeration_flag() -> (bits: u32)
    ensures
        bits == 1,
{
    vk::InstanceCreateFlags::ENUMERATE_PORTABILITY_KHR.bits()
}

/// The bits of `vk::InstanceCreateFlags::empty()`: none.
#[verifier::external_body]
pub(crate) fn no_creation_flags() -> (bits: u32)
    ensures
        bits == 0,
{
    vk::InstanceCreateFlags::empty().bits()
}

/// The bits of `vk::DebugUtilsMessageSeverityFlagsEXT::all()`: verbose, info,
/// warning and error together.
#[verifier::external_body]
pub(crate) fn all_severities() -> (bits: u32)
    ensures
        bits == 0x1111,
{
    vk::DebugUtilsMessageSeverityFlagsEXT::all().bits()
}

/// The bits of `vk::DebugUtilsMessageTypeFlagsEXT::all()`: the four
/// categories that the crate defines.
#[verifier::external_body]
pub(crate) fn all_categories() -> (bits: u32)
    ensures
        bits == 0xF,
{
    vk::DebugUtilsMessageTypeFlagsEXT::all().bits()
}

/// The bits of `vk::DebugUtilsMessageSeverityFlagsEXT::ERROR`.
#[verifier::external_body]
pub(crate) fn error_severity() -> (bits: u32)
    ensures
        bits == 0x1000,
{
    vk::DebugUtilsMessageSeverityFlagsEXT::ERROR.bits()
}

/// The bits of `vk::DebugUtilsMessageSeverityFlagsEXT::WARNING`.
#[verifier::external_body]
pub(crate) fn warning_severity() -> (bits: u32)
    ensures
        bits == 0x100,
{
    vk::DebugUtilsMessageSeverityFlagsEXT::WARNING.bits()
}

/// The bits of `vk::DebugUtilsMessageSeverityFlagsEXT::INFO`.
#[verifier::external_body]
pub(crate) fn info_severity() -> (bits: u32)
    ensures
        bits == 0x10,
{
    vk::DebugUtilsMessageSeverityFlagsEXT::INFO.bits()
}

/// `vk::FALSE`, which a debug callback returns so that the call that raised
/// the message is not aborted: zero.
#[verifier::external_body]
pub(crate) fn continue_verdict() -> (verdict: u32)
    ensures
        verdict == 0,
{
    vk::FALSE
}

/// `vk::QueueFlags::contains` with `vk::QueueFlags::GRAPHICS` on the known
/// bits of `flags`: whether the lowest bit, which is the graphics bit, is set.
#[verifier::external_body]
pub(crate) fn has_graphics_flag(flags: u32) -> (found: bool)
    ensures
        found == (flags & 1 == 1),
{
    vk::QueueFlags::from_bits_truncate(flags).contains(vk::QueueFlags::GRAPHICS)
}

/// `vk::make_version`: the three parts shifted into one word, the major part
/// from bit 22 and the minor part from bit 12.
#[verifier::external_body]
pub(crate) fn pack_version(major: u32, minor: u32, patch: u32) -> (packed: u32)
    ensures
        packed == (major << 22) | (minor << 12) | patch,
{
    vk::make_version(major, minor, patch)
}

/// `>=` between two values of `vulkanalia::Version`, which the crate derives
/// over the fields major, minor, patch in that order.
#[verifier::external_body]
pub(crate) fn version_reaches(
    major: u32,
    minor: u32,
    patch: u32,
    least_major: u32,
    least_minor: u32,
    least_patch: u32,
) -> (reached: bool)
    ensures
        reached == (major > least_major || (major == least_major && (minor > least_minor || (minor
            == least_minor && patch >= least_patch)))),
{
    vulkanalia::Version::new(major, minor, patch) >= vulkanalia::Version::new(
        least_major,
        least_minor,
        least_patch,
    )
}

/// The `{:?}` text of `vk::DebugUtilsMessageTypeFlagsEXT` for the known bits
/// of `categories`. Nothing is claimed of the text but that it depends on the
/// bits alone.
#[verifier::external_body]
pub(crate) fn category_label(categories: u32) -> (label: String)
    ensures
        label@ == category_text(categories),
{
    format!("{:?}", vk::DebugUtilsMessageTypeFlagsEXT::from_bits_truncate(categories))
}

/// The `Display` text of `vk::ErrorCode` for a raw code. Nothing is claimed of
/// the text but that it depends on the code alone.
#[verifier::external_body]
pub(crate) fn error_code_text(code: i32) -> (text: String)
    ensures
        text@ == platform_error_text(code),
{
    vk::ErrorCode::from_raw(code).to_string()
}

} // verus!
