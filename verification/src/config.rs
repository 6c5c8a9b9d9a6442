//! What the application asks of a device, and the set of extensions that a
//! device offers.

use vstd::prelude::*;
use vulkano::device::DeviceExtensions;

verus! {

/// The width asked for where the surface leaves the choice open.
pub const DEFAULT_WIDTH: u32 = 1024;

/// The height asked for where the surface leaves the choice open.
pub const DEFAULT_HEIGHT: u32 = 768;

/// `vulkano::device::DeviceExtensions`: one flag for each device extension
/// that vulkano knows.
#[verifier::external_type_specification]
#[verifier::external_body]
pub struct ExDeviceExtensions(DeviceExtensions);

/// The names of the extensions whose flag is set in `extensions`, each as
/// Vulkan spells it.
pub uninterp spec fn enabled_extensions(extensions: DeviceExtensions) -> Set<Seq<char>>;

/// The name of the extension that gives a device its swapchains.
pub open spec fn khr_swapchain() -> Seq<char> {
    "VK_KHR_swapchain"@
}

/// The extensions that a device must offer to be used.
pub open spec fn required_extension_names() -> Set<Seq<char>> {
    set![khr_swapchain()]
}

/// `DeviceExtensions::none`: the value in which no flag is set.
pub assume_specification[ DeviceExtensions::none ]() -> (extensions: DeviceExtensions)
    ensures
        enabled_extensions(extensions) == Set::<Seq<char>>::empty(),
;

/// `DeviceExtensions::intersection`: the flags that are set in both values.
pub assume_specification[ DeviceExtensions::intersection ](
    extensions: &DeviceExtensions,
    other: &DeviceExtensions,
) -> (both: DeviceExtensions)
    ensures
        enabled_extensions(both) == enabled_extensions(*extensions).intersect(
            enabled_extensions(*other),
        ),
;

/// The field `khr_swapchain` of `DeviceExtensions`, set by struct update:
/// the result has the flag named `VK_KHR_swapchain` as `enabled` says, and
/// otherwise the flags of `extensions`.
#[verifier::external_body]
fn set_khr_swapchain(extensions: DeviceExtensions, enabled: bool) -> (updated: DeviceExtensions)
    ensures
        enabled_extensions(updated) == if enabled {
            enabled_extensions(extensions).insert(khr_swapchain())
        } else {
            enabled_extensions(extensions).remove(khr_swapchain())
        },
{
    DeviceExtensions { khr_swapchain: enabled, ..extensions }
}

/// `==` of `DeviceExtensions`, which compares flag by flag: two values are
/// equal exactly when the same extensions are set in them.
#[verifier::external_body]
fn same_extensions(left: &DeviceExtensions, right: &DeviceExtensions) -> (same: bool)
    ensures
        same == (enabled_extensions(*left) == enabled_extensions(*right)),
{
    left == right
}

/// The extensions that a device must offer to be used: the swapchain
/// extension and no other.
pub fn required_device_extensions() -> (required: DeviceExtensions)
    ensures
        enabled_extensions(required) == required_extension_names(),
{
    let required = set_khr_swapchain(DeviceExtensions::none(), true);
    assert(enabled_extensions(required) =~= required_extension_names());
    required
}

/// Whether `supported` holds every required extension.
pub fn supports_required_extensions(supported: &DeviceExtensions) -> (all: bool)
    ensures
        all == required_extension_names().subset_of(enabled_extensions(*supported)),
{
    let required = required_device_extensions();
    let common = required.intersection(supported);
    assert(required_extension_names().subset_of(enabled_extensions(*supported))
        <==> enabled_extensions(common) =~= enabled_extensions(required));
    same_extensions(&common, &required)
}

} // verus!
