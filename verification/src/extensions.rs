//! Extension sets of `vulkano`, used as sets of Vulkan extension names.
//!
//! `vulkano` keeps one boolean member for each extension it knows. The items
//! here are trusted: their contracts restate what the generated methods of
//! `vulkano` do, and nothing proves them.

use vstd::prelude::*;
use vulkano::device::DeviceExtensions;
use vulkano::instance::InstanceExtensions;

verus! {

/// The device extensions of `vulkano`: read through
/// [`device_extension_names`] only.
#[verifier::external_type_specification]
#[verifier::external_body]
pub struct ExDeviceExtensions(vulkano::device::DeviceExtensions);

/// The instance extensions of `vulkano`: read through
/// [`instance_extension_names`] only.
#[verifier::external_type_specification]
#[verifier::external_body]
pub struct ExInstanceExtensions(vulkano::instance::InstanceExtensions);

/// The Vulkan names (such as `VK_KHR_swapchain`) of the members that are set
/// in a `DeviceExtensions` value.
pub uninterp spec fn device_extension_names(e: DeviceExtensions) -> Set<Seq<char>>;

/// The Vulkan names of the members that are set in an `InstanceExtensions`
/// value.
pub uninterp spec fn instance_extension_names(e: InstanceExtensions) -> Set<Seq<char>>;

/// Whether `vulkano` has a member of `DeviceExtensions` for this Vulkan name.
pub uninterp spec fn device_extension_known(name: Seq<char>) -> bool;

/// `DeviceExtensions::empty`: no member is set.
#[verifier::external_body]
pub(crate) fn device_extensions_empty() -> (r: DeviceExtensions)
    ensures
        device_extension_names(r) == Set::<Seq<char>>::empty(),
{
    DeviceExtensions::empty()
}

/// `DeviceExtensions::from_iter` on one name: the member of that name is set
/// where `vulkano` has one, and a name it does not know is passed over.
#[verifier::external_body]
pub(crate) fn device_extension_named(name: &str) -> (r: DeviceExtensions)
    ensures
        device_extension_names(r) == if device_extension_known(name@) {
            Set::<Seq<char>>::empty().insert(name@)
        } else {
            Set::<Seq<char>>::empty()
        },
{
    DeviceExtensions::from_iter([name])
}

/// `DeviceExtensions::union`: a member is set in the result where it is set
/// in either argument.
#[verifier::external_body]
pub(crate) fn device_extensions_union(a: &DeviceExtensions, b: &DeviceExtensions) -> (r:
    DeviceExtensions)
    ensures
        device_extension_names(r) == device_extension_names(*a).union(device_extension_names(*b)),
{
    a.union(b)
}

/// `DeviceExtensions::contains`: whether every member set in `b` is set in
/// `a`.
#[verifier::external_body]
pub(crate) fn device_extensions_contains(a: &DeviceExtensions, b: &DeviceExtensions) -> (r: bool)
    ensures
        r == device_extension_names(*b).subset_of(device_extension_names(*a)),
{
    a.contains(b)
}

/// `InstanceExtensions::union`: a member is set in the result where it is set
/// in either argument.
#[verifier::external_body]
pub(crate) fn instance_extensions_union(a: &InstanceExtensions, b: &InstanceExtensions) -> (r:
    InstanceExtensions)
    ensures
        instance_extension_names(r) == instance_extension_names(*a).union(
            instance_extension_names(*b),
        ),
{
    a.union(b)
}

} // verus!
