//! Choice of the physical device.

use vstd::prelude::*;
use vulkano::device::DeviceExtensions;
use crate::extensions::{
    device_extension_known, device_extension_named, device_extension_names,
    device_extensions_contains, device_extensions_empty, device_extensions_union,
};

verus! {

/// Names of the device extensions that every context enables: presentation
/// to a swapchain, import of external memory by file descriptor, import of
/// DMA buffers, and images tiled by a DRM format modifier.
pub open spec fn required_extension_names() -> Seq<Seq<char>> {
    seq![
        "VK_KHR_swapchain"@,
        "VK_KHR_external_memory"@,
        "VK_KHR_external_memory_fd"@,
        "VK_EXT_external_memory_dma_buf"@,
        "VK_EXT_image_drm_format_modifier"@,
    ]
}

/// The names of [`required_extension_names`] as a set.
pub open spec fn required_extension_set() -> Set<Seq<char>> {
    required_extension_names().to_set()
}

/// Whether `vulkano` has a member for each of the fixed device extensions.
pub open spec fn required_extensions_known() -> bool {
    forall|i: int|
        0 <= i < required_extension_names().len() ==> device_extension_known(
            #[trigger] required_extension_names()[i],
        )
}

/// The fixed set of device extensions, or `None` where `vulkano` lacks a
/// member for one of the names.
pub fn required_device_extensions() -> (r: Option<DeviceExtensions>)
    ensures
        r is Some <==> required_extensions_known(),
        r matches Some(e) ==> device_extension_names(e) == required_extension_set(),
{
    let names: [&str; 5] = [
        "VK_KHR_swapchain",
        "VK_KHR_external_memory",
        "VK_KHR_external_memory_fd",
        "VK_EXT_external_memory_dma_buf",
        "VK_EXT_image_drm_format_modifier",
    ];
    assert(forall|i: int| 0 <= i < 5 ==> names@[i]@ == required_extension_names()[i]);
    let empty = device_extensions_empty();
    let mut all = device_extensions_empty();
    let mut i: usize = 0;
    while i < 5
        invariant
            0 <= i <= 5,
            names@.len() == 5,
            forall|k: int| 0 <= k < 5 ==> names@[k]@ == required_extension_names()[k],
            required_extension_names().len() == 5,
            device_extension_names(empty) == Set::<Seq<char>>::empty(),
            forall|k: int|
                0 <= k < i ==> device_extension_known(#[trigger] required_extension_names()[k]),
            device_extension_names(all) =~= required_extension_names().take(i as int).to_set(),
        decreases 5 - i,
    {
        let one = device_extension_named(names[i]);
        if device_extensions_contains(&empty, &one) {
            assert(!device_extension_known(required_extension_names()[i as int])) by {
                if device_extension_known(names@[i as int]@) {
                    assert(device_extension_names(one).contains(names@[i as int]@));
                }
            }
            return None;
        }
        assert(device_extension_known(required_extension_names()[i as int]));
        all = device_extensions_union(&all, &one);
        proof {
            let s = required_extension_names();
            assert(s.take(i as int + 1) =~= s.take(i as int).push(s[i as int]));
            s.take(i as int).lemma_push_to_set_commute(s[i as int]);
        }
        i = i + 1;
    }
    assert(required_extension_names().take(5) =~= required_extension_names());
    Some(all)
}

/// Class of a physical device, as its driver reports it.
#[derive(Clone, Copy, Debug, PartialEq, Eq, Structural)]
pub enum DeviceClass {
    Discrete,
    Integrated,
    Virtual,
    Software,
    Other,
    /// A class that the driver reports and that has no name here.
    Unknown,
}

/// Bit of a queue family's flags that marks support for graphics operations.
pub const QUEUE_GRAPHICS_BIT: u32 = 0x1;

/// One queue family of a physical device.
#[derive(Clone, Copy, Debug, PartialEq, Eq, Structural)]
pub struct QueueFamily {
    /// Capability bits of the family, as Vulkan numbers them.
    pub flags: u32,
    /// Whether the family can present to the context's surface.
    pub presents: bool,
}

/// What the choice of a device reads of one physical device.
#[derive(Debug)]
pub struct DeviceCandidate {
    pub class: DeviceClass,
    /// Extensions that the device offers.
    pub supported_extensions: DeviceExtensions,
    /// Extensions that the VR runtime asks of this device.
    pub runtime_extensions: DeviceExtensions,
    /// Queue families in the order in which the device lists them.
    pub queue_families: Vec<QueueFamily>,
}

/// The device that was chosen, and what is to be enabled on it.
#[derive(Clone, Copy, Debug)]
pub struct DeviceSelection {
    /// Position of the device in the enumeration.
    pub index: usize,
    /// Extensions to enable: the fixed set together with the runtime's.
    pub extensions: DeviceExtensions,
    /// The queue family from which the single queue is taken.
    pub queue_family_index: u32,
}

impl DeviceClass {
    /// Rank by which devices are preferred: the lower, the better.
    pub open spec fn rank(self) -> nat {
        match self {
            DeviceClass::Discrete => 0,
            DeviceClass::Integrated => 1,
            DeviceClass::Virtual => 2,
            DeviceClass::Software => 3,
            DeviceClass::Other => 4,
            DeviceClass::Unknown => 5,
        }
    }

    /// Computes [`DeviceClass::rank`].
    pub fn rank_of(self) -> (r: u8)
        ensures
            r == self.rank(),
    {
        match self {
            DeviceClass::Discrete => 0,
            DeviceClass::Integrated => 1,
            DeviceClass::Virtual => 2,
            DeviceClass::Software => 3,
            DeviceClass::Other => 4,
            DeviceClass::Unknown => 5,
        }
    }
}

impl QueueFamily {
    /// A family serves the context if it supports graphics operations and,
    /// where a surface is requested, can present to it.
    pub open spec fn serves(self, surface_requested: bool) -> bool {
        self.flags & QUEUE_GRAPHICS_BIT != 0 && (surface_requested ==> self.presents)
    }

    /// Computes [`QueueFamily::serves`].
    pub fn is_serving(&self, surface_requested: bool) -> (r: bool)
        ensures
            r == self.serves(surface_requested),
    {
        self.flags & QUEUE_GRAPHICS_BIT != 0 && (!surface_requested || self.presents)
    }
}

/// Whether `i` is the first family of `families` that serves the context.
pub open spec fn is_first_serving(families: Seq<QueueFamily>, surface_requested: bool, i: int) -> bool {
    &&& 0 <= i < families.len()
    &&& families[i].serves(surface_requested)
    &&& forall|j: int| 0 <= j < i ==> !(#[trigger] families[j]).serves(surface_requested)
}

/// Whether some family of `families` serves the context.
pub open spec fn has_serving(families: Seq<QueueFamily>, surface_requested: bool) -> bool {
    exists|i: int| 0 <= i < families.len() && (#[trigger] families[i]).serves(surface_requested)
}

/// Position of the first queue family that serves the context.
pub fn first_serving_family(families: &Vec<QueueFamily>, surface_requested: bool) -> (r: Option<
    usize,
>)
    ensures
        r is Some <==> has_serving(families@, surface_requested),
        r matches Some(i) ==> is_first_serving(families@, surface_requested, i as int),
{
    let mut i: usize = 0;
    while i < families.len()
        invariant
            0 <= i <= families.len(),
            forall|j: int| 0 <= j < i ==> !(#[trigger] families@[j]).serves(surface_requested),
        decreases families.len() - i,
    {
        if families[i].is_serving(surface_requested) {
            return Some(i);
        }
        i = i + 1;
    }
    None
}

impl DeviceCandidate {
    /// The candidate's queue families can be numbered by a `u32`.
    pub open spec fn wf(self) -> bool {
        self.queue_families@.len() <= u32::MAX
    }

    /// Names of the extensions to enable on this device: the fixed set
    /// together with what the runtime asks of it.
    pub open spec fn needed(self, required: Set<Seq<char>>) -> Set<Seq<char>> {
        device_extension_names(self.runtime_extensions).union(required)
    }

    /// A device qualifies if it offers every extension that is needed and has
    /// a queue family that serves the context.
    pub open spec fn qualifies(self, required: Set<Seq<char>>, surface_requested: bool) -> bool {
        &&& self.needed(required).subset_of(device_extension_names(self.supported_extensions))
        &&& has_serving(self.queue_families@, surface_requested)
    }
}

/// Whether candidate `i` is the one to choose: it qualifies, no qualifying
/// candidate has a lower rank, and none of the same rank stands before it.
pub open spec fn is_chosen(
    candidates: Seq<DeviceCandidate>,
    required: Set<Seq<char>>,
    surface_requested: bool,
    i: int,
) -> bool {
    &&& 0 <= i < candidates.len()
    &&& candidates[i].qualifies(required, surface_requested)
    &&& forall|j: int|
        0 <= j < candidates.len() && (#[trigger] candidates[j]).qualifies(
            required,
            surface_requested,
        ) ==> candidates[i].class.rank() < candidates[j].class.rank() || (candidates[i].class.rank()
            == candidates[j].class.rank() && i <= j)
}

/// Whether any candidate qualifies.
pub open spec fn any_qualifies(
    candidates: Seq<DeviceCandidate>,
    required: Set<Seq<char>>,
    surface_requested: bool,
) -> bool {
    exists|i: int|
        0 <= i < candidates.len() && (#[trigger] candidates[i]).qualifies(
            required,
            surface_requested,
        )
}

/// Chooses the physical device of the context.
///
/// Devices that lack a needed extension or a serving queue family are passed
/// over. Of the others the one of the lowest rank is taken, and of several of
/// that rank the one that was enumerated first. `None` means that no device
/// qualifies.
pub fn select_physical_device(
    candidates: &Vec<DeviceCandidate>,
    required: &DeviceExtensions,
    surface_requested: bool,
) -> (r: Option<DeviceSelection>)
    requires
        forall|i: int| 0 <= i < candidates@.len() ==> (#[trigger] candidates@[i]).wf(),
    ensures
        r is Some <==> any_qualifies(
            candidates@,
            device_extension_names(*required),
            surface_requested,
        ),
        r matches Some(s) ==> {
            &&& is_chosen(
                candidates@,
                device_extension_names(*required),
                surface_requested,
                s.index as int,
            )
            &&& device_extension_names(s.extensions) == candidates@[s.index as int].needed(
                device_extension_names(*required),
            )
            &&& is_first_serving(
                candidates@[s.index as int].queue_families@,
                surface_requested,
                s.queue_family_index as int,
            )
        },
{
    let ghost req = device_extension_names(*required);
    let mut best: Option<DeviceSelection> = None;
    let mut best_rank: u8 = 0;
    let mut i: usize = 0;
    while i < candidates.len()
        invariant
            0 <= i <= candidates.len(),
            req == device_extension_names(*required),
            forall|k: int| 0 <= k < candidates@.len() ==> (#[trigger] candidates@[k]).wf(),
            best is None ==> forall|k: int|
                0 <= k < i ==> !(#[trigger] candidates@[k]).qualifies(req, surface_requested),
            best matches Some(s) ==> {
                &&& s.index < i
                &&& best_rank == candidates@[s.index as int].class.rank()
                &&& is_chosen(candidates@.take(i as int), req, surface_requested, s.index as int)
                &&& device_extension_names(s.extensions) == candidates@[s.index as int].needed(req)
                &&& is_first_serving(
                    candidates@[s.index as int].queue_families@,
                    surface_requested,
                    s.queue_family_index as int,
                )
            },
        decreases candidates.len() - i,
    {
        let c = &candidates[i];
        let needed = device_extensions_union(&c.runtime_extensions, required);
        let mut found: Option<DeviceSelection> = None;
        if device_extensions_contains(&c.supported_extensions, &needed) {
            match first_serving_family(&c.queue_families, surface_requested) {
                Some(q) => {
                    found = Some(DeviceSelection { index: i, extensions: needed, queue_family_index: q as u32 });
                },
                None => {},
            }
        }
        assert(found is Some <==> candidates@[i as int].qualifies(req, surface_requested));
        let ghost old_best = best;
        match found {
            Some(s) => {
                let rank = c.class.rank_of();
                if best.is_none() || rank < best_rank {
                    best = Some(s);
                    best_rank = rank;
                }
            },
            None => {},
        }
        proof {
            let t0 = candidates@.take(i as int);
            let t1 = candidates@.take(i as int + 1);
            assert(forall|k: int| 0 <= k <= i ==> t1[k] == candidates@[k]);
            assert(forall|k: int| 0 <= k < i ==> t0[k] == candidates@[k]);
            if let Some(b) = best {
                assert forall|j: int|
                    0 <= j < t1.len() && (#[trigger] t1[j]).qualifies(req, surface_requested) implies t1[b.index as int].class.rank()
                    < t1[j].class.rank() || (t1[b.index as int].class.rank() == t1[j].class.rank()
                    && b.index as int <= j) by {
                    if j < i {
                        assert(t0[j].qualifies(req, surface_requested));
                        if let Some(o) = old_best {
                            assert(is_chosen(t0, req, surface_requested, o.index as int));
                        }
                    }
                }
            }
        }
        i = i + 1;
    }
    assert(candidates@.take(i as int) =~= candidates@);
    best
}

/// Two candidates cannot both be the one to choose.
pub proof fn lemma_choice_unique(
    candidates: Seq<DeviceCandidate>,
    required: Set<Seq<char>>,
    surface_requested: bool,
    i: int,
    j: int,
)
    requires
        is_chosen(candidates, required, surface_requested, i),
        is_chosen(candidates, required, surface_requested, j),
    ensures
        i == j,
{
}

/// The device that is chosen has the lowest rank among the devices that
/// qualify: where a discrete device qualifies, a discrete device is chosen.
pub proof fn lemma_lowest_rank_chosen(
    candidates: Seq<DeviceCandidate>,
    required: Set<Seq<char>>,
    surface_requested: bool,
    chosen: int,
    other: int,
)
    requires
        is_chosen(candidates, required, surface_requested, chosen),
        0 <= other < candidates.len(),
        candidates[other].qualifies(required, surface_requested),
    ensures
        candidates[chosen].class.rank() <= candidates[other].class.rank(),
        candidates[other].class == DeviceClass::Discrete ==> candidates[chosen].class
            == DeviceClass::Discrete,
{
}

/// A device that lacks one of the needed extensions is never chosen,
/// whatever its class.
pub proof fn lemma_missing_extension_excludes(
    candidates: Seq<DeviceCandidate>,
    required: Set<Seq<char>>,
    surface_requested: bool,
    i: int,
    name: Seq<char>,
)
    requires
        0 <= i < candidates.len(),
        candidates[i].needed(required).contains(name),
        !device_extension_names(candidates[i].supported_extensions).contains(name),
    ensures
        !is_chosen(candidates, required, surface_requested, i),
{
}

} // verus!
