//! Physical devices as the driver reports them, and the choice among them.

use vstd::prelude::*;
use crate::error::Error;
use crate::extensions::ExtensionSet;

verus! {

/// The class of hardware behind a physical device.
#[derive(Clone, Copy, Debug, PartialEq, Eq, Structural)]
pub enum DeviceKind {
    /// A dedicated graphics card.
    DiscreteGpu,
    /// A GPU that shares the host's memory.
    IntegratedGpu,
    /// A GPU offered by a virtualisation layer.
    VirtualGpu,
    /// A software implementation that runs on the CPU.
    Cpu,
    /// Anything else.
    Other,
}

impl DeviceKind {
    /// The preference rank of the class: the lower, the better.
    pub open spec fn spec_rank(self) -> u32 {
        match self {
            DeviceKind::DiscreteGpu => 0,
            DeviceKind::IntegratedGpu => 1,
            DeviceKind::VirtualGpu => 2,
            DeviceKind::Cpu => 3,
            DeviceKind::Other => 4,
        }
    }

    /// The preference rank of the class: the lower, the better.
    #[verifier::when_used_as_spec(spec_rank)]
    pub fn rank(self) -> (rank: u32)
        ensures
            rank == self.spec_rank(),
    {
        match self {
            DeviceKind::DiscreteGpu => 0,
            DeviceKind::IntegratedGpu => 1,
            DeviceKind::VirtualGpu => 2,
            DeviceKind::Cpu => 3,
            DeviceKind::Other => 4,
        }
    }
}

/// What a device reports of one of its queue families.
#[derive(Clone, Copy, Debug, PartialEq, Eq)]
pub struct QueueFamily {
    /// Whether the family's queues accept graphics commands.
    pub graphics: bool,
    /// The answer to the question whether the family can present to the
    /// surface; `None` where the question could not be answered.
    pub present: Option<bool>,
}

impl QueueFamily {
    /// Whether the family can both render and present. A family whose
    /// present support is unknown counts as unable to present.
    pub open spec fn usable(self) -> bool {
        self.graphics && self.present == Some(true)
    }

    /// Whether the family can both render and present.
    pub fn is_usable(&self) -> (usable: bool)
        ensures
            usable == self.usable(),
    {
        self.graphics && match self.present {
            Some(supported) => supported,
            None => false,
        }
    }
}

/// Whether `index` is the lowest index of a usable family in `families`.
pub open spec fn is_first_usable(families: Seq<QueueFamily>, index: int) -> bool {
    &&& 0 <= index < families.len()
    &&& families[index].usable()
    &&& forall|j: int| 0 <= j < index ==> !(#[trigger] families[j]).usable()
}

/// Whether `families` holds a usable family at all.
pub open spec fn has_usable(families: Seq<QueueFamily>) -> bool {
    exists|j: int| 0 <= j < families.len() && (#[trigger] families[j]).usable()
}

/// The index of the first family, in index order, that can both render and
/// present; `None` where no family can.
pub fn first_usable_family(families: &Vec<QueueFamily>) -> (found: Option<usize>)
    ensures
        match found {
            Some(index) => is_first_usable(families@, index as int),
            None => !has_usable(families@),
        },
{
    let mut i: usize = 0;
    while i < families.len()
        invariant
            0 <= i <= families@.len(),
            forall|j: int| 0 <= j < i ==> !(#[trigger] families@[j]).usable(),
        decreases families@.len() - i,
    {
        if families[i].is_usable() {
            return Some(i);
        }
        i += 1;
    }
    None
}

/// A physical device as enumeration reports it.
#[derive(Debug)]
pub struct PhysicalDeviceCandidate {
    /// The class of the device.
    pub kind: DeviceKind,
    /// The device extensions that the device supports.
    pub supported_extensions: ExtensionSet,
    /// The device's queue families, in index order.
    pub queue_families: Vec<QueueFamily>,
}

impl PhysicalDeviceCandidate {
    /// Whether the device supports every extension in `required`.
    pub open spec fn supports(&self, required: Set<Seq<char>>) -> bool {
        required.subset_of(self.supported_extensions@)
    }

    /// Whether the device may be selected: it supports every extension in
    /// `required` and has a family that can both render and present.
    pub open spec fn eligible(&self, required: Set<Seq<char>>) -> bool {
        self.supports(required) && has_usable(self.queue_families@)
    }
}

/// The device that was chosen, with the queue family to use on it.
#[derive(Clone, Copy, Debug, PartialEq, Eq, Structural)]
pub struct SelectedDevice {
    /// The position of the device in the enumerated list.
    pub device_index: usize,
    /// The index of the device's queue family that renders and presents.
    pub queue_family_index: usize,
}

/// Whether the candidate at `a` is to be preferred to the one at `b`, or is
/// the same: its rank is lower, or the ranks are equal and it was enumerated
/// no later.
pub open spec fn preferred(candidates: Seq<PhysicalDeviceCandidate>, a: int, b: int) -> bool {
    candidates[a].kind.rank() < candidates[b].kind.rank() || (candidates[a].kind.rank()
        == candidates[b].kind.rank() && a <= b)
}

/// Whether `selected` is the right choice among `candidates`: an eligible
/// device to which no other eligible device is preferred, with its first
/// usable queue family.
pub open spec fn is_selection(
    candidates: Seq<PhysicalDeviceCandidate>,
    required: Set<Seq<char>>,
    selected: SelectedDevice,
) -> bool {
    &&& 0 <= selected.device_index < candidates.len()
    &&& candidates[selected.device_index as int].eligible(required)
    &&& is_first_usable(
        candidates[selected.device_index as int].queue_families@,
        selected.queue_family_index as int,
    )
    &&& forall|j: int|
        0 <= j < candidates.len() && (#[trigger] candidates[j]).eligible(required) ==> preferred(
            candidates,
            selected.device_index as int,
            j,
        )
}

/// What selection yields for `candidates`: the right choice where there is
/// one, and otherwise the failure to find a capable device.
pub open spec fn selection(
    candidates: Seq<PhysicalDeviceCandidate>,
    required: Set<Seq<char>>,
) -> Result<SelectedDevice, Error> {
    if exists|s: SelectedDevice| is_selection(candidates, required, s) {
        Ok(choose|s: SelectedDevice| is_selection(candidates, required, s))
    } else {
        Err(Error::NoCapableDevice)
    }
}

/// Two right choices among the same candidates are the same choice.
pub proof fn selection_is_unique(
    candidates: Seq<PhysicalDeviceCandidate>,
    required: Set<Seq<char>>,
    first: SelectedDevice,
    second: SelectedDevice,
)
    requires
        is_selection(candidates, required, first),
        is_selection(candidates, required, second),
    ensures
        first == second,
{
    let a = first.device_index as int;
    let b = second.device_index as int;
    assert(candidates[a].eligible(required));
    assert(candidates[b].eligible(required));
    assert(preferred(candidates, a, b));
    assert(preferred(candidates, b, a));
    assert(a == b);
    let families = candidates[a].queue_families@;
    let p = first.queue_family_index as int;
    let q = second.queue_family_index as int;
    assert(families[p].usable());
    assert(families[q].usable());
    assert(p == q);
}

/// Whether `best` is the right device among the first `count` candidates.
spec fn is_best_among(
    candidates: Seq<PhysicalDeviceCandidate>,
    required: Set<Seq<char>>,
    best: int,
    count: int,
) -> bool {
    &&& 0 <= best < count <= candidates.len()
    &&& candidates[best].eligible(required)
    &&& forall|j: int|
        0 <= j < count && (#[trigger] candidates[j]).eligible(required) ==> preferred(
            candidates,
            best,
            j,
        )
}

/// Chooses the device to render and present with.
///
/// A candidate is eligible if it supports every extension in `required` and
/// has a queue family that accepts graphics commands and can present. Among
/// the eligible candidates the one of the lowest rank is chosen, and of
/// several of that rank the one enumerated first; on it, the first such
/// family. Without an eligible candidate there is nothing to choose.
pub fn select_device(candidates: &Vec<PhysicalDeviceCandidate>, required: &ExtensionSet) -> (chosen:
    Result<SelectedDevice, Error>)
    ensures
        chosen == selection(candidates@, required@),
        match chosen {
            Ok(selected) => is_selection(candidates@, required@, selected),
            Err(error) => error == Error::NoCapableDevice && forall|j: int|
                0 <= j < candidates@.len() ==> !(#[trigger] candidates@[j]).eligible(required@),
        },
        (forall|j: int| 0 <= j < candidates@.len() ==> !(#[trigger] candidates@[j]).supports(required@))
            ==> chosen == Err::<SelectedDevice, Error>(Error::NoCapableDevice),
{
    let mut best: Option<SelectedDevice> = None;
    let mut best_rank: u32 = 0;
    let mut i: usize = 0;
    while i < candidates.len()
        invariant
            0 <= i <= candidates@.len(),
            match best {
                Some(selected) => {
                    &&& is_best_among(candidates@, required@, selected.device_index as int, i as int)
                    &&& is_first_usable(
                        candidates@[selected.device_index as int].queue_families@,
                        selected.queue_family_index as int,
                    )
                    &&& best_rank == candidates@[selected.device_index as int].kind.rank()
                },
                None => forall|j: int| 0 <= j < i ==> !(#[trigger] candidates@[j]).eligible(required@),
            },
        decreases candidates@.len() - i,
    {
        let candidate = &candidates[i];
        if candidate.supported_extensions.contains_all(required) {
            match first_usable_family(&candidate.queue_families) {
                Some(family) => {
                    let rank = candidate.kind.rank();
                    if best.is_none() || rank < best_rank {
                        best = Some(SelectedDevice { device_index: i, queue_family_index: family });
                        best_rank = rank;
                    }
                },
                None => {},
            }
        }
        i += 1;
    }
    match best {
        Some(selected) => {
            proof {
                assert(is_selection(candidates@, required@, selected));
                let other = choose|s: SelectedDevice| is_selection(candidates@, required@, s);
                selection_is_unique(candidates@, required@, selected, other);
            }
            Ok(selected)
        },
        None => {
            assert forall|s: SelectedDevice| !is_selection(candidates@, required@, s) by {
                if is_selection(candidates@, required@, s) {
                    assert(candidates@[s.device_index as int].eligible(required@));
                }
            }
            Err(Error::NoCapableDevice)
        },
    }
}

/// What is asked of the driver when the logical device is created.
#[derive(Debug)]
pub struct LogicalDeviceRequest {
    /// The position of the physical device in the enumerated list.
    pub device_index: usize,
    /// The queue family from which queues are requested.
    pub queue_family_index: usize,
    /// How many queues of that family are requested.
    pub queue_count: u32,
    /// The device extensions to enable.
    pub enabled_extensions: ExtensionSet,
}

impl LogicalDeviceRequest {
    /// Whether this is the request to make for `selected`: one queue of the
    /// selected family on the selected device, with exactly the extensions in
    /// `required` enabled.
    pub open spec fn serves(&self, selected: SelectedDevice, required: Set<Seq<char>>) -> bool {
        &&& self.device_index == selected.device_index
        &&& self.queue_family_index == selected.queue_family_index
        &&& self.queue_count == 1
        &&& self.enabled_extensions@ == required
    }
}

/// The request for the logical device on `selected`: a single queue of the
/// selected family, and the extensions that selection required.
pub fn logical_device_request(selected: SelectedDevice, required: &ExtensionSet) -> (request:
    LogicalDeviceRequest)
    ensures
        request.serves(selected, required@),
{
    LogicalDeviceRequest {
        device_index: selected.device_index,
        queue_family_index: selected.queue_family_index,
        queue_count: 1,
        enabled_extensions: required.clone(),
    }
}

/// The logical device once it is created: the selected physical device with
/// the queues that came of the request.
#[derive(Clone, Copy, Debug, PartialEq, Eq, Structural)]
pub struct LogicalDeviceContext {
    /// The physical device and queue family that the device was created on.
    pub selected: SelectedDevice,
    /// How many queues the device came with.
    pub queue_count: usize,
}

impl LogicalDeviceContext {
    /// Whether the device has a queue to submit to.
    pub open spec fn has_queue(self) -> bool {
        self.queue_count >= 1
    }
}

/// The position of the right device among the first `count` candidates, of
/// which one at least is eligible.
proof fn best_among_exists(
    candidates: Seq<PhysicalDeviceCandidate>,
    required: Set<Seq<char>>,
    count: int,
) -> (best: int)
    requires
        0 <= count <= candidates.len(),
        exists|j: int| 0 <= j < count && (#[trigger] candidates[j]).eligible(required),
    ensures
        is_best_among(candidates, required, best, count),
    decreases count,
{
    let last = count - 1;
    if exists|j: int| 0 <= j < last && (#[trigger] candidates[j]).eligible(required) {
        let earlier = best_among_exists(candidates, required, last);
        if candidates[last].eligible(required) && candidates[last].kind.rank()
            < candidates[earlier].kind.rank() {
            last
        } else {
            earlier
        }
    } else {
        last
    }
}

/// The first usable family at or after `from`, where none comes before
/// `from` and one at least comes after.
proof fn first_usable_exists(families: Seq<QueueFamily>, from: int) -> (index: int)
    requires
        0 <= from <= families.len(),
        forall|j: int| 0 <= j < from ==> !(#[trigger] families[j]).usable(),
        has_usable(families),
    ensures
        is_first_usable(families, index),
    decreases families.len() - from,
{
    if from < families.len() && families[from].usable() {
        from
    } else {
        first_usable_exists(families, from + 1)
    }
}

/// Among candidates of which one at least is eligible, selection succeeds:
/// it yields an eligible device whose rank no eligible candidate undercuts,
/// and which comes first among the eligible candidates of that rank.
pub proof fn selection_prefers_lowest_rank(
    candidates: Vec<PhysicalDeviceCandidate>,
    required: ExtensionSet,
)
    requires
        exists|j: int|
            0 <= j < candidates@.len() && (#[trigger] candidates@[j]).eligible(required@),
    ensures
        selection(candidates@, required@) is Ok,
        ({
            let chosen = selection(candidates@, required@).unwrap().device_index as int;
            &&& 0 <= chosen < candidates@.len()
            &&& candidates@[chosen].eligible(required@)
            &&& forall|j: int|
                0 <= j < candidates@.len() && (#[trigger] candidates@[j]).eligible(required@)
                    ==> candidates@[chosen].kind.rank() <= candidates@[j].kind.rank()
            &&& forall|j: int|
                0 <= j < candidates@.len() && (#[trigger] candidates@[j]).eligible(required@)
                    && candidates@[j].kind.rank() == candidates@[chosen].kind.rank() ==> chosen
                    <= j
        }),
{
    let best = best_among_exists(candidates@, required@, candidates@.len() as int);
    let families = candidates@[best].queue_families;
    let family = first_usable_exists(families@, 0);
    assert(candidates@.len() == candidates.len());
    assert(families@.len() == families.len());
    let selected = SelectedDevice {
        device_index: best as usize,
        queue_family_index: family as usize,
    };
    assert(is_selection(candidates@, required@, selected));
}

/// Where no candidate supports every required extension, selection fails for
/// want of a capable device, whatever the candidates' queue families are.
pub proof fn selection_fails_without_support(
    candidates: Seq<PhysicalDeviceCandidate>,
    required: Set<Seq<char>>,
)
    requires
        forall|j: int| 0 <= j < candidates.len() ==> !(#[trigger] candidates[j]).supports(required),
    ensures
        selection(candidates, required) == Err::<SelectedDevice, Error>(Error::NoCapableDevice),
{
    assert forall|s: SelectedDevice| !is_selection(candidates, required, s) by {
        if is_selection(candidates, required, s) {
            assert(candidates[s.device_index as int].supports(required));
        }
    }
}

} // verus!
