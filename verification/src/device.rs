//! Selection of the physical graphics adapter.

use crate::error::RendererCreationError;
use vstd::prelude::*;

verus! {

/// Kind of a physical graphics adapter, as the graphics API reports it.
#[derive(Clone, Copy, Debug, PartialEq, Eq, Structural)]
pub enum PhysicalDeviceType {
    IntegratedGpu,
    DiscreteGpu,
    VirtualGpu,
    Cpu,
    Other,
}

impl PhysicalDeviceType {
    /// Rank of an adapter kind: the higher, the more desirable.
    pub open spec fn spec_score(self) -> nat {
        match self {
            PhysicalDeviceType::DiscreteGpu => 4,
            PhysicalDeviceType::VirtualGpu => 3,
            PhysicalDeviceType::IntegratedGpu => 2,
            PhysicalDeviceType::Cpu => 1,
            PhysicalDeviceType::Other => 0,
        }
    }

    /// Rank of an adapter kind: the higher, the more desirable.
    pub fn score(self) -> (s: u32)
        ensures
            s == self.spec_score(),
    {
        match self {
            PhysicalDeviceType::DiscreteGpu => 4,
            PhysicalDeviceType::VirtualGpu => 3,
            PhysicalDeviceType::IntegratedGpu => 2,
            PhysicalDeviceType::Cpu => 1,
            PhysicalDeviceType::Other => 0,
        }
    }
}

/// `i` is the position of the adapter that selection picks from `devices`:
/// no adapter ranks higher, and every adapter enumerated before it ranks
/// strictly lower.
pub open spec fn is_selected(devices: Seq<PhysicalDeviceType>, i: int) -> bool {
    &&& 0 <= i < devices.len()
    &&& forall|j: int| 0 <= j < devices.len() ==> devices[j].spec_score() <= devices[i].spec_score()
    &&& forall|j: int| 0 <= j < i ==> devices[j].spec_score() < devices[i].spec_score()
}

/// Picks the adapter to render with: the position in `devices` of the
/// highest-ranked one, and among equally ranked ones the one enumerated
/// first.  An empty enumeration is an error.
pub fn rank_devices(devices: &Vec<PhysicalDeviceType>) -> (result: Result<
    usize,
    RendererCreationError,
>)
    ensures
        devices.len() == 0 <==> result is Err,
        result is Err ==> result == Err::<usize, RendererCreationError>(
            RendererCreationError::NoPhysicalDeviceError,
        ),
        result matches Ok(i) ==> is_selected(devices@, i as int),
{
    if devices.len() == 0 {
        return Err(RendererCreationError::NoPhysicalDeviceError);
    }
    let mut best: usize = 0;
    let mut i: usize = 1;
    while i < devices.len()
        invariant
            1 <= i <= devices.len(),
            is_selected(devices@.subrange(0, i as int), best as int),
        decreases devices.len() - i,
    {
        if devices[i].score() > devices[best].score() {
            best = i;
        }
        i += 1;
    }
    assert(devices@.subrange(0, i as int) =~= devices@);
    Ok(best)
}

/// At most one position is selected.
pub proof fn lemma_selection_unique(devices: Seq<PhysicalDeviceType>, i: int, j: int)
    requires
        is_selected(devices, i),
        is_selected(devices, j),
    ensures
        i == j,
{
    if i < j {
        assert(devices[i].spec_score() < devices[j].spec_score());
        assert(devices[j].spec_score() <= devices[i].spec_score());
    } else if j < i {
        assert(devices[j].spec_score() < devices[i].spec_score());
        assert(devices[i].spec_score() <= devices[j].spec_score());
    }
}

/// An enumeration that holds a discrete GPU selects a discrete GPU.
pub proof fn lemma_discrete_gpu_wins(devices: Seq<PhysicalDeviceType>, i: int)
    requires
        devices.contains(PhysicalDeviceType::DiscreteGpu),
        is_selected(devices, i),
    ensures
        devices[i] == PhysicalDeviceType::DiscreteGpu,
{
    let k = choose|k: int| 0 <= k < devices.len() && devices[k] == PhysicalDeviceType::DiscreteGpu;
    assert(devices[k].spec_score() <= devices[i].spec_score());
}

/// The device capabilities the renderer depends on.  As a description of a
/// device, what it supports; as a request, what is to be switched on.
#[derive(Clone, Copy, Debug, PartialEq, Eq, Structural)]
pub struct DeviceCapabilities {
    /// Depth values can be clamped instead of clipped; shadow rendering
    /// needs this.
    pub depth_clamp: bool,
    /// The device can present to a surface through a swapchain.
    pub khr_swapchain: bool,
}

/// What the renderer asks of a logical device: depth clamping and
/// presentation, and nothing else.
pub open spec fn spec_required_capabilities() -> DeviceCapabilities {
    DeviceCapabilities { depth_clamp: true, khr_swapchain: true }
}

/// The capabilities to create the logical device with, for an adapter that
/// supports `supported`.  The request is always the full required set; an
/// adapter that lacks part of it is refused.
pub fn create_logical_device(supported: DeviceCapabilities) -> (result: Result<
    DeviceCapabilities,
    RendererCreationError,
>)
    ensures
        result is Ok <==> supported.depth_clamp && supported.khr_swapchain,
        result matches Ok(request) ==> request == spec_required_capabilities(),
        result matches Err(e) ==> e == RendererCreationError::DeviceCreationError,
{
    if supported.depth_clamp && supported.khr_swapchain {
        Ok(DeviceCapabilities { depth_clamp: true, khr_swapchain: true })
    } else {
        Err(RendererCreationError::DeviceCreationError)
    }
}

} // verus!
