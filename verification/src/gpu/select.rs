//! Choice of the device a workload should prefer.

use crate::gpu::device::{gpu_views, GpuInfo, GpuInfoView, GpuVendor};
use vstd::prelude::*;

verus! {

/// A discrete NVIDIA card.
pub open spec fn is_nvidia_discrete(device: GpuInfoView) -> bool {
    device.vendor == GpuVendor::Nvidia && device.is_discrete
}

/// A discrete AMD card.
pub open spec fn is_amd_discrete(device: GpuInfoView) -> bool {
    device.vendor == GpuVendor::Amd && device.is_discrete
}

/// A discrete card of any vendor.
pub open spec fn is_discrete(device: GpuInfoView) -> bool {
    device.is_discrete
}

/// The lowest index at which `wanted` holds, if it holds anywhere.
pub open spec fn first_index(devices: Seq<GpuInfoView>, wanted: spec_fn(GpuInfoView) -> bool) -> Option<
    int,
>
    decreases devices.len(),
{
    if devices.len() == 0 {
        None
    } else {
        match first_index(devices.drop_last(), wanted) {
            Some(i) => Some(i),
            None => if wanted(devices.last()) {
                Some(devices.len() - 1)
            } else {
                None
            },
        }
    }
}

/// The recommended device: the first discrete NVIDIA card, else the first
/// discrete AMD card, else the first discrete card, else the first
/// device; none for an empty list.
pub open spec fn select_spec(devices: Seq<GpuInfoView>) -> Option<int> {
    if devices.len() == 0 {
        None
    } else if first_index(devices, |d: GpuInfoView| is_nvidia_discrete(d)) is Some {
        first_index(devices, |d: GpuInfoView| is_nvidia_discrete(d))
    } else if first_index(devices, |d: GpuInfoView| is_amd_discrete(d)) is Some {
        first_index(devices, |d: GpuInfoView| is_amd_discrete(d))
    } else if first_index(devices, |d: GpuInfoView| is_discrete(d)) is Some {
        first_index(devices, |d: GpuInfoView| is_discrete(d))
    } else {
        Some(0)
    }
}

/// `first_index` gives the lowest index at which the predicate holds, and
/// nothing exactly when it holds nowhere.
pub proof fn lemma_first_index(devices: Seq<GpuInfoView>, wanted: spec_fn(GpuInfoView) -> bool)
    ensures
        match first_index(devices, wanted) {
            Some(i) => {
                &&& 0 <= i < devices.len()
                &&& wanted(devices[i])
                &&& forall|j: int| 0 <= j < i ==> !wanted(#[trigger] devices[j])
            },
            None => forall|j: int| 0 <= j < devices.len() ==> !wanted(#[trigger] devices[j]),
        },
    decreases devices.len(),
{
    if devices.len() > 0 {
        lemma_first_index(devices.drop_last(), wanted);
        assert forall|j: int| 0 <= j < devices.len() - 1 implies devices.drop_last()[j]
            == devices[j] by {}
        match first_index(devices.drop_last(), wanted) {
            Some(i) => {
                assert(devices.drop_last()[i] == devices[i]);
                assert forall|j: int| 0 <= j < i implies !wanted(#[trigger] devices[j]) by {
                    assert(devices.drop_last()[j] == devices[j]);
                }
            },
            None => {
                assert forall|j: int| 0 <= j < devices.len() - 1 implies !wanted(
                    #[trigger] devices[j],
                ) by {
                    assert(devices.drop_last()[j] == devices[j]);
                }
            },
        }
    }
}

/// Picks the device to recommend. The list is scanned in order and never
/// reordered, so among equals the lowest index wins.
pub fn select_recommended_device(devices: &[GpuInfo]) -> (recommended: Option<usize>)
    ensures
        match recommended {
            Some(i) => select_spec(gpu_views(devices@)) == Some(i as int),
            None => select_spec(gpu_views(devices@)) is None,
        },
{
    if devices.len() == 0 {
        return None;
    }
    let ghost all = gpu_views(devices@);
    let ghost nvidia = |d: GpuInfoView| is_nvidia_discrete(d);
    let ghost amd = |d: GpuInfoView| is_amd_discrete(d);
    let ghost discrete = |d: GpuInfoView| is_discrete(d);
    let mut idx: usize = 0;
    assert(all.take(0) == Seq::<GpuInfoView>::empty());
    while idx < devices.len()
        invariant
            idx <= devices.len(),
            all == gpu_views(devices@),
            nvidia == |d: GpuInfoView| is_nvidia_discrete(d),
            first_index(all.take(idx as int), nvidia) is None,
        decreases devices.len() - idx,
    {
        proof {
            let next = all.take(idx + 1);
            assert(next.drop_last() == all.take(idx as int));
        }
        if devices[idx].vendor == GpuVendor::Nvidia && devices[idx].is_discrete {
            proof {
                lemma_first_index_extends(all, nvidia, idx as int);
            }
            return Some(idx);
        }
        idx += 1;
    }
    assert(all.take(devices.len() as int) == all);
    idx = 0;
    while idx < devices.len()
        invariant
            idx <= devices.len(),
            all == gpu_views(devices@),
            nvidia == |d: GpuInfoView| is_nvidia_discrete(d),
            amd == |d: GpuInfoView| is_amd_discrete(d),
            first_index(all, nvidia) is None,
            first_index(all.take(idx as int), amd) is None,
        decreases devices.len() - idx,
    {
        proof {
            let next = all.take(idx + 1);
            assert(next.drop_last() == all.take(idx as int));
        }
        if devices[idx].vendor == GpuVendor::Amd && devices[idx].is_discrete {
            proof {
                lemma_first_index_extends(all, amd, idx as int);
            }
            return Some(idx);
        }
        idx += 1;
    }
    idx = 0;
    while idx < devices.len()
        invariant
            idx <= devices.len(),
            all == gpu_views(devices@),
            nvidia == |d: GpuInfoView| is_nvidia_discrete(d),
            amd == |d: GpuInfoView| is_amd_discrete(d),
            discrete == |d: GpuInfoView| is_discrete(d),
            first_index(all, nvidia) is None,
            first_index(all, amd) is None,
            first_index(all.take(idx as int), discrete) is None,
        decreases devices.len() - idx,
    {
        proof {
            let next = all.take(idx + 1);
            assert(next.drop_last() == all.take(idx as int));
        }
        if devices[idx].is_discrete {
            proof {
                lemma_first_index_extends(all, discrete, idx as int);
            }
            return Some(idx);
        }
        idx += 1;
    }
    Some(0)
}

/// Once found in a prefix, the first index stays the same in the whole
/// list.
pub proof fn lemma_first_index_extends(
    devices: Seq<GpuInfoView>,
    wanted: spec_fn(GpuInfoView) -> bool,
    i: int,
)
    requires
        0 <= i < devices.len(),
        first_index(devices.take(i + 1), wanted) == Some(i),
    ensures
        first_index(devices, wanted) == Some(i),
{
    lemma_first_index(devices.take(i + 1), wanted);
    lemma_first_index(devices, wanted);
    assert(devices.take(i + 1)[i] == devices[i]);
    match first_index(devices, wanted) {
        Some(k) => {
            if k < i {
                assert(devices.take(i + 1)[k] == devices[k]);
            }
            if i < k {
            }
        },
        None => {},
    }
}

/// Where the list holds a discrete device, the recommended device is
/// discrete.
pub proof fn law_discrete_device_preferred(devices: Seq<GpuInfoView>)
    requires
        exists|i: int| 0 <= i < devices.len() && (#[trigger] devices[i]).is_discrete,
    ensures
        select_spec(devices) matches Some(chosen) && 0 <= chosen < devices.len()
            && devices[chosen].is_discrete,
{
    lemma_first_index(devices, |d: GpuInfoView| is_nvidia_discrete(d));
    lemma_first_index(devices, |d: GpuInfoView| is_amd_discrete(d));
    lemma_first_index(devices, |d: GpuInfoView| is_discrete(d));
}

/// Where the list holds a discrete NVIDIA card, the recommended device is
/// an NVIDIA card, whatever else is in the list, a discrete AMD card
/// included.
pub proof fn law_nvidia_before_amd(devices: Seq<GpuInfoView>)
    requires
        exists|i: int| 0 <= i < devices.len() && is_nvidia_discrete(#[trigger] devices[i]),
    ensures
        select_spec(devices) matches Some(chosen) && 0 <= chosen < devices.len()
            && devices[chosen].vendor == GpuVendor::Nvidia,
{
    lemma_first_index(devices, |d: GpuInfoView| is_nvidia_discrete(d));
}

/// Where the list is not empty and holds no discrete device, the first
/// device is recommended.
pub proof fn law_first_device_without_discrete(devices: Seq<GpuInfoView>)
    requires
        devices.len() > 0,
        forall|i: int| 0 <= i < devices.len() ==> !(#[trigger] devices[i]).is_discrete,
    ensures
        select_spec(devices) == Some(0int),
{
    lemma_first_index(devices, |d: GpuInfoView| is_nvidia_discrete(d));
    lemma_first_index(devices, |d: GpuInfoView| is_amd_discrete(d));
    lemma_first_index(devices, |d: GpuInfoView| is_discrete(d));
}

/// Nothing is recommended from an empty list, and something from every
/// other list.
pub proof fn law_recommendation_exists(devices: Seq<GpuInfoView>)
    ensures
        select_spec(devices) is None <==> devices.len() == 0,
        select_spec(devices) matches Some(chosen) ==> 0 <= chosen < devices.len(),
{
    lemma_first_index(devices, |d: GpuInfoView| is_nvidia_discrete(d));
    lemma_first_index(devices, |d: GpuInfoView| is_amd_discrete(d));
    lemma_first_index(devices, |d: GpuInfoView| is_discrete(d));
}

/// Among the devices of the winning tier the lowest index is chosen.
pub proof fn law_lowest_index_wins(devices: Seq<GpuInfoView>, chosen: int, other: int)
    requires
        select_spec(devices) == Some(chosen),
        0 <= other < chosen,
    ensures
        !is_nvidia_discrete(devices[other]),
        is_amd_discrete(devices[chosen]) ==> !is_amd_discrete(devices[other]),
        !is_nvidia_discrete(devices[chosen]) && !is_amd_discrete(devices[chosen])
            ==> !devices[other].is_discrete,
{
    lemma_first_index(devices, |d: GpuInfoView| is_nvidia_discrete(d));
    lemma_first_index(devices, |d: GpuInfoView| is_amd_discrete(d));
    lemma_first_index(devices, |d: GpuInfoView| is_discrete(d));
}

} // verus!
