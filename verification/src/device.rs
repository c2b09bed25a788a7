//! Accelerator and queue-family selection.
//!
//! The initializer enumerates every physical accelerator and every queue
//! family each one exposes, and must end up with a pair whose family supports
//! both graphics work and presentation to the window surface. The driver
//! queries that establish those two capabilities happen outside the library;
//! the selector below receives them as plain values, one record per queue
//! family, in enumeration order.

use vstd::prelude::*;

verus! {

/// Capabilities of one queue family of one accelerator, as reported by the
/// driver: whether it accepts graphics commands and whether it can present
/// to the target surface.
#[derive(Clone, Copy, PartialEq, Eq, Structural, Debug)]
pub struct QueueFamilyCaps {
    pub graphics: bool,
    pub present: bool,
}

/// One accelerator together with the capabilities of its queue families,
/// in the order the driver reports them.
#[derive(PartialEq, Eq, Debug)]
pub struct AdapterCaps {
    pub queue_families: Vec<QueueFamilyCaps>,
}

/// The selected accelerator index and queue-family index.
#[derive(Clone, Copy, PartialEq, Eq, Structural, Debug)]
pub struct DeviceChoice {
    pub adapter: usize,
    pub queue_family: usize,
}

/// A queue family is suitable when it supports both graphics and presentation.
pub open spec fn family_suitable(f: QueueFamilyCaps) -> bool {
    f.graphics && f.present
}

/// An accelerator is suitable when at least one of its queue families is.
pub open spec fn adapter_suitable(a: AdapterCaps) -> bool {
    exists|q: int| 0 <= q < a.queue_families.len() && family_suitable(a.queue_families[q])
}

/// Select the first accelerator exposing a queue family with both graphics
/// and presentation support, and within it the first such family. Reports
/// failure exactly when no accelerator has such a family: the caller treats
/// that as a fatal configuration error.
pub fn select_device_queue(adapters: &Vec<AdapterCaps>) -> (r: Option<DeviceChoice>)
    ensures
        match r {
            Some(c) => {
                &&& c.adapter < adapters.len()
                &&& c.queue_family < adapters@[c.adapter as int].queue_families.len()
                &&& family_suitable(
                    adapters@[c.adapter as int].queue_families@[c.queue_family as int],
                )
                &&& forall|d: int| 0 <= d < c.adapter ==> !adapter_suitable(adapters@[d])
                &&& forall|q: int| 0 <= q < c.queue_family
                    ==> !family_suitable(
                        adapters@[c.adapter as int].queue_families@[q],
                    )
            },
            None => forall|d: int| 0 <= d < adapters.len() ==> !adapter_suitable(adapters@[d]),
        },
{
    let mut d: usize = 0;
    while d < adapters.len()
        invariant
            d <= adapters.len(),
            forall|k: int| 0 <= k < d ==> !adapter_suitable(adapters@[k]),
        decreases adapters.len() - d,
    {
        let families = &adapters[d].queue_families;
        let mut q: usize = 0;
        while q < families.len()
            invariant
                q <= families.len(),
                families@ == adapters@[d as int].queue_families@,
                d < adapters.len(),
                forall|k: int| 0 <= k < d ==> !adapter_suitable(adapters@[k]),
                forall|j: int| 0 <= j < q ==> !family_suitable(families@[j]),
            decreases families.len() - q,
        {
            if families[q].graphics && families[q].present {
                return Some(DeviceChoice { adapter: d, queue_family: q });
            }
            q = q + 1;
        }
        assert(!adapter_suitable(adapters@[d as int]));
        d = d + 1;
    }
    None
}

} // verus!
