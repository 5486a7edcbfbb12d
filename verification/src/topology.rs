//! The cores of the machine as they are found, and the view that joins them
//! with a profile's overrides.

use vstd::prelude::*;
use crate::cpu_cores::CoreSetting;
use crate::reconcile::{find_core, has_core, is_first_core};

verus! {

/// A logical core as the machine shows it. Frequencies are in megahertz.
#[derive(Debug, Clone, PartialEq)]
pub struct CoreInfo {
    pub logical_cpu_id: u32,
    pub physical_core_id: u32,
    /// `None` for a core that cannot be switched off.
    pub online: Option<bool>,
    pub base_frequency: u32,
    pub current_frequency: u32,
    pub min_frequency: u32,
    pub max_frequency: u32,
    pub governor: String,
    pub epp: Option<String>,
    /// On a hybrid machine, whether this is a performance core.
    pub is_performance_core: Option<bool>,
}

/// What a text that may be absent reads.
pub open spec fn reading(text: Option<String>) -> Option<Seq<char>> {
    match text {
        Some(text) => Some(text@),
        None => None,
    }
}

impl CoreInfo {
    /// The two cores show the same in every field.
    pub open spec fn same_as(&self, other: CoreInfo) -> bool {
        &&& self.logical_cpu_id == other.logical_cpu_id
        &&& self.physical_core_id == other.physical_core_id
        &&& self.online == other.online
        &&& self.base_frequency == other.base_frequency
        &&& self.current_frequency == other.current_frequency
        &&& self.min_frequency == other.min_frequency
        &&& self.max_frequency == other.max_frequency
        &&& self.governor@ == other.governor@
        &&& reading(self.epp) == reading(other.epp)
        &&& self.is_performance_core == other.is_performance_core
    }

    /// Whether the two cores show the same in every field.
    pub fn same(&self, other: &CoreInfo) -> (same: bool)
        ensures
            same == self.same_as(*other),
    {
        let epp = match (&self.epp, &other.epp) {
            (Some(mine), Some(theirs)) => *mine == *theirs,
            (None, None) => true,
            _ => false,
        };
        self.logical_cpu_id == other.logical_cpu_id && self.physical_core_id
            == other.physical_core_id && self.online == other.online && self.base_frequency
            == other.base_frequency && self.current_frequency == other.current_frequency
            && self.min_frequency == other.min_frequency && self.max_frequency
            == other.max_frequency && self.governor == other.governor && epp
            && self.is_performance_core == other.is_performance_core
    }
}

/// The two snapshots show the same cores, in the same order and the same in
/// every field.
pub open spec fn same_topology(seen: Seq<CoreInfo>, live: Seq<CoreInfo>) -> bool {
    &&& seen.len() == live.len()
    &&& forall|i: int| 0 <= i < seen.len() ==> (#[trigger] seen[i]).same_as(live[i])
}

/// Whether a snapshot differs from the one seen last, in which case the view is
/// to be made anew.
pub fn topology_changed(seen: &Vec<CoreInfo>, live: &Vec<CoreInfo>) -> (changed: bool)
    ensures
        changed == !same_topology(seen@, live@),
{
    if seen.len() != live.len() {
        return true;
    }
    let mut i: usize = 0;
    while i < seen.len()
        invariant
            i <= seen@.len(),
            seen@.len() == live@.len(),
            forall|j: int| 0 <= j < i ==> (#[trigger] seen@[j]).same_as(live@[j]),
        decreases seen@.len() - i,
    {
        if !seen[i].same(&live[i]) {
            return true;
        }
        i = i + 1;
    }
    false
}

/// One line of the view: a core, and the override that the profile has for it.
#[derive(Debug, Clone, Copy, PartialEq, Eq)]
pub struct CoreEntry {
    /// The index of the core in the snapshot.
    pub core: usize,
    /// The index of its override in the profile's list, if it has one.
    pub setting: Option<usize>,
}

/// `view` joins the cores of `live` with `overrides`: one line for each core, in
/// their order, each with the first override for its number, if there is one.
pub open spec fn joins(view: Seq<CoreEntry>, live: Seq<CoreInfo>, overrides: Seq<CoreSetting>) -> bool {
    &&& view.len() == live.len()
    &&& forall|i: int|
        0 <= i < view.len() ==> {
            &&& (#[trigger] view[i]).core == i
            &&& match view[i].setting {
                Some(index) => is_first_core(overrides, live[i].logical_cpu_id, index as int),
                None => !has_core(overrides, live[i].logical_cpu_id),
            }
        }
}

/// Makes the view of the cores of `live` with the overrides `overrides`.
pub fn merge_core_view(live: &Vec<CoreInfo>, overrides: &Vec<CoreSetting>) -> (view: Vec<CoreEntry>)
    ensures
        joins(view@, live@, overrides@),
{
    let mut view: Vec<CoreEntry> = Vec::new();
    let mut i: usize = 0;
    while i < live.len()
        invariant
            i <= live@.len(),
            joins(view@, live@.take(i as int), overrides@),
        decreases live@.len() - i,
    {
        let setting = find_core(overrides, live[i].logical_cpu_id);
        view.push(CoreEntry { core: i, setting });
        i = i + 1;
    }
    assert(live@.take(i as int) =~= live@);
    view
}

/// Brings the view up to a new snapshot: where `live` shows what was seen
/// last, `view` stays as it is; where it differs in anything, or nothing was
/// seen yet, the view is made anew from `live`, as a whole.
pub fn sync_core_view(
    seen: &Option<Vec<CoreInfo>>,
    live: &Vec<CoreInfo>,
    overrides: &Vec<CoreSetting>,
    view: Vec<CoreEntry>,
) -> (synced: Vec<CoreEntry>)
    ensures
        seen matches Some(seen) && same_topology(seen@, live@) ==> synced == view,
        !(seen matches Some(seen) && same_topology(seen@, live@)) ==> joins(
            synced@,
            live@,
            overrides@,
        ),
{
    let changed = match seen {
        Some(seen) => topology_changed(seen, live),
        None => true,
    };
    if changed {
        merge_core_view(live, overrides)
    } else {
        view
    }
}

} // verus!
